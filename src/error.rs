use vstd::prelude::*;

use crate::kind::{kind_of_code, Kind};

verus! {

/// A failure reported by the toolkit: its classified cause and the long,
/// human-readable message it gave.
#[derive(Debug)]
pub struct SpiceError {
    pub kind: Kind,
    pub long: String,
}

/// The error made from a failure whose short code is `short` and whose long
/// message is `long`.
pub open spec fn error_of(short: Seq<char>, long: String) -> SpiceError {
    SpiceError { kind: kind_of_code(short), long }
}

impl SpiceError {
    /// Builds the error for a failure from its short code and long message.
    pub fn from_messages(short: &str, long: String) -> (e: SpiceError)
        ensures
            e == error_of(short@, long),
    {
        SpiceError { kind: Kind::from(short), long }
    }

    /// The text shown for this error: exactly the toolkit's long message.
    pub fn to_string(&self) -> (s: String)
        ensures
            s@ == self.long@,
    {
        self.long.clone()
    }
}

} // verus!
