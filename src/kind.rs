use vstd::prelude::*;
use vstd::string::*;

verus! {

/// Why the toolkit refused to do what it was asked.
#[derive(Debug, PartialEq, Eq, Structural)]
pub enum Kind {
    EmptyString,
    NoSuchFile,
    UnknownFrame,
    IdCodeNotFound,
    Unknown,
}

/// The short code that the toolkit gives a missing file.
pub open spec fn code_no_such_file() -> Seq<char> {
    "SPICE(NOSUCHFILE)"@
}

/// The short code that the toolkit gives an empty string argument.
pub open spec fn code_empty_string() -> Seq<char> {
    "SPICE(EMPTYSTRING)"@
}

/// The short code that the toolkit gives a frame it does not know.
pub open spec fn code_unknown_frame() -> Seq<char> {
    "SPICE(UNKNOWNFRAME)"@
}

/// The short code that the toolkit gives a name without an ID code.
pub open spec fn code_id_code_not_found() -> Seq<char> {
    "SPICE(IDCODENOTFOUND)"@
}

/// Whether `code` is one of the short codes that has a kind of its own.
pub open spec fn is_known_code(code: Seq<char>) -> bool {
    ||| code == code_no_such_file()
    ||| code == code_empty_string()
    ||| code == code_unknown_frame()
    ||| code == code_id_code_not_found()
}

/// The kind of a failure whose short code is `code`: an exact match against
/// the known codes, and `Unknown` for every other text.
pub open spec fn kind_of_code(code: Seq<char>) -> Kind {
    if code == code_no_such_file() {
        Kind::NoSuchFile
    } else if code == code_empty_string() {
        Kind::EmptyString
    } else if code == code_unknown_frame() {
        Kind::UnknownFrame
    } else if code == code_id_code_not_found() {
        Kind::IdCodeNotFound
    } else {
        Kind::Unknown
    }
}

/// Whether two strings hold the same characters.
fn same_text(a: &str, b: &str) -> (r: bool)
    ensures
        r == (a@ == b@),
{
    let n = a.unicode_len();
    if n != b.unicode_len() {
        return false;
    }
    let mut i: usize = 0;
    while i < n
        invariant
            n == a@.len(),
            n == b@.len(),
            i <= n,
            forall|j: int| 0 <= j < i ==> a@[j] == b@[j],
        decreases n - i,
    {
        if a.get_char(i) != b.get_char(i) {
            return false;
        }
        i = i + 1;
    }
    assert(a@ =~= b@);
    true
}

impl<'a> From<&'a str> for Kind {
    /// Classifies a short error code of the toolkit.
    fn from(short_err: &'a str) -> (k: Kind) {
        if same_text(short_err, "SPICE(NOSUCHFILE)") {
            Kind::NoSuchFile
        } else if same_text(short_err, "SPICE(EMPTYSTRING)") {
            Kind::EmptyString
        } else if same_text(short_err, "SPICE(UNKNOWNFRAME)") {
            Kind::UnknownFrame
        } else if same_text(short_err, "SPICE(IDCODENOTFOUND)") {
            Kind::IdCodeNotFound
        } else {
            Kind::Unknown
        }
    }
}

impl<'a> vstd::std_specs::convert::FromSpecImpl<&'a str> for Kind {
    open spec fn obeys_from_spec() -> bool {
        true
    }

    open spec fn from_spec(short_err: &'a str) -> Kind {
        kind_of_code(short_err@)
    }
}

/// A short code outside the known table is classified `Unknown`; the
/// classification is defined for every text.
pub proof fn lemma_unknown_codes(code: Seq<char>)
    ensures
        !is_known_code(code) ==> kind_of_code(code) == Kind::Unknown,
        is_known_code(code) ==> kind_of_code(code) != Kind::Unknown,
{
}

} // verus!
