use vstd::prelude::*;

use crate::error::{error_of, SpiceError};
use crate::kind::{kind_of_code, Kind};

verus! {

/// A call that the loader asks its caller to make on the toolkit.
#[derive(Debug, PartialEq, Eq, Structural)]
pub enum Request {
    /// Set the toolkit's error action to "RETURN", so that a failing routine
    /// returns instead of ending the process (`erract`).
    SetReturnAction,
    /// Load the kernel (`furnsh`).
    Load,
    /// Ask whether the toolkit is in an error state (`failed`).
    AskFailed,
    /// Fetch the short error message (`getmsg` with "SHORT").
    FetchShort,
    /// Fetch the long error message (`getmsg` with "LONG").
    FetchLong,
    /// Clear the toolkit's error state (`reset`).
    ResetErrors,
}

/// The toolkit's answer to the last request.
#[derive(Debug)]
pub enum Reply {
    /// The request was carried out and had nothing to report.
    Done,
    /// The answer to `AskFailed`.
    Failed(bool),
    /// The message fetched for `FetchShort` or `FetchLong`.
    Message(String),
}

/// How far one load has come.
///
/// A load starts at `Start`. Each stage but `Finished` names one request
/// (see [`Stage::request`]); the caller makes it on the toolkit and hands the
/// answer to [`Stage::advance`]. A reply that does not answer the current
/// request leaves the stage as it is.
#[derive(Debug)]
pub enum Stage {
    Start,
    ActionSet,
    Loaded,
    Failing,
    ShortFetched(Kind),
    Clearing(SpiceError),
    Finished(Result<(), SpiceError>),
}

impl Stage {
    /// The request that this stage makes of the toolkit; none once finished.
    pub open spec fn request_spec(&self) -> Option<Request> {
        match self {
            Stage::Start => Some(Request::SetReturnAction),
            Stage::ActionSet => Some(Request::Load),
            Stage::Loaded => Some(Request::AskFailed),
            Stage::Failing => Some(Request::FetchShort),
            Stage::ShortFetched(_) => Some(Request::FetchLong),
            Stage::Clearing(_) => Some(Request::ResetErrors),
            Stage::Finished(_) => None,
        }
    }

    /// The stage that follows this one once `reply` has come.
    pub open spec fn advance_spec(self, reply: Reply) -> Stage {
        match (self, reply) {
            (Stage::Start, Reply::Done) => Stage::ActionSet,
            (Stage::ActionSet, Reply::Done) => Stage::Loaded,
            (Stage::Loaded, Reply::Failed(failed)) => if failed {
                Stage::Failing
            } else {
                Stage::Finished(Ok(()))
            },
            (Stage::Failing, Reply::Message(short)) => Stage::ShortFetched(kind_of_code(short@)),
            (Stage::ShortFetched(kind), Reply::Message(long)) => Stage::Clearing(
                SpiceError { kind, long },
            ),
            (Stage::Clearing(e), Reply::Done) => Stage::Finished(Err(e)),
            (stage, _) => stage,
        }
    }

    /// The result of the load, once it has finished.
    pub open spec fn outcome_spec(self) -> Option<Result<(), SpiceError>> {
        match self {
            Stage::Finished(outcome) => Some(outcome),
            _ => None,
        }
    }

    /// The stage that every load starts from.
    pub fn new() -> (s: Stage)
        ensures
            s == Stage::Start,
    {
        Stage::Start
    }

    /// The request to make of the toolkit next; `None` once the load has
    /// finished.
    pub fn request(&self) -> (r: Option<Request>)
        ensures
            r == self.request_spec(),
    {
        match self {
            Stage::Start => Some(Request::SetReturnAction),
            Stage::ActionSet => Some(Request::Load),
            Stage::Loaded => Some(Request::AskFailed),
            Stage::Failing => Some(Request::FetchShort),
            Stage::ShortFetched(_) => Some(Request::FetchLong),
            Stage::Clearing(_) => Some(Request::ResetErrors),
            Stage::Finished(_) => None,
        }
    }

    /// Moves on with the toolkit's answer to the current request.
    pub fn advance(self, reply: Reply) -> (s: Stage)
        ensures
            s == self.advance_spec(reply),
    {
        match self {
            Stage::Start => match reply {
                Reply::Done => Stage::ActionSet,
                _ => Stage::Start,
            },
            Stage::ActionSet => match reply {
                Reply::Done => Stage::Loaded,
                _ => Stage::ActionSet,
            },
            Stage::Loaded => match reply {
                Reply::Failed(failed) => if failed {
                    Stage::Failing
                } else {
                    Stage::Finished(Ok(()))
                },
                _ => Stage::Loaded,
            },
            Stage::Failing => match reply {
                Reply::Message(short) => Stage::ShortFetched(Kind::from(short.as_str())),
                _ => Stage::Failing,
            },
            Stage::ShortFetched(kind) => match reply {
                Reply::Message(long) => Stage::Clearing(SpiceError { kind, long }),
                _ => Stage::ShortFetched(kind),
            },
            Stage::Clearing(e) => match reply {
                Reply::Done => Stage::Finished(Err(e)),
                _ => Stage::Clearing(e),
            },
            Stage::Finished(outcome) => Stage::Finished(outcome),
        }
    }

    /// The result of the load: `Some` exactly when it has finished.
    pub fn into_outcome(self) -> (r: Option<Result<(), SpiceError>>)
        ensures
            r == self.outcome_spec(),
    {
        match self {
            Stage::Finished(outcome) => Some(outcome),
            _ => None,
        }
    }
}

/// What is known of the toolkit's error flag after `request` was made and
/// answered by `reply`, given what was known before (`None`: unknown).
///
/// Loading may leave the flag set; asking reads it; resetting clears it; the
/// other calls leave it as it was.
pub open spec fn flag_after(flag: Option<bool>, request: Request, reply: Reply) -> Option<bool> {
    match request {
        Request::Load => None,
        Request::AskFailed => match reply {
            Reply::Failed(failed) => Some(failed),
            _ => flag,
        },
        Request::ResetErrors => match reply {
            Reply::Done => Some(false),
            _ => flag,
        },
        _ => flag,
    }
}

/// One exchange with the toolkit: the stage makes its request, `reply`
/// answers it. A finished load asks nothing and stays as it is.
pub open spec fn exchange(state: (Stage, Option<bool>), reply: Reply) -> (Stage, Option<bool>) {
    match state.0.request_spec() {
        Some(request) => (state.0.advance_spec(reply), flag_after(state.1, request, reply)),
        None => state,
    }
}

/// The stage and the knowledge of the error flag after the replies in
/// `replies`, in order.
pub open spec fn run(state: (Stage, Option<bool>), replies: Seq<Reply>) -> (Stage, Option<bool>)
    decreases replies.len(),
{
    if replies.len() == 0 {
        state
    } else {
        run(exchange(state, replies[0]), replies.drop_first())
    }
}

/// The requests made of the toolkit while `replies` are handed in, in order.
pub open spec fn requests_made(stage: Stage, replies: Seq<Reply>) -> Seq<Request>
    decreases replies.len(),
{
    if replies.len() == 0 {
        Seq::empty()
    } else {
        match stage.request_spec() {
            Some(request) => seq![request] + requests_made(
                stage.advance_spec(replies[0]),
                replies.drop_first(),
            ),
            None => Seq::empty(),
        }
    }
}

/// The replies of a toolkit that loads the kernel without error.
pub open spec fn replies_on_success() -> Seq<Reply> {
    seq![Reply::Done, Reply::Done, Reply::Failed(false)]
}

/// The replies of a toolkit that fails to load the kernel, with the given
/// short and long messages.
pub open spec fn replies_on_failure(short: String, long: String) -> Seq<Reply> {
    seq![
        Reply::Done,
        Reply::Done,
        Reply::Failed(true),
        Reply::Message(short),
        Reply::Message(long),
        Reply::Done,
    ]
}

/// What each stage implies of the error flag: set while the failure is
/// drained, clear once the load has finished.
pub open spec fn flag_agrees(state: (Stage, Option<bool>)) -> bool {
    match state.0 {
        Stage::Failing => state.1 == Some(true),
        Stage::ShortFetched(_) => state.1 == Some(true),
        Stage::Clearing(_) => state.1 == Some(true),
        Stage::Finished(_) => state.1 == Some(false),
        _ => true,
    }
}

proof fn lemma_run_keeps_flag_agreement(state: (Stage, Option<bool>), replies: Seq<Reply>)
    requires
        flag_agrees(state),
    ensures
        flag_agrees(run(state, replies)),
    decreases replies.len(),
{
    if replies.len() > 0 {
        lemma_run_keeps_flag_agreement(exchange(state, replies[0]), replies.drop_first());
    }
}

/// Whatever the toolkit answers, and whatever state its error flag was in
/// before, a load that has finished has left the flag clear.
pub proof fn lemma_finished_load_leaves_flag_clear(flag: Option<bool>, replies: Seq<Reply>)
    ensures
        run((Stage::Start, flag), replies).0 is Finished ==> run((Stage::Start, flag), replies).1
            == Some(false),
{
    lemma_run_keeps_flag_agreement((Stage::Start, flag), replies);
}

/// When the toolkit loads the kernel without error, the load succeeds, the
/// error flag is clear afterwards, and the toolkit is asked to set its error
/// action, to load and to report failure, and nothing more: in particular
/// its error state is not reset.
pub proof fn lemma_success(flag: Option<bool>)
    ensures
        run((Stage::Start, flag), replies_on_success()) == (Stage::Finished(Ok(())), Some(false)),
        requests_made(Stage::Start, replies_on_success()) == seq![
            Request::SetReturnAction,
            Request::Load,
            Request::AskFailed,
        ],
{
    let r = replies_on_success();
    assert(r.drop_first() =~= seq![Reply::Done, Reply::Failed(false)]);
    assert(r.drop_first().drop_first() =~= seq![Reply::Failed(false)]);
    assert(r.drop_first().drop_first().drop_first() =~= Seq::<Reply>::empty());
    reveal_with_fuel(run, 4);
    reveal_with_fuel(requests_made, 4);
    assert(requests_made(Stage::Start, r) =~= seq![
        Request::SetReturnAction,
        Request::Load,
        Request::AskFailed,
    ]);
}

/// When the toolkit fails to load the kernel, the load fails with the kind
/// that the short message classifies to and with the long message; the
/// toolkit's error state was reset last, so its flag is clear afterwards.
pub proof fn lemma_failure(flag: Option<bool>, short: String, long: String)
    ensures
        run((Stage::Start, flag), replies_on_failure(short, long)) == (
            Stage::Finished(Err(error_of(short@, long))),
            Some(false),
        ),
        requests_made(Stage::Start, replies_on_failure(short, long)) == seq![
            Request::SetReturnAction,
            Request::Load,
            Request::AskFailed,
            Request::FetchShort,
            Request::FetchLong,
            Request::ResetErrors,
        ],
{
    let r = replies_on_failure(short, long);
    let r1 = r.drop_first();
    let r2 = r1.drop_first();
    let r3 = r2.drop_first();
    let r4 = r3.drop_first();
    let r5 = r4.drop_first();
    let r6 = r5.drop_first();
    assert(r1 =~= seq![
        Reply::Done,
        Reply::Failed(true),
        Reply::Message(short),
        Reply::Message(long),
        Reply::Done,
    ]);
    assert(r2 =~= seq![Reply::Failed(true), Reply::Message(short), Reply::Message(long), Reply::Done]);
    assert(r3 =~= seq![Reply::Message(short), Reply::Message(long), Reply::Done]);
    assert(r4 =~= seq![Reply::Message(long), Reply::Done]);
    assert(r5 =~= seq![Reply::Done]);
    assert(r6 =~= Seq::<Reply>::empty());
    reveal_with_fuel(run, 7);
    reveal_with_fuel(requests_made, 7);
    assert(requests_made(Stage::Start, r) =~= seq![
        Request::SetReturnAction,
        Request::Load,
        Request::AskFailed,
        Request::FetchShort,
        Request::FetchLong,
        Request::ResetErrors,
    ]);
}

/// Two failing loads in a row give two errors, each classified from its own
/// messages: the first leaves the error flag clear, and the second comes out
/// the same whatever state the first left behind.
pub proof fn lemma_failures_independent(
    flag: Option<bool>,
    short1: String,
    long1: String,
    short2: String,
    long2: String,
)
    ensures
        run((Stage::Start, flag), replies_on_failure(short1, long1)) == (
            Stage::Finished(Err(error_of(short1@, long1))),
            Some(false),
        ),
        forall|left: Option<bool>|
            #![trigger run((Stage::Start, left), replies_on_failure(short2, long2))]
            run((Stage::Start, left), replies_on_failure(short2, long2)) == (
                Stage::Finished(Err(error_of(short2@, long2))),
                Some(false),
            ),
{
    lemma_failure(flag, short1, long1);
    assert forall|left: Option<bool>|
        #![trigger run((Stage::Start, left), replies_on_failure(short2, long2))]
        run((Stage::Start, left), replies_on_failure(short2, long2)) == (
            Stage::Finished(Err(error_of(short2@, long2))),
            Some(false),
        ) by {
        lemma_failure(left, short2, long2);
    }
}

} // verus!
