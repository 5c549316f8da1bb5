use spice_results::{Kind, Reply, Request, SpiceError, Stage};

/// Drives one load against a toolkit that answers each request in turn from
/// `answers`: the requests made, and the outcome if the load finished.
fn drive(answers: Vec<Reply>) -> (Vec<Request>, Option<Result<(), SpiceError>>) {
    let mut stage = Stage::new();
    let mut asked = Vec::new();
    for reply in answers {
        match stage.request() {
            Some(request) => asked.push(request),
            None => break,
        }
        stage = stage.advance(reply);
    }
    (asked, stage.into_outcome())
}

fn failing(short: &str, long: &str) -> Vec<Reply> {
    vec![
        Reply::Done,
        Reply::Done,
        Reply::Failed(true),
        Reply::Message(String::from(short)),
        Reply::Message(String::from(long)),
        Reply::Done,
    ]
}

fn succeeding() -> Vec<Reply> {
    vec![Reply::Done, Reply::Done, Reply::Failed(false)]
}

fn expect_error(outcome: Option<Result<(), SpiceError>>) -> SpiceError {
    match outcome {
        Some(Err(e)) => e,
        other => panic!("expected a finished, failed load, got {:?}", other),
    }
}

#[test]
fn empty_path_gives_empty_string() {
    let (_, outcome) = drive(failing("SPICE(EMPTYSTRING)", "The input file name is blank."));
    let e = expect_error(outcome);
    assert_eq!(e.kind, Kind::EmptyString);
    assert_eq!(e.long, "The input file name is blank.");
}

#[test]
fn missing_file_gives_no_such_file() {
    let long = "The file '/nonexistent/path/kernel.bsp' could not be located.";
    let (_, outcome) = drive(failing("SPICE(NOSUCHFILE)", long));
    let e = expect_error(outcome);
    assert_eq!(e.kind, Kind::NoSuchFile);
    assert_eq!(e.long, long);
}

#[test]
fn valid_kernel_succeeds_without_reset() {
    let (asked, outcome) = drive(succeeding());
    assert!(matches!(outcome, Some(Ok(()))));
    assert_eq!(asked, vec![Request::SetReturnAction, Request::Load, Request::AskFailed]);
}

#[test]
fn failure_is_drained_then_reset_last() {
    let (asked, outcome) = drive(failing("SPICE(UNKNOWNFRAME)", "Frame FOO is not known."));
    assert_eq!(
        asked,
        vec![
            Request::SetReturnAction,
            Request::Load,
            Request::AskFailed,
            Request::FetchShort,
            Request::FetchLong,
            Request::ResetErrors,
        ]
    );
    assert_eq!(expect_error(outcome).kind, Kind::UnknownFrame);
}

#[test]
fn unknown_code_is_classified_unknown() {
    let (_, outcome) = drive(failing("SPICE(BADDAFTRANSFERFILE)", "Bad transfer file."));
    let e = expect_error(outcome);
    assert_eq!(e.kind, Kind::Unknown);
    assert_eq!(e.long, "Bad transfer file.");
}

#[test]
fn two_failures_are_independent() {
    let (_, first) = drive(failing("SPICE(NOSUCHFILE)", "first"));
    let (asked, second) = drive(failing("SPICE(IDCODENOTFOUND)", "second"));
    let first = expect_error(first);
    let second = expect_error(second);
    assert_eq!(first.kind, Kind::NoSuchFile);
    assert_eq!(first.long, "first");
    assert_eq!(second.kind, Kind::IdCodeNotFound);
    assert_eq!(second.long, "second");
    assert_eq!(asked[0], Request::SetReturnAction);
}

#[test]
fn valid_kernel_after_failure_succeeds() {
    let (asked, first) = drive(failing("SPICE(EMPTYSTRING)", "blank"));
    assert_eq!(asked.last(), Some(&Request::ResetErrors));
    assert_eq!(expect_error(first).kind, Kind::EmptyString);
    let (_, second) = drive(succeeding());
    assert!(matches!(second, Some(Ok(()))));
}

#[test]
fn mismatched_reply_leaves_stage() {
    let stage = Stage::new().advance(Reply::Failed(true));
    assert_eq!(stage.request(), Some(Request::SetReturnAction));
    let stage = stage.advance(Reply::Done).advance(Reply::Message(String::from("x")));
    assert_eq!(stage.request(), Some(Request::Load));
    let stage = stage.advance(Reply::Done).advance(Reply::Done);
    assert_eq!(stage.request(), Some(Request::AskFailed));
}

#[test]
fn finished_load_asks_nothing_more() {
    let stage = Stage::new()
        .advance(Reply::Done)
        .advance(Reply::Done)
        .advance(Reply::Failed(false));
    assert_eq!(stage.request(), None);
    let stage = stage.advance(Reply::Done);
    assert_eq!(stage.request(), None);
    assert!(matches!(stage.into_outcome(), Some(Ok(()))));
}

#[test]
fn unfinished_load_has_no_outcome() {
    let stage = Stage::new().advance(Reply::Done).advance(Reply::Done);
    assert!(stage.into_outcome().is_none());
    let stage = Stage::new()
        .advance(Reply::Done)
        .advance(Reply::Done)
        .advance(Reply::Failed(true))
        .advance(Reply::Message(String::from("SPICE(NOSUCHFILE)")))
        .advance(Reply::Message(String::from("missing")));
    assert_eq!(stage.request(), Some(Request::ResetErrors));
    assert!(stage.into_outcome().is_none());
}
