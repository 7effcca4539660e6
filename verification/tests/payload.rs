use bitbucket_task_bot::{
    classify, dispatch, handle_bitbucket_event, Dispatch, Failure, Outcome, PayloadKind, QueryParams,
};

fn query() -> QueryParams {
    QueryParams { bearer: "secret".to_string() }
}

#[test]
fn connectivity_test_succeeds_at_once() {
    match handle_bitbucket_event(&query(), "{\"test\": true}") {
        Dispatch::Finished(outcome) => assert_eq!(outcome, Outcome::Success),
        _ => panic!("not finished"),
    }
}

#[test]
fn connectivity_test_wins_over_other_members() {
    let payload = "{\"eventKey\": \"pr:opened\", \"pullRequest\": {\"id\": 1}, \"test\": true}";
    match handle_bitbucket_event(&query(), payload) {
        Dispatch::Finished(outcome) => assert_eq!(outcome, Outcome::Success),
        _ => panic!("not finished"),
    }
}

#[test]
fn false_test_flag_is_no_test() {
    match handle_bitbucket_event(&query(), "{\"test\": false}") {
        Dispatch::Finished(outcome) => assert_eq!(outcome, Outcome::Ignored),
        _ => panic!("not finished"),
    }
    match handle_bitbucket_event(&query(), "{\"test\": \"true\"}") {
        Dispatch::Finished(outcome) => assert_eq!(outcome, Outcome::Ignored),
        _ => panic!("not finished"),
    }
}

#[test]
fn other_events_are_ignored() {
    for payload in ["{\"eventKey\": \"pr:merged\"}", "{}", "[1, 2]", "null", "{\"eventKey\": 5}", "{\"eventkey\": \"pr:opened\"}"] {
        match handle_bitbucket_event(&query(), payload) {
            Dispatch::Finished(outcome) => assert_eq!(outcome, Outcome::Ignored),
            _ => panic!("not finished"),
        }
    }
}

#[test]
fn opened_pull_request_goes_on_with_the_document_and_the_token() {
    let payload = "{\"eventKey\": \"pr:opened\", \"pullRequest\": {\"id\": 12}}";
    match handle_bitbucket_event(&query(), payload) {
        Dispatch::PullRequestOpened { json, bearer } => {
            assert_eq!(bearer, "secret");
            assert_eq!(json["pullRequest"]["id"].as_i64(), Some(12));
            assert_eq!(json["eventKey"].as_str(), Some("pr:opened"));
        },
        _ => panic!("not an opened pull request"),
    }
}

#[test]
fn text_that_is_no_json_is_refused_with_the_message_of_the_parser() {
    for payload in ["", "{", "{\"test\": true", "test", "{\"test\": true} x", "{\"a\": 01}"] {
        let expected = serde_json::from_str::<serde_json::Value>(payload).unwrap_err().to_string();
        match handle_bitbucket_event(&query(), payload) {
            Dispatch::Rejected(Failure::Decode(detail)) => assert_eq!(detail, expected),
            _ => panic!("not refused"),
        }
    }
    match handle_bitbucket_event(&query(), "{") {
        Dispatch::Rejected(Failure::Decode(detail)) => {
            assert_eq!(detail, "EOF while parsing an object at line 1 column 1")
        },
        _ => panic!("not refused"),
    }
}

#[test]
fn dispatch_hands_on_the_message_it_is_given() {
    match dispatch(&query(), Err("no JSON at all".to_string())) {
        Dispatch::Rejected(Failure::Decode(detail)) => assert_eq!(detail, "no JSON at all"),
        _ => panic!("not refused"),
    }
    let value: serde_json::Value = serde_json::from_str("{\"test\": true, \"eventKey\": \"pr:opened\"}").unwrap();
    match dispatch(&query(), Ok(value)) {
        Dispatch::Finished(outcome) => assert_eq!(outcome, Outcome::Success),
        _ => panic!("not finished"),
    }
}

#[test]
fn classify_tells_the_three_kinds_apart() {
    assert_eq!(classify(Some(true), None), PayloadKind::ConnectivityTest);
    assert_eq!(classify(Some(true), Some("pr:opened")), PayloadKind::ConnectivityTest);
    assert_eq!(classify(Some(false), Some("pr:opened")), PayloadKind::PullRequestOpened);
    assert_eq!(classify(None, Some("pr:opened")), PayloadKind::PullRequestOpened);
    assert_eq!(classify(None, Some("pr:declined")), PayloadKind::Unexpected);
    assert_eq!(classify(Some(false), None), PayloadKind::Unexpected);
    assert_eq!(classify(None, None), PayloadKind::Unexpected);
}

#[test]
fn outcomes_have_their_messages() {
    assert_eq!(Outcome::Success.message(), "Success");
    assert_eq!(Outcome::NoWorkflow.message(), "No workflow");
    assert_eq!(Outcome::Ignored.message(), "Ignoring unexpected payload");
}

#[test]
fn failures_carry_their_detail() {
    assert_eq!(Failure::Decode("a".to_string()).message(), "a");
    assert_eq!(Failure::Addressing("b".to_string()).message(), "b");
    assert_eq!(Failure::Config("c".to_string()).message(), "c");
    assert_eq!(Failure::Remote("d".to_string()).message(), "d");
    match Failure::Config("c".to_string()).clone() {
        Failure::Config(detail) => assert_eq!(detail, "c"),
        _ => panic!("another failure"),
    }
}
