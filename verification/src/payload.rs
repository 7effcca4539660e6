//! The first look at an event: what kind of payload it is.

use vstd::prelude::*;

use crate::outcome::{Failure, FailureModel, Outcome};
use crate::text::same_text;

verus! {

/// `serde_json::Value`, a JSON value of any shape. It is carried through and
/// read by its members only.
#[verifier::external_type_specification]
#[verifier::external_body]
pub struct ExJsonValue(serde_json::Value);

/// The members of a JSON object that hold `true` or `false`, by their keys.
/// A value that is no object has none.
pub uninterp spec fn json_flags(json: serde_json::Value) -> Map<Seq<char>, bool>;

/// The members of a JSON object that hold a string, by their keys. A value
/// that is no object has none.
pub uninterp spec fn json_texts(json: serde_json::Value) -> Map<Seq<char>, Seq<char>>;

/// What the bot reads of a JSON document: its members that hold `true` or
/// `false`, and those that hold a string.
pub ghost struct Document {
    pub flags: Map<Seq<char>, bool>,
    pub texts: Map<Seq<char>, Seq<char>>,
}

impl Document {
    /// The member `key` where it holds `true` or `false`.
    pub open spec fn flag(self, key: Seq<char>) -> Option<bool> {
        if self.flags.contains_key(key) {
            Some(self.flags[key])
        } else {
            None
        }
    }

    /// The member `key` where it holds a string.
    pub open spec fn text(self, key: Seq<char>) -> Option<Seq<char>> {
        if self.texts.contains_key(key) {
            Some(self.texts[key])
        } else {
            None
        }
    }

    /// The kind of payload that the document is.
    pub open spec fn kind(self) -> PayloadKind {
        payload_kind(self.flag("test"@), self.text("eventKey"@))
    }
}

/// What the bot reads of a JSON value.
pub open spec fn document_of(json: serde_json::Value) -> Document {
    Document { flags: json_flags(json), texts: json_texts(json) }
}

/// What the JSON parser makes of a text: the document, as far as the bot
/// reads it, or the parser's message where the text is no JSON.
pub uninterp spec fn parsed(payload: Seq<char>) -> Result<Document, Seq<char>>;

/// Calls `serde_json::from_str` for a `serde_json::Value`, and `to_string`
/// on the `serde_json::Error` where it gives one: the message that the
/// error's `Display` writes, which names what the parser did not expect and
/// the line and column where it stood. Whether a text is accepted, what
/// value it gives and what the message says depend on the text alone.
#[verifier::external_body]
fn parse_json(payload: &str) -> (r: Result<serde_json::Value, String>)
    ensures
        match r {
            Ok(json) => parsed(payload@) == Ok::<Document, Seq<char>>(
                (Document { flags: json_flags(json), texts: json_texts(json) }),
            ),
            Err(message) => parsed(payload@) == Err::<Document, Seq<char>>(message@),
        },
{
    serde_json::from_str(payload).map_err(|error: serde_json::Error| error.to_string())
}

/// Indexes `json` with `key` and calls `Value::as_bool` on what is there.
/// The index gives `Null` where `json` is no object or has no such member,
/// and `as_bool` gives the boolean of a `Bool` and `None` of all else.
#[verifier::external_body]
fn json_flag(json: &serde_json::Value, key: &str) -> (r: Option<bool>)
    ensures
        r == if json_flags(*json).contains_key(key@) {
            Some(json_flags(*json)[key@])
        } else {
            None
        },
{
    json[key].as_bool()
}

/// Indexes `json` with `key` and calls `Value::as_str` on what is there,
/// which gives the text of a `String` and `None` of all else. The text is
/// copied.
#[verifier::external_body]
fn json_text(json: &serde_json::Value, key: &str) -> (r: Option<String>)
    ensures
        match r {
            Some(text) => json_texts(*json).contains_key(key@) && json_texts(*json)[key@] == text@,
            None => !json_texts(*json).contains_key(key@),
        },
{
    json[key].as_str().map(String::from)
}

/// The credential that comes with an event.
pub struct QueryParams {
    pub bearer: String,
}

/// The kinds of payload that the hook tells apart.
#[derive(Debug, Clone, Copy, PartialEq, Eq, Structural)]
pub enum PayloadKind {
    /// A test of the connection: the flag `test` is `true`.
    ConnectivityTest,
    /// A pull request was opened: the event's key is `pr:opened`.
    PullRequestOpened,
    /// Anything else.
    Unexpected,
}

/// The kind of a payload, from its flag `test` and its member `eventKey`. A
/// test is a test whatever else the payload holds.
pub open spec fn payload_kind(test: Option<bool>, event_key: Option<Seq<char>>) -> PayloadKind {
    if test == Some(true) {
        PayloadKind::ConnectivityTest
    } else if event_key == Some("pr:opened"@) {
        PayloadKind::PullRequestOpened
    } else {
        PayloadKind::Unexpected
    }
}

/// The kind of a payload whose flag `test` and member `eventKey` are given.
pub fn classify(test: Option<bool>, event_key: Option<&str>) -> (r: PayloadKind)
    ensures
        r == payload_kind(
            test,
            match event_key {
                Some(key) => Some(key@),
                None => None,
            },
        ),
{
    match test {
        Some(true) => { return PayloadKind::ConnectivityTest; },
        _ => {},
    }
    match event_key {
        Some(key) => {
            if same_text(key, "pr:opened") {
                PayloadKind::PullRequestOpened
            } else {
                PayloadKind::Unexpected
            }
        },
        None => PayloadKind::Unexpected,
    }
}

/// Where an event goes after the first look at it.
pub enum Dispatch {
    /// It is done with: no request is made of the hosting service.
    Finished(Outcome),
    /// It is no JSON, and the failure holds the parser's message: no request
    /// is made of the hosting service.
    Rejected(Failure),
    /// A pull request was opened. The caller decodes `json` as that event and
    /// starts the workflow with it and the bearer token.
    PullRequestOpened { json: serde_json::Value, bearer: String },
}

/// Where a payload goes, given what the JSON parser made of it: the value,
/// or the parser's message.
pub fn dispatch(query: &QueryParams, parsed: Result<serde_json::Value, String>) -> (r: Dispatch)
    ensures
        match parsed {
            Err(message) => r matches Dispatch::Rejected(failure) && failure@ == FailureModel::Decode(message@),
            Ok(json) => match document_of(json).kind() {
                PayloadKind::ConnectivityTest => r == Dispatch::Finished(Outcome::Success),
                PayloadKind::Unexpected => r == Dispatch::Finished(Outcome::Ignored),
                PayloadKind::PullRequestOpened => r matches Dispatch::PullRequestOpened { json: opened, bearer }
                    && opened == json && bearer@ == query.bearer@,
            },
        },
{
    match parsed {
        Err(message) => Dispatch::Rejected(Failure::Decode(message)),
        Ok(json) => {
            let test: Option<bool> = json_flag(&json, "test");
            let event_key: Option<String> = json_text(&json, "eventKey");
            let kind: PayloadKind = match &event_key {
                Some(key) => classify(test, Some(key.as_str())),
                None => classify(test, None),
            };
            match kind {
                PayloadKind::ConnectivityTest => Dispatch::Finished(Outcome::Success),
                PayloadKind::Unexpected => Dispatch::Finished(Outcome::Ignored),
                PayloadKind::PullRequestOpened => Dispatch::PullRequestOpened { json, bearer: query.bearer.clone() },
            }
        },
    }
}

/// The first look at an event: a test of the connection is answered at
/// once, an opened pull request goes on to the workflow, anything else that
/// is JSON is ignored, and what is no JSON is refused with the parser's
/// message.
pub fn handle_bitbucket_event(query: &QueryParams, payload: &str) -> (r: Dispatch)
    ensures
        match parsed(payload@) {
            Err(message) => r matches Dispatch::Rejected(failure) && failure@ == FailureModel::Decode(message),
            Ok(document) => match document.kind() {
                PayloadKind::ConnectivityTest => r == Dispatch::Finished(Outcome::Success),
                PayloadKind::Unexpected => r == Dispatch::Finished(Outcome::Ignored),
                PayloadKind::PullRequestOpened => r matches Dispatch::PullRequestOpened { json, bearer }
                    && document_of(json) == document && bearer@ == query.bearer@,
            },
        },
{
    dispatch(query, parse_json(payload))
}

/// A document whose member `test` holds `true` is a test of the connection,
/// whatever its other members are.
pub proof fn test_flag_wins(document: Document)
    requires
        document.flag("test"@) == Some(true),
    ensures
        document.kind() == PayloadKind::ConnectivityTest,
{
}

/// A document that is no test of the connection and whose member `eventKey`
/// is not the text `pr:opened` is unexpected: it is ignored.
pub proof fn other_events_are_unexpected(document: Document)
    requires
        document.flag("test"@) != Some(true),
        document.text("eventKey"@) != Some("pr:opened"@),
    ensures
        document.kind() == PayloadKind::Unexpected,
{
}

} // verus!
