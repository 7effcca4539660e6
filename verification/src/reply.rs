//! What comes of a request to the hosting service, and how it is read.

use vstd::prelude::*;
use vstd::string::*;

use crate::bitbucket::types::PullRequestCommentResponse;
use crate::config::{WorkflowConfig, WorkflowModel};

verus! {

/// The status of a response: its code, and the text it is shown as.
pub struct Status {
    pub code: u16,
    pub text: String,
}

/// What a [`Status`] says.
pub ghost struct StatusModel {
    pub code: int,
    pub text: Seq<char>,
}

impl View for Status {
    type V = StatusModel;

    open spec fn view(&self) -> StatusModel {
        StatusModel { code: self.code as int, text: self.text@ }
    }
}

/// What came of the body of a file that was asked for.
pub enum FileContent {
    /// The body could not be read; the detail says why.
    Unread(String),
    /// The body is not a list of rules; the detail says why.
    Malformed(String),
    /// The rules that the body holds.
    Rules(WorkflowConfig),
}

/// What a [`FileContent`] says.
pub ghost enum FileContentModel {
    Unread(Seq<char>),
    Malformed(Seq<char>),
    Rules(Seq<WorkflowModel>),
}

impl View for FileContent {
    type V = FileContentModel;

    open spec fn view(&self) -> FileContentModel {
        match *self {
            FileContent::Unread(detail) => FileContentModel::Unread(detail@),
            FileContent::Malformed(detail) => FileContentModel::Malformed(detail@),
            FileContent::Rules(config) => FileContentModel::Rules(config@),
        }
    }
}

/// What came of a request.
pub enum Reply {
    /// No response came; the detail says why.
    Unsent(String),
    /// The response to a request for a file.
    File { status: Status, content: FileContent },
    /// The response to a posted comment, with the body as it was decoded or
    /// the detail of why it could not be.
    Comment { status: Status, created: Result<PullRequestCommentResponse, String> },
    /// The response to a posted task.
    Task { status: Status },
}

/// What a [`Reply`] says.
pub ghost enum ReplyModel {
    Unsent(Seq<char>),
    File { status: StatusModel, content: FileContentModel },
    Comment { status: StatusModel, created: Result<int, Seq<char>> },
    Task { status: StatusModel },
}

impl View for Reply {
    type V = ReplyModel;

    open spec fn view(&self) -> ReplyModel {
        match *self {
            Reply::Unsent(detail) => ReplyModel::Unsent(detail@),
            Reply::File { status, content } => ReplyModel::File { status: status@, content: content@ },
            Reply::Comment { status, created } => ReplyModel::Comment {
                status: status@,
                created: match created {
                    Ok(response) => Ok(response.id as int),
                    Err(detail) => Err(detail@),
                },
            },
            Reply::Task { status } => ReplyModel::Task { status: status@ },
        }
    }
}

/// The rules that a reply to the request for the file at `file_url` brings,
/// or the detail of why it brings none: no response, a status other than
/// 200, a body that could not be read, or one that holds no rules. A reply
/// to another kind of request brings none and has no detail.
pub open spec fn file_result(file_url: Seq<char>, reply: ReplyModel) -> Result<Seq<WorkflowModel>, Seq<char>> {
    match reply {
        ReplyModel::Unsent(detail) => Err(detail),
        ReplyModel::File { status, content } => if status.code != 200 {
            Err("Unexpected status code for reading file: "@ + status.text)
        } else {
            match content {
                FileContentModel::Unread(detail) => Err("Error reading file: "@ + file_url + " - "@ + detail),
                FileContentModel::Malformed(detail) => Err("Error reading TOML: "@ + detail),
                FileContentModel::Rules(rules) => Ok(rules),
            }
        },
        _ => Err(Seq::empty()),
    }
}

/// The number of the comment that a reply to a posted comment brings, or the
/// detail of why it brings none: no response, a status other than 201, or a
/// body that could not be decoded. A reply to another kind of request brings
/// none and has no detail.
pub open spec fn comment_result(reply: ReplyModel) -> Result<int, Seq<char>> {
    match reply {
        ReplyModel::Unsent(detail) => Err(detail),
        ReplyModel::Comment { status, created } => if status.code != 201 {
            Err("Unexpected status code for comment creation: "@ + status.text)
        } else {
            match created {
                Ok(id) => Ok(id),
                Err(detail) => Err("Error converting response to JSON: "@ + detail),
            }
        },
        _ => Err(Seq::empty()),
    }
}

/// Whether a reply to a posted task says that the task was created, or the
/// detail of why it does not: no response, or a status other than 201. A
/// reply to another kind of request does not and has no detail.
pub open spec fn task_result(reply: ReplyModel) -> Result<(), Seq<char>> {
    match reply {
        ReplyModel::Unsent(detail) => Err(detail),
        ReplyModel::Task { status } => if status.code != 201 {
            Err("Unexpected status code for task creation: "@ + status.text)
        } else {
            Ok(())
        },
        _ => Err(Seq::empty()),
    }
}

/// The rules that the response to a request for the file at `file_url`
/// brings, or the detail of why it brings none.
pub fn file_rules(status: &Status, content: FileContent, file_url: &str) -> (r: Result<WorkflowConfig, String>)
    ensures
        match file_result(file_url@, (ReplyModel::File { status: status@, content: content@ })) {
            Ok(rules) => r matches Ok(config) && config@ == rules,
            Err(detail) => r matches Err(text) && text@ == detail,
        },
{
    if status.code != 200 {
        return Err(String::from_str("Unexpected status code for reading file: ").concat(status.text.as_str()));
    }
    match content {
        FileContent::Unread(detail) => {
            let mut text: String = String::from_str("Error reading file: ");
            text.append(file_url);
            text.append(" - ");
            text.append(detail.as_str());
            Err(text)
        },
        FileContent::Malformed(detail) => Err(String::from_str("Error reading TOML: ").concat(detail.as_str())),
        FileContent::Rules(config) => Ok(config),
    }
}

/// The comment that the response to a posted comment brings, or the detail
/// of why it brings none.
pub fn created_comment(status: &Status, created: Result<PullRequestCommentResponse, String>) -> (r: Result<
    PullRequestCommentResponse,
    String,
>)
    ensures
        match comment_result((Reply::Comment { status: *status, created })@) {
            Ok(id) => r matches Ok(response) && response.id == id,
            Err(detail) => r matches Err(text) && text@ == detail,
        },
{
    if status.code != 201 {
        return Err(
            String::from_str("Unexpected status code for comment creation: ").concat(status.text.as_str()),
        );
    }
    match created {
        Ok(response) => Ok(response),
        Err(detail) => Err(String::from_str("Error converting response to JSON: ").concat(detail.as_str())),
    }
}

/// Whether the response to a posted task says that the task was created, or
/// the detail of why it does not.
pub fn created_task(status: &Status) -> (r: Result<(), String>)
    ensures
        match task_result((ReplyModel::Task { status: status@ })) {
            Ok(_) => r is Ok,
            Err(detail) => r matches Err(text) && text@ == detail,
        },
{
    if status.code != 201 {
        return Err(String::from_str("Unexpected status code for task creation: ").concat(status.text.as_str()));
    }
    Ok(())
}

} // verus!
