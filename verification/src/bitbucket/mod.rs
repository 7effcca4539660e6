//! The requests that the bot makes of the hosting service, and the addresses
//! they go to.

pub mod types;

use vstd::prelude::*;
use vstd::string::*;

use crate::bitbucket::types::{Anchor, Comment, Repository, RepositoryModel, Task};
use crate::text::{decimal, decimal_string};

verus! {

/// A request to the hosting service. The caller sends it, with the client's
/// bearer token, and hands back what came of it.
pub enum Call {
    /// Read a file of the repository's default branch: a GET of `url`.
    GetRawFile { url: String },
    /// Post a comment on the pull request: a POST of `comment` to `url`.
    PostComment { url: String, comment: Comment },
    /// Attach a task to a comment: a POST of `task` to `url`.
    PostTask { url: String, task: Task },
}

/// What a [`Call`] says.
pub ghost enum CallModel {
    GetRawFile { url: Seq<char> },
    PostComment { url: Seq<char>, text: Seq<char> },
    PostTask { url: Seq<char>, comment_id: int, text: Seq<char> },
}

impl View for Call {
    type V = CallModel;

    open spec fn view(&self) -> CallModel {
        match *self {
            Call::GetRawFile { url } => CallModel::GetRawFile { url: url@ },
            Call::PostComment { url, comment } => CallModel::PostComment { url: url@, text: comment.text@ },
            Call::PostTask { url, task } => CallModel::PostTask {
                url: url@,
                comment_id: task.parent.id as int,
                text: task.text@,
            },
        }
    }
}

/// The address of the service's REST interface, given the service's base.
pub open spec fn rest_api_url(base_url: Seq<char>) -> Seq<char> {
    base_url + "rest/api/1.0/"@
}

/// The address of a repository under the REST interface.
pub open spec fn repo_url(rest_api_base_url: Seq<char>, repo: RepositoryModel) -> Seq<char> {
    rest_api_base_url + "projects/"@ + repo.key + "/repos/"@ + repo.slug + "/"@
}

/// The address that comments on a pull request are posted to.
pub open spec fn comments_url(rest_api_base_url: Seq<char>, repo: RepositoryModel, pull_request_id: int) -> Seq<
    char,
> {
    repo_url(rest_api_base_url, repo) + "pull-requests/"@ + decimal(pull_request_id) + "/comments"@
}

/// The address that a file of the default branch is read from.
pub open spec fn raw_file_url(rest_api_base_url: Seq<char>, repo: RepositoryModel, file_path: Seq<char>) -> Seq<
    char,
> {
    repo_url(rest_api_base_url, repo) + "raw/"@ + file_path
}

/// The address that tasks of a pull request are posted to.
pub open spec fn tasks_url(rest_api_base_url: Seq<char>, repo: RepositoryModel, pull_request_id: int) -> Seq<
    char,
> {
    repo_url(rest_api_base_url, repo) + "pull-requests/"@ + decimal(pull_request_id) + "/blocker-comments"@
}

/// The way to one hosting service: the address of its REST interface and the
/// bearer token that every request carries.
pub struct BitbucketClient {
    pub bearer: String,
    pub rest_api_base_url: String,
}

impl BitbucketClient {
    /// A client for the service at `base_url`, which ends in `/`.
    pub fn new(base_url: String, bearer: String) -> (r: BitbucketClient)
        ensures
            r.rest_api_base_url@ == rest_api_url(base_url@),
            r.bearer@ == bearer@,
    {
        BitbucketClient { bearer, rest_api_base_url: base_url.concat("rest/api/1.0/") }
    }

    fn get_repo_base_url(&self, repo: &Repository) -> (r: String)
        ensures
            r@ == repo_url(self.rest_api_base_url@, repo@),
    {
        let mut url: String = self.rest_api_base_url.clone();
        url.append("projects/");
        url.append(repo.project.key.as_str());
        url.append("/repos/");
        url.append(repo.slug.as_str());
        url.append("/");
        url
    }

    /// The request that posts `comment_text` as a comment on a pull request.
    pub fn comment_pull_request(&self, repo: &Repository, pull_request_id: i64, comment_text: String) -> (r: Call)
        ensures
            r@ == (CallModel::PostComment {
                url: comments_url(self.rest_api_base_url@, repo@, pull_request_id as int),
                text: comment_text@,
            }),
    {
        let mut url: String = self.get_repo_base_url(repo);
        url.append("pull-requests/");
        url.append(decimal_string(pull_request_id).as_str());
        url.append("/comments");
        Call::PostComment { url, comment: Comment { text: comment_text } }
    }

    /// The request that reads the file at `file_path` from the default branch.
    pub fn get_raw_file(&self, repo: &Repository, file_path: &str) -> (r: Call)
        ensures
            r@ == (CallModel::GetRawFile { url: raw_file_url(self.rest_api_base_url@, repo@, file_path@) }),
    {
        let mut url: String = self.get_repo_base_url(repo);
        url.append("raw/");
        url.append(file_path);
        Call::GetRawFile { url }
    }

    /// The request that attaches `task_text` as a task to the comment
    /// `comment_id` of a pull request.
    pub fn add_task_to_comment(
        &self,
        repo: &Repository,
        pull_request_id: i64,
        comment_id: i64,
        task_text: String,
    ) -> (r: Call)
        ensures
            r@ == (CallModel::PostTask {
                url: tasks_url(self.rest_api_base_url@, repo@, pull_request_id as int),
                comment_id: comment_id as int,
                text: task_text@,
            }),
    {
        let mut url: String = self.get_repo_base_url(repo);
        url.append("pull-requests/");
        url.append(decimal_string(pull_request_id).as_str());
        url.append("/blocker-comments");
        Call::PostTask { url, task: Task { parent: Anchor { id: comment_id }, text: task_text } }
    }
}

} // verus!
