//! What the hosting service sends and takes. Only the fields that the bot
//! reads or writes are kept.

use vstd::prelude::*;

verus! {

/// The event that a pull request was opened.
pub struct PullRequestOpenedEvent {
    pub pull_request: PullRequest,
}

/// A pull request: its number, the two branches and its links.
pub struct PullRequest {
    pub id: i64,
    pub to_ref: Ref,
    pub from_ref: Ref,
    pub links: Links,
}

/// The links of a pull request. The first of `self_link` is its own address.
pub struct Links {
    pub self_link: Vec<Link>,
}

/// A link.
pub struct Link {
    pub href: String,
}

/// A branch: its reference and the repository it lives in.
pub struct Ref {
    pub id: String,
    pub repository: Repository,
}

/// A repository, named by its slug inside a project.
pub struct Repository {
    pub slug: String,
    pub project: Project,
}

/// A project, named by its key.
pub struct Project {
    pub key: String,
}

/// A comment to be posted on a pull request.
pub struct Comment {
    pub text: String,
}

/// The service's answer to a posted comment: the number it gave it.
pub struct PullRequestCommentResponse {
    pub id: i64,
}

/// A task to be attached to a comment.
pub struct Task {
    pub parent: Anchor,
    pub text: String,
}

/// The comment that a task hangs on.
pub struct Anchor {
    pub id: i64,
}

/// What a [`Repository`] says: the project's key and the slug.
pub ghost struct RepositoryModel {
    pub key: Seq<char>,
    pub slug: Seq<char>,
}

impl View for Repository {
    type V = RepositoryModel;

    open spec fn view(&self) -> RepositoryModel {
        RepositoryModel { key: self.project.key@, slug: self.slug@ }
    }
}

impl Clone for Project {
    fn clone(&self) -> (r: Project)
        ensures
            r == *self,
    {
        Project { key: self.key.clone() }
    }
}

impl Clone for Repository {
    fn clone(&self) -> (r: Repository)
        ensures
            r == *self,
    {
        Repository { slug: self.slug.clone(), project: self.project.clone() }
    }
}

} // verus!
