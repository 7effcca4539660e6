//! A bot for pull requests: when one is opened, the repository's workflow
//! rules decide whether a comment and a list of tasks are added to it.
//!
//! The crate holds the decisions. Sending requests, decoding documents and
//! serving the hook are left to the program that drives it.

pub mod bitbucket;
pub mod config;
pub mod executor;
pub mod outcome;
pub mod payload;
pub mod reply;
pub mod runs;
pub mod selector;
pub mod text;

pub use bitbucket::types::{
    Anchor, Comment, Link, Links, Project, PullRequest, PullRequestCommentResponse, PullRequestOpenedEvent, Ref,
    Repository, Task,
};
pub use bitbucket::{BitbucketClient, Call, CallModel};
pub use config::{Merge, MergeModel, Workflow, WorkflowConfig, WorkflowModel};
pub use executor::{handle_pr_opened_event, Action, Executor, Stage};
pub use outcome::{Failure, FailureModel, Outcome};
pub use payload::{classify, dispatch, handle_bitbucket_event, Dispatch, PayloadKind, QueryParams};
pub use reply::{FileContent, Reply, Status};
pub use selector::{braces_nest_within, merge_matches, select_workflow, wildcard_matches};
pub use text::{decimal_string, get_base_url, short_branch_name};
