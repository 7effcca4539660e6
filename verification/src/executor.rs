//! The workflow of one opened pull request, as a machine that the caller
//! drives: it names the next request, the caller sends it and hands back the
//! reply, until the machine names the end.

use vstd::prelude::*;
use vstd::string::*;

use crate::bitbucket::types::{PullRequestCommentResponse, PullRequestOpenedEvent, Repository, RepositoryModel};
use crate::bitbucket::{comments_url, raw_file_url, rest_api_url, tasks_url, BitbucketClient, Call, CallModel};
use crate::config::{clone_texts, texts_of, Workflow, WorkflowConfig};
use crate::outcome::{end_model, Failure, FailureModel, Outcome};
use crate::reply::{comment_result, created_comment, created_task, file_result, file_rules, task_result, Reply, ReplyModel};
use crate::selector::{first_match, select_workflow};
use crate::text::{base_url, get_base_url, short_name};

verus! {

/// Where the workflow of a pull request stands.
pub enum Stage {
    /// The file of rules was asked for, from `file_url`.
    LoadingConfig { file_url: String },
    /// The rules could not be had, and a comment that says so was posted.
    ReportingFailure { failure: Failure },
    /// The comment of the rule was posted; `tasks` are the rule's tasks.
    Commenting { tasks: Vec<String> },
    /// The first `done` of `tasks` hang on the comment `comment_id`, and the
    /// next one was posted.
    AddingTasks { comment_id: i64, tasks: Vec<String>, done: usize },
    /// The end was named, and this is it. Where the rules could not be had
    /// and the comment that should have said so failed too, `unreported`
    /// keeps the first of the two failures, and `end` is the second.
    Finished { end: Result<Outcome, Failure>, unreported: Option<Failure> },
}

/// What a [`Stage`] says.
pub ghost enum StageModel {
    LoadingConfig { file_url: Seq<char> },
    ReportingFailure { failure: FailureModel },
    Commenting { tasks: Seq<Seq<char>> },
    AddingTasks { comment_id: int, tasks: Seq<Seq<char>>, done: int },
    Finished { end: Result<Outcome, FailureModel>, unreported: Option<FailureModel> },
}

impl View for Stage {
    type V = StageModel;

    open spec fn view(&self) -> StageModel {
        match *self {
            Stage::LoadingConfig { file_url } => StageModel::LoadingConfig { file_url: file_url@ },
            Stage::ReportingFailure { failure } => StageModel::ReportingFailure { failure: failure@ },
            Stage::Commenting { tasks } => StageModel::Commenting { tasks: texts_of(tasks@) },
            Stage::AddingTasks { comment_id, tasks, done } => StageModel::AddingTasks {
                comment_id: comment_id as int,
                tasks: texts_of(tasks@),
                done: done as int,
            },
            Stage::Finished { end, unreported } => StageModel::Finished {
                end: end_model(end),
                unreported: match unreported {
                    Some(failure) => Some(failure@),
                    None => None,
                },
            },
        }
    }
}

/// The workflow of one opened pull request: the way to the hosting service,
/// the pull request and its two branches, and the stage it is at.
pub struct Executor {
    pub client: BitbucketClient,
    pub repo: Repository,
    pub pull_request_id: i64,
    pub from_ref: String,
    pub to_ref: String,
    pub stage: Stage,
}

/// What an [`Executor`] says.
pub ghost struct ExecutorModel {
    pub bearer: Seq<char>,
    pub rest_api_base_url: Seq<char>,
    pub repo: RepositoryModel,
    pub pull_request_id: int,
    pub from_ref: Seq<char>,
    pub to_ref: Seq<char>,
    pub stage: StageModel,
}

impl View for Executor {
    type V = ExecutorModel;

    open spec fn view(&self) -> ExecutorModel {
        ExecutorModel {
            bearer: self.client.bearer@,
            rest_api_base_url: self.client.rest_api_base_url@,
            repo: self.repo@,
            pull_request_id: self.pull_request_id as int,
            from_ref: self.from_ref@,
            to_ref: self.to_ref@,
            stage: self.stage@,
        }
    }
}

/// What the caller does next.
pub enum Action {
    /// Send the request and hand the reply to [`Executor::step`].
    Send(Call),
    /// Stop: this is how the handling of the event ends.
    Finish(Result<Outcome, Failure>),
}

/// What an [`Action`] says.
pub ghost enum ActionModel {
    Send(CallModel),
    Finish(Result<Outcome, FailureModel>),
}

impl View for Action {
    type V = ActionModel;

    open spec fn view(&self) -> ActionModel {
        match *self {
            Action::Send(call) => ActionModel::Send(call@),
            Action::Finish(end) => ActionModel::Finish(end_model(end)),
        }
    }
}

/// The path of the file of rules in a repository.
pub open spec fn config_path() -> Seq<char> {
    "workflow-tasks.toml"@
}

/// The comment that tells of rules that could not be had.
pub open spec fn config_failure_comment(detail: Seq<char>) -> Seq<char> {
    "Error reading workflow-tasks.toml configuration file from default branch"@ + ": "@ + detail
}

impl ExecutorModel {
    /// The same workflow at another stage.
    pub open spec fn at(self, stage: StageModel) -> ExecutorModel {
        ExecutorModel { stage, ..self }
    }

    /// The request that posts a comment on the pull request.
    pub open spec fn comment_call(self, text: Seq<char>) -> CallModel {
        CallModel::PostComment { url: comments_url(self.rest_api_base_url, self.repo, self.pull_request_id), text }
    }

    /// The request that attaches a task to a comment of the pull request.
    pub open spec fn task_call(self, comment_id: int, text: Seq<char>) -> CallModel {
        CallModel::PostTask {
            url: tasks_url(self.rest_api_base_url, self.repo, self.pull_request_id),
            comment_id,
            text,
        }
    }

    /// The workflow at its end.
    pub open spec fn finished(self, end: Result<Outcome, FailureModel>) -> (ExecutorModel, ActionModel) {
        (self.at(StageModel::Finished { end, unreported: None }), ActionModel::Finish(end))
    }

    /// The stage after a reply, and what the caller does next.
    ///
    /// Rules that could not be had are told of in a comment, and then end
    /// the workflow as a failure; where that comment fails too, its failure
    /// is the end. Rules of which none names the merge end the workflow
    /// with nothing written. Else the comment of the first rule that names
    /// the merge is posted, and after it the rule's tasks, one by one in
    /// their order, each on the comment's number. The first request that
    /// fails is the end. After the end every reply gives the same end again.
    pub open spec fn step(self, reply: ReplyModel) -> (ExecutorModel, ActionModel) {
        match self.stage {
            StageModel::LoadingConfig { file_url } => match file_result(file_url, reply) {
                Err(detail) => (
                    self.at(StageModel::ReportingFailure { failure: FailureModel::Config(detail) }),
                    ActionModel::Send(self.comment_call(config_failure_comment(detail))),
                ),
                Ok(rules) => match first_match(rules, short_name(self.from_ref), short_name(self.to_ref)) {
                    None => self.finished(Ok(Outcome::NoWorkflow)),
                    Some(i) => (
                        self.at(StageModel::Commenting { tasks: rules[i].tasks }),
                        ActionModel::Send(self.comment_call(rules[i].comment)),
                    ),
                },
            },
            StageModel::ReportingFailure { failure } => match comment_result(reply) {
                Ok(_) => self.finished(Err(failure)),
                Err(detail) => (
                    self.at(
                        StageModel::Finished { end: Err(FailureModel::Remote(detail)), unreported: Some(failure) },
                    ),
                    ActionModel::Finish(Err(FailureModel::Remote(detail))),
                ),
            },
            StageModel::Commenting { tasks } => match comment_result(reply) {
                Err(detail) => self.finished(Err(FailureModel::Remote(detail))),
                Ok(comment_id) => self.add_tasks(comment_id, tasks, 0),
            },
            StageModel::AddingTasks { comment_id, tasks, done } => match task_result(reply) {
                Err(detail) => self.finished(Err(FailureModel::Remote(detail))),
                Ok(_) => self.add_tasks(comment_id, tasks, done + 1),
            },
            StageModel::Finished { end, .. } => (self, ActionModel::Finish(end)),
        }
    }

    /// What follows once the first `done` of `tasks` hang on the comment: the
    /// next task is posted, or there is none left and the workflow has
    /// succeeded.
    pub open spec fn add_tasks(self, comment_id: int, tasks: Seq<Seq<char>>, done: int) -> (
        ExecutorModel,
        ActionModel,
    ) {
        if 0 <= done < tasks.len() {
            (
                self.at(StageModel::AddingTasks { comment_id, tasks, done }),
                ActionModel::Send(self.task_call(comment_id, tasks[done])),
            )
        } else {
            self.finished(Ok(Outcome::Success))
        }
    }
}

/// What an opened pull request says: its number, the references of its two
/// branches, the repository that it is to be merged in, which is `repo`, the
/// repository that it comes from, and its own links.
pub ghost struct PullRequestModel {
    pub id: int,
    pub from_ref: Seq<char>,
    pub to_ref: Seq<char>,
    pub repo: RepositoryModel,
    pub from_repo: RepositoryModel,
    pub self_links: Seq<Seq<char>>,
}

impl View for PullRequestOpenedEvent {
    type V = PullRequestModel;

    open spec fn view(&self) -> PullRequestModel {
        PullRequestModel {
            id: self.pull_request.id as int,
            from_ref: self.pull_request.from_ref.id@,
            to_ref: self.pull_request.to_ref.id@,
            repo: self.pull_request.to_ref.repository@,
            from_repo: self.pull_request.from_ref.repository@,
            self_links: Seq::new(
                self.pull_request.links.self_link@.len(),
                |i: int| self.pull_request.links.self_link@[i].href@,
            ),
        }
    }
}

impl PullRequestModel {
    /// The pull request's own address: the first of its links, or the empty
    /// text where it has none.
    pub open spec fn href(self) -> Seq<char> {
        if self.self_links.len() > 0 {
            self.self_links[0]
        } else {
            Seq::empty()
        }
    }

    /// How the workflow of the pull request starts: with the request for the
    /// file of rules, which is sent to the service that the pull request's
    /// own address names. Where that address names none, the workflow ends as
    /// a failure before any request.
    pub open spec fn start(self, bearer: Seq<char>) -> Result<(ExecutorModel, CallModel), FailureModel> {
        match base_url(self.href()) {
            None => Err(FailureModel::Addressing("Error reading URL: "@ + self.href())),
            Some(base) => {
                let file_url = raw_file_url(rest_api_url(base), self.repo, config_path());
                Ok(
                    (
                        ExecutorModel {
                            bearer,
                            rest_api_base_url: rest_api_url(base),
                            repo: self.repo,
                            pull_request_id: self.id,
                            from_ref: self.from_ref,
                            to_ref: self.to_ref,
                            stage: StageModel::LoadingConfig { file_url },
                        },
                        CallModel::GetRawFile { url: file_url },
                    ),
                )
            },
        }
    }
}

/// The request for the file of rules of a repository.
pub fn load_config_file(client: &BitbucketClient, repo: &Repository) -> (r: Call)
    ensures
        r@ == (CallModel::GetRawFile { url: raw_file_url(client.rest_api_base_url@, repo@, config_path()) }),
{
    client.get_raw_file(repo, "workflow-tasks.toml")
}

/// The request that tells of a failure in a comment on the pull request:
/// `msg`, a colon and the failure's detail.
pub fn comment_error(
    client: &BitbucketClient,
    repo: &Repository,
    pull_request_id: i64,
    msg: &str,
    e: &Failure,
) -> (r: Call)
    ensures
        r@ == (CallModel::PostComment {
            url: comments_url(client.rest_api_base_url@, repo@, pull_request_id as int),
            text: msg@ + ": "@ + e@.detail(),
        }),
{
    let mut text: String = String::from_str(msg);
    text.append(": ");
    text.append(e.message());
    client.comment_pull_request(repo, pull_request_id, text)
}

/// The start of a rule's work: the request that posts the rule's comment,
/// and the stage that waits for its reply.
pub fn handle_workflow(
    client: &BitbucketClient,
    repo: &Repository,
    pull_request_id: i64,
    workflow: &Workflow,
) -> (r: (Stage, Call))
    ensures
        r.0@ == (StageModel::Commenting { tasks: workflow@.tasks }),
        r.1@ == (CallModel::PostComment {
            url: comments_url(client.rest_api_base_url@, repo@, pull_request_id as int),
            text: workflow@.comment,
        }),
{
    let call: Call = client.comment_pull_request(repo, pull_request_id, workflow.comment.clone());
    (Stage::Commenting { tasks: clone_texts(&workflow.tasks) }, call)
}

/// What follows once the first `done` of `tasks` hang on the comment
/// `comment_id`: the request that posts the next task, or the good end where
/// none is left.
pub fn add_tasks(
    client: &BitbucketClient,
    repo: &Repository,
    pull_request_id: i64,
    comment_id: i64,
    tasks: Vec<String>,
    done: usize,
) -> (r: (Stage, Action))
    ensures
        done < tasks@.len() ==> r.0@ == (StageModel::AddingTasks {
            comment_id: comment_id as int,
            tasks: texts_of(tasks@),
            done: done as int,
        }) && r.1@ == ActionModel::Send(
            CallModel::PostTask {
                url: tasks_url(client.rest_api_base_url@, repo@, pull_request_id as int),
                comment_id: comment_id as int,
                text: tasks@[done as int]@,
            },
        ),
        done >= tasks@.len() ==> r.0@ == (StageModel::Finished { end: Ok(Outcome::Success), unreported: None })
            && r.1@ == ActionModel::Finish(Ok(Outcome::Success)),
{
    if done < tasks.len() {
        let call: Call = client.add_task_to_comment(repo, pull_request_id, comment_id, tasks[done].clone());
        (Stage::AddingTasks { comment_id, tasks, done }, Action::Send(call))
    } else {
        (Stage::Finished { end: Ok(Outcome::Success), unreported: None }, Action::Finish(Ok(Outcome::Success)))
    }
}

/// The start of the workflow of an opened pull request: the request for the
/// file of rules of the repository that the pull request is to be merged in.
/// The service is the one that the pull request's own address names; without
/// such an address the workflow fails before any request.
pub fn handle_pr_opened_event(event: PullRequestOpenedEvent, bearer: &str) -> (r: Result<(Executor, Call), Failure>)
    ensures
        match event@.start(bearer@) {
            Ok((executor, call)) => r matches Ok(started) && started.0@ == executor && started.1@ == call,
            Err(failure) => r matches Err(e) && e@ == failure,
        },
{
    let pr = event.pull_request;
    let ghost model = event@;
    let href: &str = if pr.links.self_link.len() > 0 {
        assert(model.href() == pr.links.self_link@[0].href@);
        pr.links.self_link[0].href.as_str()
    } else {
        let empty: &str = "";
        proof {
            reveal_strlit("");
            assert(empty@ =~= Seq::<char>::empty());
        }
        empty
    };
    match get_base_url(href) {
        None => Err(Failure::Addressing(String::from_str("Error reading URL: ").concat(href))),
        Some(base) => {
            let client: BitbucketClient = BitbucketClient::new(String::from_str(base), String::from_str(bearer));
            let repo: Repository = pr.to_ref.repository;
            let call: Call = load_config_file(&client, &repo);
            let file_url: String = match &call {
                Call::GetRawFile { url } => url.clone(),
                _ => String::new(),
            };
            Ok(
                (
                    Executor {
                        client,
                        repo,
                        pull_request_id: pr.id,
                        from_ref: pr.from_ref.id,
                        to_ref: pr.to_ref.id,
                        stage: Stage::LoadingConfig { file_url },
                    },
                    call,
                ),
            )
        },
    }
}

impl Executor {
    fn finished(self, end: Result<Outcome, Failure>) -> (r: (Executor, Action))
        ensures
            r.0@ == self@.finished(end_model(end)).0,
            r.1@ == self@.finished(end_model(end)).1,
    {
        let kept: Result<Outcome, Failure> = match &end {
            Ok(outcome) => Ok(*outcome),
            Err(failure) => Err(failure.clone()),
        };
        (
            Executor {
                client: self.client,
                repo: self.repo,
                pull_request_id: self.pull_request_id,
                from_ref: self.from_ref,
                to_ref: self.to_ref,
                stage: Stage::Finished { end: kept, unreported: None },
            },
            Action::Finish(end),
        )
    }

    /// Takes the reply to the request that was named last, and names what the
    /// caller does next.
    pub fn step(self, reply: Reply) -> (r: (Executor, Action))
        ensures
            r.0@ == self@.step(reply@).0,
            r.1@ == self@.step(reply@).1,
    {
        let Executor { client, repo, pull_request_id, from_ref, to_ref, stage } = self;
        match stage {
            Stage::LoadingConfig { file_url } => {
                let loaded: Result<WorkflowConfig, String> = match reply {
                    Reply::Unsent(detail) => Err(detail),
                    Reply::File { status, content } => file_rules(&status, content, file_url.as_str()),
                    _ => Err(String::new()),
                };
                match loaded {
                    Err(detail) => {
                        let failure: Failure = Failure::Config(detail);
                        let call: Call = comment_error(
                            &client,
                            &repo,
                            pull_request_id,
                            "Error reading workflow-tasks.toml configuration file from default branch",
                            &failure,
                        );
                        (
                            Executor {
                                client,
                                repo,
                                pull_request_id,
                                from_ref,
                                to_ref,
                                stage: Stage::ReportingFailure { failure },
                            },
                            Action::Send(call),
                        )
                    },
                    Ok(config) => {
                        match select_workflow(&config, from_ref.as_str(), to_ref.as_str()) {
                            None => {
                                let at: Executor = Executor {
                                    client,
                                    repo,
                                    pull_request_id,
                                    from_ref,
                                    to_ref,
                                    stage: Stage::LoadingConfig { file_url },
                                };
                                at.finished(Ok(Outcome::NoWorkflow))
                            },
                            Some(workflow) => {
                                let (stage, call) = handle_workflow(&client, &repo, pull_request_id, workflow);
                                (
                                    Executor { client, repo, pull_request_id, from_ref, to_ref, stage },
                                    Action::Send(call),
                                )
                            },
                        }
                    },
                }
            },
            Stage::ReportingFailure { failure } => {
                let posted: Result<PullRequestCommentResponse, String> = match reply {
                    Reply::Unsent(detail) => Err(detail),
                    Reply::Comment { status, created } => created_comment(&status, created),
                    _ => Err(String::new()),
                };
                match posted {
                    Ok(_) => {
                        let kept: Failure = failure.clone();
                        (
                            Executor {
                                client,
                                repo,
                                pull_request_id,
                                from_ref,
                                to_ref,
                                stage: Stage::Finished { end: Err(kept), unreported: None },
                            },
                            Action::Finish(Err(failure)),
                        )
                    },
                    Err(detail) => {
                        let kept: String = detail.clone();
                        (
                            Executor {
                                client,
                                repo,
                                pull_request_id,
                                from_ref,
                                to_ref,
                                stage: Stage::Finished { end: Err(Failure::Remote(kept)), unreported: Some(failure) },
                            },
                            Action::Finish(Err(Failure::Remote(detail))),
                        )
                    },
                }
            },
            Stage::Commenting { tasks } => {
                let posted: Result<PullRequestCommentResponse, String> = match reply {
                    Reply::Unsent(detail) => Err(detail),
                    Reply::Comment { status, created } => created_comment(&status, created),
                    _ => Err(String::new()),
                };
                match posted {
                    Err(detail) => {
                        let at: Executor = Executor {
                            client,
                            repo,
                            pull_request_id,
                            from_ref,
                            to_ref,
                            stage: Stage::Commenting { tasks },
                        };
                        at.finished(Err(Failure::Remote(detail)))
                    },
                    Ok(comment) => {
                        let (stage, action) = add_tasks(&client, &repo, pull_request_id, comment.id, tasks, 0);
                        (Executor { client, repo, pull_request_id, from_ref, to_ref, stage }, action)
                    },
                }
            },
            Stage::AddingTasks { comment_id, tasks, done } => {
                let created: Result<(), String> = match reply {
                    Reply::Unsent(detail) => Err(detail),
                    Reply::Task { status } => created_task(&status),
                    _ => Err(String::new()),
                };
                match created {
                    Err(detail) => {
                        let at: Executor = Executor {
                            client,
                            repo,
                            pull_request_id,
                            from_ref,
                            to_ref,
                            stage: Stage::AddingTasks { comment_id, tasks, done },
                        };
                        at.finished(Err(Failure::Remote(detail)))
                    },
                    Ok(_) => {
                        let next: usize = if done < tasks.len() {
                            done + 1
                        } else {
                            done
                        };
                        let (stage, action) = add_tasks(&client, &repo, pull_request_id, comment_id, tasks, next);
                        (Executor { client, repo, pull_request_id, from_ref, to_ref, stage }, action)
                    },
                }
            },
            Stage::Finished { end, unreported } => {
                let again: Result<Outcome, Failure> = match &end {
                    Ok(outcome) => Ok(*outcome),
                    Err(failure) => Err(failure.clone()),
                };
                (
                    Executor {
                        client,
                        repo,
                        pull_request_id,
                        from_ref,
                        to_ref,
                        stage: Stage::Finished { end, unreported },
                    },
                    Action::Finish(again),
                )
            },
        }
    }
}

} // verus!
