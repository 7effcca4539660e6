use bitbucket_task_bot::bitbucket::types::{
    Link, Links, Project, PullRequest, PullRequestCommentResponse, PullRequestOpenedEvent, Ref, Repository,
};
use bitbucket_task_bot::executor::{
    add_tasks, comment_error, handle_pr_opened_event, handle_workflow, load_config_file, Action, Executor, Stage,
};
use bitbucket_task_bot::reply::{created_comment, created_task, file_rules, FileContent, Reply, Status};
use bitbucket_task_bot::{BitbucketClient, Call, Failure, Merge, Outcome, Workflow, WorkflowConfig};

const REPO_URL: &str = "https://bitbucket.example.com/rest/api/1.0/projects/PRJ/repos/app/";

fn repository(slug: &str) -> Repository {
    Repository { slug: slug.to_string(), project: Project { key: "PRJ".to_string() } }
}

fn event_with_links(links: Vec<&str>) -> PullRequestOpenedEvent {
    PullRequestOpenedEvent {
        pull_request: PullRequest {
            id: 7,
            to_ref: Ref { id: "refs/heads/main".to_string(), repository: repository("app") },
            from_ref: Ref { id: "refs/heads/feature/x".to_string(), repository: repository("fork") },
            links: Links { self_link: links.into_iter().map(|href| Link { href: href.to_string() }).collect() },
        },
    }
}

fn event() -> PullRequestOpenedEvent {
    event_with_links(vec!["https://bitbucket.example.com/projects/PRJ/repos/app/pull-requests/7"])
}

fn status(code: u16, text: &str) -> Status {
    Status { code, text: text.to_string() }
}

fn rules() -> WorkflowConfig {
    WorkflowConfig {
        workflow: vec![
            Workflow {
                merge: vec![Merge { from: "hotfix/*".to_string(), to: "main".to_string() }],
                comment: "hotfix".to_string(),
                tasks: vec!["never".to_string()],
            },
            Workflow {
                merge: vec![Merge { from: "feature/*".to_string(), to: "main".to_string() }],
                comment: "Please check:".to_string(),
                tasks: vec!["first".to_string(), "second".to_string(), "third".to_string()],
            },
        ],
    }
}

fn rules_reply(config: WorkflowConfig) -> Reply {
    Reply::File { status: status(200, "200 OK"), content: FileContent::Rules(config) }
}

fn comment_created(id: i64) -> Reply {
    Reply::Comment { status: status(201, "201 Created"), created: Ok(PullRequestCommentResponse { id }) }
}

fn task_created() -> Reply {
    Reply::Task { status: status(201, "201 Created") }
}

fn started() -> Executor {
    handle_pr_opened_event(event(), "token").ok().unwrap().0
}

fn sent(action: Action) -> Call {
    match action {
        Action::Send(call) => call,
        Action::Finish(_) => panic!("the workflow ended"),
    }
}

fn ended(action: Action) -> Result<Outcome, Failure> {
    match action {
        Action::Finish(end) => end,
        Action::Send(_) => panic!("the workflow goes on"),
    }
}

fn comment_text(call: Call) -> String {
    match call {
        Call::PostComment { url, comment } => {
            assert_eq!(url, format!("{}pull-requests/7/comments", REPO_URL));
            comment.text
        },
        _ => panic!("not a comment"),
    }
}

fn task_of(call: Call) -> (i64, String) {
    match call {
        Call::PostTask { url, task } => {
            assert_eq!(url, format!("{}pull-requests/7/blocker-comments", REPO_URL));
            (task.parent.id, task.text)
        },
        _ => panic!("not a task"),
    }
}

#[test]
fn workflow_starts_with_the_request_for_the_rules() {
    let (executor, call) = handle_pr_opened_event(event(), "token").ok().unwrap();
    match call {
        Call::GetRawFile { url } => assert_eq!(url, format!("{}raw/workflow-tasks.toml", REPO_URL)),
        _ => panic!("not a file request"),
    }
    assert_eq!(executor.client.bearer, "token");
    assert_eq!(executor.client.rest_api_base_url, "https://bitbucket.example.com/rest/api/1.0/");
    assert_eq!(executor.repo.slug, "app");
    assert_eq!(executor.repo.project.key, "PRJ");
    assert_eq!(executor.pull_request_id, 7);
    assert_eq!(executor.from_ref, "refs/heads/feature/x");
    assert_eq!(executor.to_ref, "refs/heads/main");
    match executor.stage {
        Stage::LoadingConfig { file_url } => assert_eq!(file_url, format!("{}raw/workflow-tasks.toml", REPO_URL)),
        _ => panic!("another stage"),
    }
}

#[test]
fn workflow_fails_without_a_usable_address() {
    match handle_pr_opened_event(event_with_links(vec!["bitbucket.example.com/x"]), "token") {
        Err(Failure::Addressing(detail)) => assert_eq!(detail, "Error reading URL: bitbucket.example.com/x"),
        _ => panic!("no addressing failure"),
    }
    match handle_pr_opened_event(event_with_links(vec![]), "token") {
        Err(Failure::Addressing(detail)) => assert_eq!(detail, "Error reading URL: "),
        _ => panic!("no addressing failure"),
    }
}

#[test]
fn only_the_first_link_is_read() {
    let event = event_with_links(vec!["nothing", "https://bitbucket.example.com/x"]);
    assert!(handle_pr_opened_event(event, "token").is_err());
    let event = event_with_links(vec!["http://one/x", "https://two/x"]);
    let (executor, _) = handle_pr_opened_event(event, "token").ok().unwrap();
    assert_eq!(executor.client.rest_api_base_url, "http://one/rest/api/1.0/");
}

#[test]
fn matching_rule_posts_its_comment_and_then_its_tasks_in_order() {
    let (executor, action) = started().step(rules_reply(rules()));
    assert_eq!(comment_text(sent(action)), "Please check:");
    let (executor, action) = executor.step(comment_created(55));
    assert_eq!(task_of(sent(action)), (55, "first".to_string()));
    let (executor, action) = executor.step(task_created());
    assert_eq!(task_of(sent(action)), (55, "second".to_string()));
    let (executor, action) = executor.step(task_created());
    assert_eq!(task_of(sent(action)), (55, "third".to_string()));
    let (executor, action) = executor.step(task_created());
    assert_eq!(ended(action).ok(), Some(Outcome::Success));
    match executor.stage {
        Stage::Finished { end: Ok(Outcome::Success), unreported: None } => {},
        _ => panic!("another stage"),
    }
}

#[test]
fn rule_without_tasks_ends_after_its_comment() {
    let config = WorkflowConfig {
        workflow: vec![Workflow {
            merge: vec![Merge { from: "*".to_string(), to: "*".to_string() }],
            comment: "only a comment".to_string(),
            tasks: vec![],
        }],
    };
    let (executor, action) = started().step(rules_reply(config));
    assert_eq!(comment_text(sent(action)), "only a comment");
    let (_, action) = executor.step(comment_created(1));
    assert_eq!(ended(action).ok(), Some(Outcome::Success));
}

#[test]
fn no_matching_rule_ends_with_nothing_written() {
    let config = WorkflowConfig {
        workflow: vec![Workflow {
            merge: vec![Merge { from: "hotfix/*".to_string(), to: "main".to_string() }],
            comment: "hotfix".to_string(),
            tasks: vec!["never".to_string()],
        }],
    };
    let (executor, action) = started().step(rules_reply(config));
    assert_eq!(ended(action).ok(), Some(Outcome::NoWorkflow));
    match executor.stage {
        Stage::Finished { end: Ok(Outcome::NoWorkflow), unreported: None } => {},
        _ => panic!("another stage"),
    }
}

#[test]
fn failed_task_ends_the_workflow_before_the_tasks_after_it() {
    let (executor, _) = started().step(rules_reply(rules()));
    let (executor, _) = executor.step(comment_created(55));
    let (executor, action) = executor.step(task_created());
    assert_eq!(task_of(sent(action)), (55, "second".to_string()));
    let (executor, action) = executor.step(Reply::Task { status: status(409, "409 Conflict") });
    match ended(action) {
        Err(Failure::Remote(detail)) => assert_eq!(detail, "Unexpected status code for task creation: 409 Conflict"),
        _ => panic!("no remote failure"),
    }
    let (_, again) = executor.step(task_created());
    match ended(again) {
        Err(Failure::Remote(detail)) => assert_eq!(detail, "Unexpected status code for task creation: 409 Conflict"),
        _ => panic!("no remote failure"),
    }
}

#[test]
fn unsent_task_ends_the_workflow() {
    let (executor, _) = started().step(rules_reply(rules()));
    let (executor, _) = executor.step(comment_created(55));
    let (_, action) = executor.step(Reply::Unsent("connection reset".to_string()));
    match ended(action) {
        Err(Failure::Remote(detail)) => assert_eq!(detail, "connection reset"),
        _ => panic!("no remote failure"),
    }
}

#[test]
fn failed_comment_ends_the_workflow_before_any_task() {
    let (executor, _) = started().step(rules_reply(rules()));
    let (_, action) = executor.step(Reply::Comment {
        status: status(403, "403 Forbidden"),
        created: Ok(PullRequestCommentResponse { id: 1 }),
    });
    match ended(action) {
        Err(Failure::Remote(detail)) => {
            assert_eq!(detail, "Unexpected status code for comment creation: 403 Forbidden")
        },
        _ => panic!("no remote failure"),
    }
    let (executor, _) = started().step(rules_reply(rules()));
    let (_, action) =
        executor.step(Reply::Comment { status: status(201, "201 Created"), created: Err("EOF".to_string()) });
    match ended(action) {
        Err(Failure::Remote(detail)) => assert_eq!(detail, "Error converting response to JSON: EOF"),
        _ => panic!("no remote failure"),
    }
}

#[test]
fn missing_rules_are_told_in_one_comment_and_fail_the_workflow() {
    let reply = Reply::File { status: status(404, "404 Not Found"), content: FileContent::Unread(String::new()) };
    let (executor, action) = started().step(reply);
    assert_eq!(
        comment_text(sent(action)),
        "Error reading workflow-tasks.toml configuration file from default branch: Unexpected status code for reading file: 404 Not Found"
    );
    match &executor.stage {
        Stage::ReportingFailure { failure: Failure::Config(detail) } => {
            assert_eq!(detail, "Unexpected status code for reading file: 404 Not Found")
        },
        _ => panic!("another stage"),
    }
    let (_, action) = executor.step(comment_created(9));
    match ended(action) {
        Err(Failure::Config(detail)) => assert_eq!(detail, "Unexpected status code for reading file: 404 Not Found"),
        _ => panic!("no config failure"),
    }
}

#[test]
fn malformed_rules_are_told_in_one_comment_and_fail_the_workflow() {
    let reply =
        Reply::File { status: status(200, "200 OK"), content: FileContent::Malformed("missing field".to_string()) };
    let (executor, action) = started().step(reply);
    assert_eq!(
        comment_text(sent(action)),
        "Error reading workflow-tasks.toml configuration file from default branch: Error reading TOML: missing field"
    );
    let (_, action) = executor.step(comment_created(9));
    match ended(action) {
        Err(Failure::Config(detail)) => assert_eq!(detail, "Error reading TOML: missing field"),
        _ => panic!("no config failure"),
    }
}

#[test]
fn unread_and_unsent_rules_fail_the_workflow() {
    let reply = Reply::File { status: status(200, "200 OK"), content: FileContent::Unread("overflow".to_string()) };
    let (_, action) = started().step(reply);
    assert_eq!(
        comment_text(sent(action)),
        format!(
            "Error reading workflow-tasks.toml configuration file from default branch: Error reading file: {}raw/workflow-tasks.toml - overflow",
            REPO_URL
        )
    );
    let (_, action) = started().step(Reply::Unsent("timeout".to_string()));
    assert_eq!(
        comment_text(sent(action)),
        "Error reading workflow-tasks.toml configuration file from default branch: timeout"
    );
}

#[test]
fn failure_of_the_telling_comment_is_the_end_and_the_first_failure_is_kept() {
    let reply = Reply::File { status: status(500, "500 Internal Server Error"), content: FileContent::Unread(String::new()) };
    let (executor, _) = started().step(reply);
    let (executor, action) = executor.step(Reply::Comment {
        status: status(401, "401 Unauthorized"),
        created: Err(String::new()),
    });
    match ended(action) {
        Err(Failure::Remote(detail)) => {
            assert_eq!(detail, "Unexpected status code for comment creation: 401 Unauthorized")
        },
        _ => panic!("no remote failure"),
    }
    match executor.stage {
        Stage::Finished { end: Err(Failure::Remote(_)), unreported: Some(Failure::Config(detail)) } => {
            assert_eq!(detail, "Unexpected status code for reading file: 500 Internal Server Error")
        },
        _ => panic!("another stage"),
    }
}

#[test]
fn reply_of_another_kind_counts_as_a_failure_without_detail() {
    let (executor, action) = started().step(task_created());
    assert_eq!(
        comment_text(sent(action)),
        "Error reading workflow-tasks.toml configuration file from default branch: "
    );
    let (_, action) = executor.step(task_created());
    match ended(action) {
        Err(Failure::Remote(detail)) => assert_eq!(detail, ""),
        _ => panic!("no remote failure"),
    }
}

#[test]
fn reply_readers_check_the_status_first() {
    assert!(file_rules(&status(200, "200 OK"), FileContent::Rules(rules()), "u").is_ok());
    assert_eq!(
        file_rules(&status(201, "201 Created"), FileContent::Rules(rules()), "u").err(),
        Some("Unexpected status code for reading file: 201 Created".to_string())
    );
    assert_eq!(created_comment(&status(201, "x"), Ok(PullRequestCommentResponse { id: 3 })).ok().map(|c| c.id), Some(3));
    assert_eq!(
        created_comment(&status(200, "200 OK"), Ok(PullRequestCommentResponse { id: 3 })).err(),
        Some("Unexpected status code for comment creation: 200 OK".to_string())
    );
    assert!(created_task(&status(201, "201 Created")).is_ok());
    assert_eq!(
        created_task(&status(200, "200 OK")).err(),
        Some("Unexpected status code for task creation: 200 OK".to_string())
    );
}

#[test]
fn request_builders_of_the_workflow() {
    let client = BitbucketClient::new("https://bitbucket.example.com/".to_string(), "t".to_string());
    let repo = repository("app");
    match load_config_file(&client, &repo) {
        Call::GetRawFile { url } => assert_eq!(url, format!("{}raw/workflow-tasks.toml", REPO_URL)),
        _ => panic!("not a file request"),
    }
    let failure = Failure::Config("why".to_string());
    assert_eq!(comment_text(comment_error(&client, &repo, 7, "It failed", &failure)), "It failed: why");
    let config = rules();
    let (stage, call) = handle_workflow(&client, &repo, 7, &config.workflow[1]);
    assert_eq!(comment_text(call), "Please check:");
    match stage {
        Stage::Commenting { tasks } => assert_eq!(tasks, vec!["first", "second", "third"]),
        _ => panic!("another stage"),
    }
    let tasks = vec!["a".to_string(), "b".to_string()];
    let (stage, action) = add_tasks(&client, &repo, 7, 5, tasks.clone(), 1);
    assert_eq!(task_of(sent(action)), (5, "b".to_string()));
    match stage {
        Stage::AddingTasks { comment_id: 5, done: 1, .. } => {},
        _ => panic!("another stage"),
    }
    let (_, action) = add_tasks(&client, &repo, 7, 5, tasks, 2);
    assert_eq!(ended(action).ok(), Some(Outcome::Success));
}
