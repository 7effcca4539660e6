use bitbucket_task_bot::bitbucket::types::{Project, Repository};
use bitbucket_task_bot::{BitbucketClient, Call};

fn repo() -> Repository {
    Repository { slug: "app".to_string(), project: Project { key: "PRJ".to_string() } }
}

fn client() -> BitbucketClient {
    BitbucketClient::new("https://bitbucket.example.com/".to_string(), "token".to_string())
}

#[test]
fn client_keeps_the_token_and_the_rest_address() {
    let client = client();
    assert_eq!(client.bearer, "token");
    assert_eq!(client.rest_api_base_url, "https://bitbucket.example.com/rest/api/1.0/");
}

#[test]
fn comment_request_goes_to_the_comments_of_the_pull_request() {
    match client().comment_pull_request(&repo(), 42, "hello".to_string()) {
        Call::PostComment { url, comment } => {
            assert_eq!(url, "https://bitbucket.example.com/rest/api/1.0/projects/PRJ/repos/app/pull-requests/42/comments");
            assert_eq!(comment.text, "hello");
        },
        _ => panic!("not a comment"),
    }
}

#[test]
fn file_request_goes_to_the_raw_file() {
    match client().get_raw_file(&repo(), "workflow-tasks.toml") {
        Call::GetRawFile { url } => {
            assert_eq!(url, "https://bitbucket.example.com/rest/api/1.0/projects/PRJ/repos/app/raw/workflow-tasks.toml");
        },
        _ => panic!("not a file request"),
    }
}

#[test]
fn task_request_hangs_on_the_comment() {
    match client().add_task_to_comment(&repo(), 42, 1001, "look at it".to_string()) {
        Call::PostTask { url, task } => {
            assert_eq!(
                url,
                "https://bitbucket.example.com/rest/api/1.0/projects/PRJ/repos/app/pull-requests/42/blocker-comments"
            );
            assert_eq!(task.parent.id, 1001);
            assert_eq!(task.text, "look at it");
        },
        _ => panic!("not a task"),
    }
}

#[test]
fn negative_pull_request_number_is_written_with_its_sign() {
    match client().comment_pull_request(&repo(), -3, String::new()) {
        Call::PostComment { url, .. } => assert!(url.ends_with("/pull-requests/-3/comments")),
        _ => panic!("not a comment"),
    }
}

#[test]
fn repository_clone_keeps_the_names() {
    let copy = repo().clone();
    assert_eq!(copy.slug, "app");
    assert_eq!(copy.project.key, "PRJ");
}
