use pr_note::cli::Args;
use pr_note::github::client::{opt_ref, Failure, UpsertRequest};
use pr_note::github::graphql::{
    GetUnMergedCommits, Response, ResponseData, TransportError, Variables, OPERATION_NAME, QUERY,
};
use pr_note::github::Client;

fn args(host: &str) -> Args {
    Args {
        host: host.to_string(),
        owner: "octocat".to_string(),
        repo: "Hello-World".to_string(),
        base: "main".to_string(),
        head: "feature-branch".to_string(),
        token: "your_github_token".to_string(),
        template_path: Some("src/doc/template.md".to_string()),
        group_by: None,
        dry_run: false,
    }
}

#[test]
fn test_client_new() {
    let args = Args {
        host: "api.github.com".to_string(),
        owner: "octocat".to_string(),
        repo: "Hello-World".to_string(),
        base: "main".to_string(),
        head: "feature-branch".to_string(),
        token: "your_github_token".to_string(),
        template_path: Some("src/doc/template.md".to_string()),
        group_by: None,
        dry_run: false,
    };

    let client = Client::new(args);
    assert_eq!(client.host, "api.github.com");
    assert_eq!(client.owner, "octocat");
    assert_eq!(client.repo, "Hello-World");
    assert_eq!(client.base, "main");
    assert_eq!(client.head, "feature-branch");
    assert_eq!(client.token, "your_github_token");
}

#[test]
fn opt_ref_borrows_what_is_there() {
    assert_eq!(opt_ref(&Some(5)), Some(&5));
    assert_eq!(opt_ref(&None::<i32>), None);
    let text = Some("x".to_string());
    assert_eq!(opt_ref(&text).map(|s| s.as_str()), Some("x"));
}

#[test]
fn addresses_of_the_public_service() {
    let client = Client::new(args("api.github.com"));
    assert_eq!(client.graphql_url(), "https://api.github.com/graphql");
    assert_eq!(client.repo_url(), "https://api.github.com/repos/octocat/Hello-World");
    assert_eq!(
        client.list_url(),
        "https://api.github.com/repos/octocat/Hello-World/pulls?head=octocat:feature-branch&base=main&state=open"
    );
}

#[test]
fn addresses_of_an_enterprise_host() {
    let client = Client::new(args("sample.github.enterprise"));
    assert_eq!(client.graphql_url(), "https://sample.github.enterprise/api/graphql");
    assert_eq!(
        client.repo_url(),
        "https://sample.github.enterprise/api/v3/repos/octocat/Hello-World"
    );
    assert_eq!(
        client.list_url(),
        "https://sample.github.enterprise/api/v3/repos/octocat/Hello-World/pulls?head=octocat:feature-branch&base=main&state=open"
    );
}

#[test]
fn query_carries_repository_and_branches() {
    let body = Client::new(args("api.github.com")).query();
    assert_eq!(body.variables.owner, "octocat");
    assert_eq!(body.variables.repo, "Hello-World");
    assert_eq!(body.variables.base, "main");
    assert_eq!(body.variables.head, "feature-branch");
    assert_eq!(body.operation_name, "GetUnMergedCommits");
    assert_eq!(body.query, QUERY);
    assert!(body.query.contains("query GetUnMergedCommits("));
    assert!(body.query.contains("associatedPullRequests"));

    let body = GetUnMergedCommits::build_query(Variables {
        owner: "o".to_string(),
        repo: "r".to_string(),
        base: "b".to_string(),
        head: "h".to_string(),
    });
    assert_eq!(body.variables.owner, "o");
    assert_eq!(body.variables.repo, "r");
    assert_eq!(body.variables.base, "b");
    assert_eq!(body.variables.head, "h");
    assert_eq!(body.operation_name, OPERATION_NAME);
}

#[test]
fn note_updates_the_pull_request_that_is_there() {
    let client = Client::new(args("api.github.com"));
    match client.upsert_request("Release 1.2\n- #1 one\n- #2 two\n", Some(1347)) {
        UpsertRequest::Update { url, title, body, state } => {
            assert_eq!(url, "https://api.github.com/repos/octocat/Hello-World/pulls/1347");
            assert_eq!(title, "Release 1.2");
            assert_eq!(body, "- #1 one\n- #2 two\n");
            assert_eq!(state, "open");
        }
        other => panic!("an update was due, not {other:?}"),
    }
}

#[test]
fn note_creates_a_pull_request_where_none_is() {
    let client = Client::new(args("sample.github.enterprise"));
    match client.upsert_request("Release\nbody", None) {
        UpsertRequest::Create { url, title, head, base, body } => {
            assert_eq!(url, "https://sample.github.enterprise/api/v3/repos/octocat/Hello-World/pulls");
            assert_eq!(title, "Release");
            assert_eq!(head, "feature-branch");
            assert_eq!(base, "main");
            assert_eq!(body, "body");
        }
        other => panic!("a creation was due, not {other:?}"),
    }
    match client.upsert_request("", None) {
        UpsertRequest::Create { title, body, .. } => {
            assert_eq!(title, "");
            assert_eq!(body, "");
        }
        other => panic!("a creation was due, not {other:?}"),
    }
}

#[test]
fn failures_are_told_apart() {
    let client = Client::new(args("api.github.com"));
    let transport = Err(TransportError { message: "timed out".to_string() });
    assert_eq!(client.failure(&transport), Some(Failure::Transport));
    let query = Ok(Response { data: None, errors: Some(vec!["bad".to_string()]) });
    assert_eq!(client.failure(&query), Some(Failure::Query));
    let silent = Ok(Response { data: None, errors: None });
    assert_eq!(client.failure(&silent), Some(Failure::Query));
    let empty = Ok(Response { data: Some(ResponseData { repository: None }), errors: None });
    assert_eq!(client.failure(&empty), None);
    let partial = Ok(Response {
        data: Some(ResponseData { repository: None }),
        errors: Some(vec!["partly".to_string()]),
    });
    assert_eq!(client.failure(&partial), None);
    assert!(client.extract_pr_info(empty).is_empty());

    assert_eq!(
        Failure::Transport.message(),
        "Failed to get a valid response from GitHub GraphQL API."
    );
    assert_eq!(Failure::Query.message(), "GraphQL errors occurred. Could not extract PR info.");
}
