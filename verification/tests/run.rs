use pr_note::cli::{Args, Group};
use pr_note::github::client::UpsertRequest;
use pr_note::github::graphql::{
    CommitConnection, CommitNode, Comparison, Label, LabelConnection, PullRequestConnection,
    PullRequestRef, Ref, Repository, Response, ResponseData, TransportError, QUERY,
};
use pr_note::run::{Action, Event, Run, State};

fn args(group_by: Option<Group>, dry_run: bool) -> Args {
    Args {
        host: "api.github.com".to_string(),
        owner: "octocat".to_string(),
        repo: "Hello-World".to_string(),
        base: "main".to_string(),
        head: "feature-branch".to_string(),
        token: "your_github_token".to_string(),
        template_path: Some("note.tera".to_string()),
        group_by,
        dry_run,
    }
}

fn answer(refs: Vec<Option<PullRequestRef>>) -> Result<Response, TransportError> {
    Ok(Response {
        data: Some(ResponseData {
            repository: Some(Repository {
                ref_: Some(Ref {
                    compare: Some(Comparison {
                        commits: CommitConnection {
                            nodes: Some(vec![
                                Some(CommitNode { associated_pull_requests: None }),
                                Some(CommitNode {
                                    associated_pull_requests: Some(PullRequestConnection {
                                        nodes: Some(refs),
                                    }),
                                }),
                            ]),
                        },
                    }),
                }),
            }),
        }),
        errors: None,
    })
}

fn feat() -> Option<PullRequestRef> {
    Some(PullRequestRef {
        number: 42,
        title: "[feat] add X".to_string(),
        body: "adds X".to_string(),
        author: None,
        labels: Some(LabelConnection {
            nodes: Some(vec![Some(Label { name: "feat".to_string() })]),
        }),
    })
}

fn started(group_by: Option<Group>, dry_run: bool) -> Run {
    Run::start(args(group_by, dry_run)).0
}

fn rendering(group_by: Option<Group>, dry_run: bool) -> Run {
    let mut run = started(group_by, dry_run);
    run.step(Event::Answered(answer(vec![feat()])));
    assert!(matches!(run.state, State::Rendering));
    run
}

fn looking_up() -> Run {
    let mut run = rendering(None, false);
    run.step(Event::Rendered(Ok("Release\n- #42".to_string())));
    assert!(matches!(run.state, State::LookingUp { .. }));
    run
}

#[test]
fn a_run_starts_with_the_query() {
    let (run, actions) = Run::start(args(Some(Group::Title), true));
    assert!(matches!(run.state, State::Querying));
    assert_eq!(run.client.owner, "octocat");
    assert_eq!(run.template_path.as_deref(), Some("note.tera"));
    assert_eq!(run.group_by, Some(Group::Title));
    assert!(run.dry_run);
    assert_eq!(actions.len(), 1);
    match &actions[0] {
        Action::Query { url, token, body } => {
            assert_eq!(url, "https://api.github.com/graphql");
            assert_eq!(token, "your_github_token");
            assert_eq!(body.variables.owner, "octocat");
            assert_eq!(body.variables.repo, "Hello-World");
            assert_eq!(body.variables.base, "main");
            assert_eq!(body.variables.head, "feature-branch");
            assert_eq!(body.query, QUERY);
        }
        other => panic!("the query was due, not {other:?}"),
    }
}

#[test]
fn pull_requests_are_handed_on_under_their_groups() {
    let mut run = started(Some(Group::Label), false);
    let actions = run.step(Event::Answered(answer(vec![feat(), None, feat()])));
    assert!(matches!(run.state, State::Rendering));
    assert_eq!(actions.len(), 1);
    match &actions[0] {
        Action::Render { template_path, prs } => {
            assert_eq!(template_path.as_deref(), Some("note.tera"));
            assert_eq!(prs.len(), 1);
            assert_eq!(prs[0].number, 42);
            assert_eq!(prs[0].title, "[feat] add X");
            assert_eq!(prs[0].author, "unknown");
            assert_eq!(prs[0].group, "feat");
        }
        other => panic!("the note was to be rendered, not {other:?}"),
    }
}

#[test]
fn no_pull_requests_end_the_run() {
    let mut run = started(None, false);
    let actions = run.step(Event::Answered(answer(vec![])));
    assert!(matches!(run.state, State::Finished));
    assert_eq!(actions.len(), 1);
    match &actions[0] {
        Action::Say(text) => {
            assert_eq!(text, "No unmerged PRs found between main and feature-branch.")
        }
        other => panic!("the user was to be told, not {other:?}"),
    }
}

#[test]
fn errors_without_data_are_warned_of_and_end_the_run() {
    let mut run = started(None, false);
    let actions = run.step(Event::Answered(Ok(Response {
        data: None,
        errors: Some(vec!["Something went wrong".to_string()]),
    })));
    assert!(matches!(run.state, State::Finished));
    assert_eq!(actions.len(), 2);
    match (&actions[0], &actions[1]) {
        (Action::Warn(warning), Action::Say(text)) => {
            assert_eq!(warning, "GraphQL errors occurred. Could not extract PR info.");
            assert_eq!(text, "No unmerged PRs found between main and feature-branch.");
        }
        other => panic!("a warning and a message were due, not {other:?}"),
    }
    assert!(run.step(Event::Rendered(Ok("note".to_string()))).is_empty());
    assert!(matches!(run.state, State::Finished));
}

#[test]
fn no_answer_is_warned_of_and_ends_the_run() {
    let mut run = started(None, false);
    let actions = run.step(Event::Answered(Err(TransportError {
        message: "connection reset".to_string(),
    })));
    assert!(matches!(run.state, State::Finished));
    assert_eq!(actions.len(), 2);
    match (&actions[0], &actions[1]) {
        (Action::Warn(warning), Action::Say(text)) => {
            assert_eq!(warning, "Failed to get a valid response from GitHub GraphQL API.");
            assert_eq!(text, "No unmerged PRs found between main and feature-branch.");
        }
        other => panic!("a warning and a message were due, not {other:?}"),
    }
}

#[test]
fn a_note_that_was_not_rendered_ends_the_run() {
    let mut run = rendering(None, false);
    let actions = run.step(Event::Rendered(Err("Template 'template' not found".to_string())));
    assert!(matches!(run.state, State::Finished));
    assert_eq!(actions.len(), 1);
    match &actions[0] {
        Action::Warn(text) => {
            assert_eq!(text, "Failed to render the PR note: Template 'template' not found")
        }
        other => panic!("a warning was due, not {other:?}"),
    }
}

#[test]
fn a_dry_run_prints_the_note_and_sends_nothing() {
    let mut run = rendering(None, true);
    let actions = run.step(Event::Rendered(Ok("Release\n- #42".to_string())));
    assert!(matches!(run.state, State::Finished));
    assert_eq!(actions.len(), 1);
    match &actions[0] {
        Action::Say(text) => assert_eq!(text, "Release\n- #42"),
        other => panic!("the note was to be printed, not {other:?}"),
    }
    assert!(run.step(Event::LookedUp(Ok(Some(1)))).is_empty());
    assert!(run.step(Event::Sent(Ok("link".to_string()))).is_empty());
}

#[test]
fn a_note_is_printed_before_the_pull_request_is_looked_up() {
    let mut run = rendering(None, false);
    let actions = run.step(Event::Rendered(Ok("Release\n- #42".to_string())));
    match &run.state {
        State::LookingUp { note } => assert_eq!(note, "Release\n- #42"),
        other => panic!("the run was to look up the pull request, not {other:?}"),
    }
    assert_eq!(actions.len(), 2);
    match (&actions[0], &actions[1]) {
        (Action::Say(text), Action::LookUp { url, token }) => {
            assert_eq!(text, "Release\n- #42");
            assert_eq!(
                url,
                "https://api.github.com/repos/octocat/Hello-World/pulls?head=octocat:feature-branch&base=main&state=open"
            );
            assert_eq!(token, "your_github_token");
        }
        other => panic!("the note and the lookup were due, not {other:?}"),
    }
}

#[test]
fn a_pull_request_that_is_there_is_updated() {
    let mut run = looking_up();
    let actions = run.step(Event::LookedUp(Ok(Some(7))));
    assert!(matches!(run.state, State::Updating));
    assert_eq!(actions.len(), 1);
    match &actions[0] {
        Action::Send { token, request: UpsertRequest::Update { url, title, body, state } } => {
            assert_eq!(token, "your_github_token");
            assert_eq!(url, "https://api.github.com/repos/octocat/Hello-World/pulls/7");
            assert_eq!(title, "Release");
            assert_eq!(body, "- #42");
            assert_eq!(state, "open");
        }
        other => panic!("an update was due, not {other:?}"),
    }
    let actions = run.step(Event::Sent(Ok("\"https://github.com/octocat/Hello-World/pull/7\"".to_string())));
    assert!(matches!(run.state, State::Finished));
    assert_eq!(actions.len(), 1);
    match &actions[0] {
        Action::Say(text) => {
            assert_eq!(text, "Updated PR: \"https://github.com/octocat/Hello-World/pull/7\"")
        }
        other => panic!("the user was to be told, not {other:?}"),
    }
}

#[test]
fn a_pull_request_that_is_not_there_is_created() {
    let mut run = looking_up();
    let actions = run.step(Event::LookedUp(Ok(None)));
    assert!(matches!(run.state, State::Creating));
    assert_eq!(actions.len(), 1);
    match &actions[0] {
        Action::Send { request: UpsertRequest::Create { url, title, head, base, body }, .. } => {
            assert_eq!(url, "https://api.github.com/repos/octocat/Hello-World/pulls");
            assert_eq!(title, "Release");
            assert_eq!(head, "feature-branch");
            assert_eq!(base, "main");
            assert_eq!(body, "- #42");
        }
        other => panic!("a creation was due, not {other:?}"),
    }
    let actions = run.step(Event::Sent(Ok("\"link\"".to_string())));
    assert!(matches!(run.state, State::Finished));
    match &actions[0] {
        Action::Say(text) => assert_eq!(text, "Created PR: \"link\""),
        other => panic!("the user was to be told, not {other:?}"),
    }
}

#[test]
fn a_failed_request_is_warned_of_and_ends_the_run() {
    let failure = || TransportError { message: "timed out".to_string() };
    let warned = |actions: Vec<Action>| match &actions[..] {
        [Action::Warn(text)] => assert_eq!(text, "Failed to create or update the PR."),
        other => panic!("a warning was due, not {other:?}"),
    };

    let mut run = looking_up();
    warned(run.step(Event::LookedUp(Err(failure()))));
    assert!(matches!(run.state, State::Finished));

    let mut run = looking_up();
    run.step(Event::LookedUp(Ok(Some(7))));
    warned(run.step(Event::Sent(Err(failure()))));
    assert!(matches!(run.state, State::Finished));

    let mut run = looking_up();
    run.step(Event::LookedUp(Ok(None)));
    warned(run.step(Event::Sent(Err(failure()))));
    assert!(matches!(run.state, State::Finished));
}

#[test]
fn an_event_out_of_turn_changes_nothing() {
    let mut run = started(None, false);
    assert!(run.step(Event::Rendered(Ok("note".to_string()))).is_empty());
    assert!(run.step(Event::LookedUp(Ok(None))).is_empty());
    assert!(run.step(Event::Sent(Ok("link".to_string()))).is_empty());
    assert!(matches!(run.state, State::Querying));

    let mut run = rendering(None, false);
    assert!(run.step(Event::Answered(answer(vec![feat()]))).is_empty());
    assert!(run.step(Event::Sent(Ok("link".to_string()))).is_empty());
    assert!(matches!(run.state, State::Rendering));

    let mut run = looking_up();
    assert!(run.step(Event::Rendered(Ok("other".to_string()))).is_empty());
    match &run.state {
        State::LookingUp { note } => assert_eq!(note, "Release\n- #42"),
        other => panic!("the run was to go on looking up, not {other:?}"),
    }
}
