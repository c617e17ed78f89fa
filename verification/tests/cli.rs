use pr_note::cli::{Args, Group, Values};

fn values() -> Values {
    Values {
        host: Some("api.github.com".to_string()),
        owner: Some("octocat".to_string()),
        repo: Some("Hello-World".to_string()),
        base: Some("main".to_string()),
        head: Some("feature-branch".to_string()),
        token: Some("ghp_exampletoken1234567890".to_string()),
        template_path: None,
        group_by: None,
        dry_run: None,
    }
}

#[test]
fn verify_cli() {
    Args::command().debug_assert();
}

#[test]
fn cli_parsing() {
    let args = Args::try_parse_from(&[
        "pr-note",
        "--host",
        "sample.github.enterprise",
        "--owner",
        "octocat",
        "--repo",
        "Hello-World",
        "--base",
        "main",
        "--head",
        "feature-branch",
        "--token",
        "ghp_exampletoken1234567890",
        "--template-path",
        "./custom/template.md",
        "--dry-run",
    ])
    .unwrap();

    assert_eq!(args.host, "sample.github.enterprise");
    assert_eq!(args.owner, "octocat");
    assert_eq!(args.repo, "Hello-World");
    assert_eq!(args.base, "main");
    assert_eq!(args.head, "feature-branch");
    assert_eq!(args.token, "ghp_exampletoken1234567890");
    assert_eq!(args.template_path.unwrap(), "./custom/template.md");
    assert!(args.dry_run);
}

#[test]
fn cli_parsing_with_defaults() {
    let args = Args::try_parse_from(&[
        "pr-note",
        "--owner",
        "octocat",
        "--repo",
        "Hello-World",
        "--base",
        "main",
        "--head",
        "feature-branch",
        "--token",
        "ghp_exampletoken1234567890",
    ])
    .unwrap();

    assert_eq!(args.host, "api.github.com");
    assert!(args.template_path.is_none());
    assert!(!args.dry_run);
}

/// What is looked at in an option: its names, its variable, whether it
/// must be given, its default, its choices, and whether it takes a value.
type Option9<'a> = (&'a str, &'a str, Option<char>, &'a str, bool, Option<&'a str>, Vec<&'a str>, bool, bool);

#[test]
fn command_holds_the_options() {
    let expected: Vec<Option9> = vec![
        ("host", "host", None, "PR_NOTE_GITHUB_HOST", false, Some("api.github.com"), vec![], true, false),
        ("owner", "owner", Some('o'), "PR_NOTE_REPO_OWNER", true, None, vec![], true, false),
        ("repo", "repo", Some('r'), "PR_NOTE_REPO_NAME", true, None, vec![], true, false),
        ("base", "base", Some('b'), "PR_NOTE_BASE_BRANCH", true, None, vec![], true, false),
        ("head", "head", Some('a'), "PR_NOTE_HEAD_BRANCH", true, None, vec![], true, false),
        ("token", "token", Some('t'), "PR_NOTE_GITHUB_TOKEN", true, None, vec![], true, true),
        ("template_path", "template-path", Some('p'), "PR_NOTE_TEMPLATE_PATH", false, None, vec![], true, false),
        ("group_by", "group-by", Some('g'), "PR_NOTE_GROUP_BY", false, None, vec!["label", "title"], true, false),
        ("dry_run", "dry-run", Some('d'), "PR_NOTE_DRY_RUN", false, None, vec![], false, false),
    ];
    let command = Args::command();
    assert_eq!(command.get_name(), "pr-note");
    assert_eq!(command.get_version(), Some("0.1.0"));
    let found: Vec<&clap::Arg> = command.get_arguments().collect();
    assert_eq!(found.len(), expected.len());
    for (arg, (id, long, short, env, required, default, choices, takes_value, hidden)) in
        found.into_iter().zip(expected)
    {
        assert_eq!(arg.get_id().as_str(), id);
        assert_eq!(arg.get_long(), Some(long), "{id}");
        assert_eq!(arg.get_short(), short, "{id}");
        assert_eq!(arg.get_env().and_then(|name| name.to_str()), Some(env), "{id}");
        assert_eq!(arg.is_required_set(), required, "{id}");
        let defaults: Vec<&str> =
            arg.get_default_values().iter().filter_map(|value| value.to_str()).collect();
        assert_eq!(defaults, default.into_iter().collect::<Vec<_>>(), "{id}");
        assert_eq!(matches!(arg.get_action(), clap::ArgAction::Set), takes_value, "{id}");
        assert_eq!(matches!(arg.get_action(), clap::ArgAction::SetTrue), !takes_value, "{id}");
        if takes_value {
            let possible: Vec<String> = arg
                .get_possible_values()
                .iter()
                .map(|value| value.get_name().to_string())
                .collect();
            assert_eq!(possible, choices, "{id}");
            let names: Vec<String> = arg
                .get_value_names()
                .unwrap_or_default()
                .iter()
                .map(|name| name.to_string())
                .collect();
            assert_eq!(names, vec![id.to_uppercase()], "{id}");
        }
        assert_eq!(arg.is_hide_env_values_set(), hidden, "{id}");
        assert!(arg.get_help().is_some(), "{id}");
    }
}

#[test]
fn command_says_what_the_options_are_for() {
    let command = Args::command();
    let help = |id: &str| {
        command
            .get_arguments()
            .find(|arg| arg.get_id().as_str() == id)
            .and_then(|arg| arg.get_help())
            .map(|text| text.to_string())
    };
    assert_eq!(help("owner").as_deref(), Some("The owner of the repository."));
    assert_eq!(help("repo").as_deref(), Some("The name of the repository."));
    assert_eq!(help("base").as_deref(), Some("The name of the base branch."));
    assert_eq!(help("head").as_deref(), Some("The name of the head branch."));
    assert_eq!(
        help("group_by").as_deref(),
        Some("Grouping options for unmerged PRs.\nOptions are \"label\" or \"title\".")
    );
    assert_eq!(help("host").as_deref(), Some(pr_note::cli::HOST_HELP));
    assert_eq!(help("token").as_deref(), Some(pr_note::cli::TOKEN_HELP));
    assert_eq!(help("template_path").as_deref(), Some(pr_note::cli::TEMPLATE_PATH_HELP));
    assert_eq!(help("dry_run").as_deref(), Some(pr_note::cli::DRY_RUN_HELP));
}

#[test]
fn cli_short_options_and_grouping() {
    let args = Args::try_parse_from(&[
        "pr-note", "-o", "octocat", "-r", "Hello-World", "-b", "main", "-a", "feature", "-t",
        "token", "-p", "note.tera", "-g", "title", "-d",
    ])
    .unwrap();
    assert_eq!(args.owner, "octocat");
    assert_eq!(args.repo, "Hello-World");
    assert_eq!(args.base, "main");
    assert_eq!(args.head, "feature");
    assert_eq!(args.token, "token");
    assert_eq!(args.template_path.as_deref(), Some("note.tera"));
    assert_eq!(args.group_by, Some(Group::Title));
    assert!(args.dry_run);

    let args = Args::try_parse_from(&[
        "pr-note", "-o", "o", "-r", "r", "-b", "b", "-a", "a", "-t", "t", "--group-by", "label",
    ])
    .unwrap();
    assert_eq!(args.group_by, Some(Group::Label));
    assert!(!args.dry_run);
}

#[test]
fn cli_turns_down_what_is_wrong() {
    let missing_token = Args::try_parse_from(&[
        "pr-note", "--owner", "octocat", "--repo", "Hello-World", "--base", "main", "--head",
        "feature-branch",
    ])
    .unwrap_err();
    assert_eq!(missing_token.exit_code, 2);
    assert!(missing_token.message.contains("--token"));

    let unknown_group = Args::try_parse_from(&[
        "pr-note", "-o", "o", "-r", "r", "-b", "b", "-a", "a", "-t", "t", "-g", "author",
    ])
    .unwrap_err();
    assert_eq!(unknown_group.exit_code, 2);
    assert!(unknown_group.message.contains("author"));

    let unknown_option = Args::try_parse_from(&["pr-note", "--nothing"]).unwrap_err();
    assert_eq!(unknown_option.exit_code, 2);
}

#[test]
fn cli_help_and_version_end_the_run_in_peace() {
    let help = Args::try_parse_from(&["pr-note", "--help"]).unwrap_err();
    assert_eq!(help.exit_code, 0);
    assert!(help.message.contains("--template-path"));
    assert!(help.message.contains("PR_NOTE_GITHUB_TOKEN"));
    let version = Args::try_parse_from(&["pr-note", "--version"]).unwrap_err();
    assert_eq!(version.exit_code, 0);
    assert!(version.message.contains("pr-note"));
}

#[test]
fn group_names() {
    assert_eq!(Group::from_name("label"), Some(Group::Label));
    assert_eq!(Group::from_name("title"), Some(Group::Title));
    assert_eq!(Group::from_name("Label"), None);
    assert_eq!(Group::from_name(""), None);
    assert_eq!(Group::from_name("titles"), None);
}

#[test]
fn values_make_up_settings() {
    let args = Args::from_values(values()).unwrap();
    assert_eq!(args.host, "api.github.com");
    assert_eq!(args.owner, "octocat");
    assert_eq!(args.repo, "Hello-World");
    assert_eq!(args.base, "main");
    assert_eq!(args.head, "feature-branch");
    assert_eq!(args.token, "ghp_exampletoken1234567890");
    assert_eq!(args.template_path, None);
    assert_eq!(args.group_by, None);
    assert!(!args.dry_run);

    let mut given = values();
    given.template_path = Some("t.md".to_string());
    given.group_by = Some("label".to_string());
    given.dry_run = Some(true);
    let args = Args::from_values(given).unwrap();
    assert_eq!(args.template_path.as_deref(), Some("t.md"));
    assert_eq!(args.group_by, Some(Group::Label));
    assert!(args.dry_run);

    let mut given = values();
    given.dry_run = Some(false);
    assert!(!Args::from_values(given).unwrap().dry_run);
}

#[test]
fn incomplete_values_make_up_none() {
    let mut given = values();
    given.host = None;
    assert_eq!(Args::from_values(given).unwrap_err().exit_code, 2);
    let mut given = values();
    given.owner = None;
    assert!(Args::from_values(given).is_err());
    let mut given = values();
    given.repo = None;
    assert!(Args::from_values(given).is_err());
    let mut given = values();
    given.base = None;
    assert!(Args::from_values(given).is_err());
    let mut given = values();
    given.head = None;
    assert!(Args::from_values(given).is_err());
    let mut given = values();
    given.token = None;
    let error = Args::from_values(given).unwrap_err();
    assert_eq!(error.exit_code, 2);
    assert!(error.message.contains("--token"));
    let mut given = values();
    given.group_by = Some("author".to_string());
    assert!(Args::from_values(given).is_err());
}
