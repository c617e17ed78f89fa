//! The settings of one run, and the command line that they are read from.
//!
//! The command line is taken apart by `clap`. The library says which
//! options there are and what becomes of the values that come back.

use vstd::prelude::*;
use vstd::string::*;

verus! {

/// How the pull requests of a note are grouped.
#[derive(Debug, Clone, Copy, PartialEq, Eq, Structural)]
pub enum Group {
    /// By the labels of a pull request.
    Label,
    /// By the tags in square brackets that a title starts with.
    Title,
}

/// The settings of one run.
#[derive(Debug)]
pub struct Args {
    /// The host of the service's API.
    pub host: String,
    /// The owner of the repository.
    pub owner: String,
    /// The name of the repository.
    pub repo: String,
    /// The base branch.
    pub base: String,
    /// The head branch.
    pub head: String,
    /// The token that the requests are signed with.
    pub token: String,
    /// The file that holds the note's template, if not the built-in one.
    pub template_path: Option<String>,
    /// The grouping, if any.
    pub group_by: Option<Group>,
    /// Whether the note is only printed.
    pub dry_run: bool,
}

/// A command line that cannot be run: it is wrong, or it asks for the help
/// text or the version.
#[derive(Debug)]
pub struct UsageError {
    /// What to tell the user.
    pub message: String,
    /// The status to end with.
    pub exit_code: i32,
}

/// The values of a command line, as far as they were found.
#[derive(Debug)]
pub struct Values {
    pub host: Option<String>,
    pub owner: Option<String>,
    pub repo: Option<String>,
    pub base: Option<String>,
    pub head: Option<String>,
    pub token: Option<String>,
    pub template_path: Option<String>,
    pub group_by: Option<String>,
    pub dry_run: Option<bool>,
}

/// The status that a wrong command line ends with.
pub const USAGE_CODE: i32 = 2;

/// The name of the program.
pub const NAME: &'static str = "pr-note";

/// The version of the program.
pub const VERSION: &'static str = "0.1.0";

/// What the program does, in a line.
pub const ABOUT: &'static str =
    "Generate or update a GitHub Pull Request (PR) note summarizing unmerged PRs between two branches.";

/// The host for when none is given: that of the public service.
pub const DEFAULT_HOST: &'static str = "api.github.com";

/// What the help text says of the host.
pub const HOST_HELP: &'static str = "API host domain for GitHub. Default is \"api.github.com\".
For GitHub Enterprise, set your enterprise host domain.";

/// What the help text says of the owner.
pub const OWNER_HELP: &'static str = "The owner of the repository.";

/// What the help text says of the repository.
pub const REPO_HELP: &'static str = "The name of the repository.";

/// What the help text says of the base branch.
pub const BASE_HELP: &'static str = "The name of the base branch.";

/// What the help text says of the head branch.
pub const HEAD_HELP: &'static str = "The name of the head branch.";

/// What the help text says of the token.
pub const TOKEN_HELP: &'static str = "GitHub API token with appropriate repository permissions:
  - Contents: read
  - Metadata: read
  - Pull requests: write";

/// What the help text says of the template.
pub const TEMPLATE_PATH_HELP: &'static str = "Template file path for PR title and body.
First line is used as the title, rest as the body.
If not specified, the default template will be used.";

/// What the help text says of the grouping.
pub const GROUP_BY_HELP: &'static str = "Grouping options for unmerged PRs.
Options are \"label\" or \"title\".";

/// What the help text says of a dry run.
pub const DRY_RUN_HELP: &'static str = "Dry run mode.
With this option, no PR will be created or updated, only output the generated text to stdout.";

/// One option of a command line, as it is defined.
pub struct OptionSpec {
    /// The name under which the option's value is found.
    pub id: Seq<char>,
    /// The option's name on the command line, behind two dashes.
    pub long: Seq<char>,
    /// The option's letter on the command line, behind one dash.
    pub short: Option<char>,
    /// The environment variable that stands in for the option.
    pub env: Seq<char>,
    /// What the help text says of the option.
    pub help: Seq<char>,
    /// What the help text calls the option's value; nothing for an option
    /// that takes no value.
    pub value_name: Option<Seq<char>>,
    /// Whether the option must be given.
    pub required: bool,
    /// The value for when the option is not given.
    pub default: Option<Seq<char>>,
    /// Whether the help text keeps quiet about the variable's value.
    pub hide_env_value: bool,
    /// The values that the option is limited to; none where it takes any.
    pub choices: Seq<Seq<char>>,
    /// Whether the option takes a value, or is just given or not.
    pub takes_value: bool,
}

/// The text of an optional literal.
pub open spec fn literal_text(literal: Option<&'static str>) -> Option<Seq<char>> {
    match literal {
        Some(text) => Some(text@),
        None => None,
    }
}

/// An option that takes one value, any text.
pub open spec fn text_option(
    id: Seq<char>,
    long: Seq<char>,
    short: Option<char>,
    env: Seq<char>,
    help: Seq<char>,
    value_name: Seq<char>,
    required: bool,
    default: Option<Seq<char>>,
    hide_env_value: bool,
) -> OptionSpec {
    OptionSpec {
        id,
        long,
        short,
        env,
        help,
        value_name: Some(value_name),
        required,
        default,
        hide_env_value,
        choices: Seq::empty(),
        takes_value: true,
    }
}

/// An option that takes one of two values, and need not be given.
pub open spec fn choice_option(
    id: Seq<char>,
    long: Seq<char>,
    short: Option<char>,
    env: Seq<char>,
    help: Seq<char>,
    value_name: Seq<char>,
    first: Seq<char>,
    second: Seq<char>,
) -> OptionSpec {
    OptionSpec {
        id,
        long,
        short,
        env,
        help,
        value_name: Some(value_name),
        required: false,
        default: None,
        hide_env_value: false,
        choices: seq![first, second],
        takes_value: true,
    }
}

/// An option that takes no value and is either given or not.
pub open spec fn switch_option(
    id: Seq<char>,
    long: Seq<char>,
    short: Option<char>,
    env: Seq<char>,
    help: Seq<char>,
) -> OptionSpec {
    OptionSpec {
        id,
        long,
        short,
        env,
        help,
        value_name: None,
        required: false,
        default: None,
        hide_env_value: false,
        choices: Seq::empty(),
        takes_value: false,
    }
}

/// The options of the program: one for each setting, each with an
/// environment variable that stands in for it. The repository with its
/// owner, both branches and the token must be given; the host is that of
/// the public service unless another is given; the grouping is `label` or
/// `title`; a dry run is asked for by a switch.
pub open spec fn cli() -> Seq<OptionSpec> {
    seq![
        text_option(
            "host"@,
            "host"@,
            None,
            "PR_NOTE_GITHUB_HOST"@,
            HOST_HELP@,
            "HOST"@,
            false,
            Some(DEFAULT_HOST@),
            false,
        ),
        text_option(
            "owner"@,
            "owner"@,
            Some('o'),
            "PR_NOTE_REPO_OWNER"@,
            OWNER_HELP@,
            "OWNER"@,
            true,
            None,
            false,
        ),
        text_option(
            "repo"@,
            "repo"@,
            Some('r'),
            "PR_NOTE_REPO_NAME"@,
            REPO_HELP@,
            "REPO"@,
            true,
            None,
            false,
        ),
        text_option(
            "base"@,
            "base"@,
            Some('b'),
            "PR_NOTE_BASE_BRANCH"@,
            BASE_HELP@,
            "BASE"@,
            true,
            None,
            false,
        ),
        text_option(
            "head"@,
            "head"@,
            Some('a'),
            "PR_NOTE_HEAD_BRANCH"@,
            HEAD_HELP@,
            "HEAD"@,
            true,
            None,
            false,
        ),
        text_option(
            "token"@,
            "token"@,
            Some('t'),
            "PR_NOTE_GITHUB_TOKEN"@,
            TOKEN_HELP@,
            "TOKEN"@,
            true,
            None,
            true,
        ),
        text_option(
            "template_path"@,
            "template-path"@,
            Some('p'),
            "PR_NOTE_TEMPLATE_PATH"@,
            TEMPLATE_PATH_HELP@,
            "TEMPLATE_PATH"@,
            false,
            None,
            false,
        ),
        choice_option(
            "group_by"@,
            "group-by"@,
            Some('g'),
            "PR_NOTE_GROUP_BY"@,
            GROUP_BY_HELP@,
            "GROUP_BY"@,
            "label"@,
            "title"@,
        ),
        switch_option("dry_run"@, "dry-run"@, Some('d'), "PR_NOTE_DRY_RUN"@, DRY_RUN_HELP@),
    ]
}

/// `clap::Command`: the definition of a command line.
#[verifier::external_type_specification]
#[verifier::external_body]
pub struct ExCommand(clap::Command);

/// `clap::ArgMatches`: the values found on a command line.
#[verifier::external_type_specification]
#[verifier::external_body]
pub struct ExArgMatches(clap::ArgMatches);

/// The options that a command holds, in the order they were added to it:
/// what `clap::Command::get_arguments` walks through, each option as the
/// calls on `clap::Arg` made it.
pub uninterp spec fn options_of(command: clap::Command) -> Seq<OptionSpec>;

/// `clap::Command::new`, with `version`, `about` and `long_about`: a
/// command that holds no options yet.
#[verifier::external_body]
fn new_command(name: &'static str, version: &'static str, about: &'static str) -> (command:
    clap::Command)
    ensures
        options_of(command) == Seq::<OptionSpec>::empty(),
{
    clap::Command::new(name).version(version).about(about).long_about(about)
}

/// `clap::Command::arg`, with an option made by `clap::Arg::new` and its
/// `long`, `short`, `env`, `help`, `value_name`, `required`,
/// `default_value`, `hide_env_values` and `action` with
/// `clap::ArgAction::Set`: the command holds one option more, behind the
/// others, which is as these calls were told. `clap` reads the environment
/// variable when the option is made; of its value nothing is claimed. The
/// letter is no dash, which `clap::Arg::short` refuses.
#[verifier::external_body]
fn with_text_option(
    command: clap::Command,
    id: &'static str,
    long: &'static str,
    short: Option<char>,
    env: &'static str,
    help: &'static str,
    value_name: &'static str,
    required: bool,
    default: Option<&'static str>,
    hide_env_value: bool,
) -> (longer: clap::Command)
    requires
        short != Some('-'),
    ensures
        options_of(longer) == options_of(command).push(
            text_option(
                id@,
                long@,
                short,
                env@,
                help@,
                value_name@,
                required,
                literal_text(default),
                hide_env_value,
            ),
        ),
{
    command.arg(
        clap::Arg::new(id).long(long).short(short).env(env).help(help).value_name(
            value_name,
        ).required(required).default_value(default).hide_env_values(hide_env_value).action(
            clap::ArgAction::Set,
        ),
    )
}

/// `clap::Command::arg`, with an option made by `clap::Arg::new` and its
/// `long`, `short`, `env`, `help`, `value_name`, `value_parser` with two
/// values, and `action` with `clap::ArgAction::Set`: the command holds one
/// option more, behind the others, which takes either value and no other.
/// The letter is no dash.
#[verifier::external_body]
fn with_choice_option(
    command: clap::Command,
    id: &'static str,
    long: &'static str,
    short: Option<char>,
    env: &'static str,
    help: &'static str,
    value_name: &'static str,
    first: &'static str,
    second: &'static str,
) -> (longer: clap::Command)
    requires
        short != Some('-'),
    ensures
        options_of(longer) == options_of(command).push(
            choice_option(id@, long@, short, env@, help@, value_name@, first@, second@),
        ),
{
    command.arg(
        clap::Arg::new(id).long(long).short(short).env(env).help(help).value_name(
            value_name,
        ).value_parser([first, second]).action(clap::ArgAction::Set),
    )
}

/// `clap::Command::arg`, with an option made by `clap::Arg::new` and its
/// `long`, `short`, `env`, `help`, and `action` with
/// `clap::ArgAction::SetTrue`: the command holds one option more, behind
/// the others, which takes no value. The letter is no dash.
#[verifier::external_body]
fn with_switch(
    command: clap::Command,
    id: &'static str,
    long: &'static str,
    short: Option<char>,
    env: &'static str,
    help: &'static str,
) -> (longer: clap::Command)
    requires
        short != Some('-'),
    ensures
        options_of(longer) == options_of(command).push(
            switch_option(id@, long@, short, env@, help@),
        ),
{
    command.arg(
        clap::Arg::new(id).long(long).short(short).env(env).help(help).action(
            clap::ArgAction::SetTrue,
        ),
    )
}

/// `clap::Command::try_get_matches_from`: the values of a command line,
/// or the error in the library's own type, with the text that
/// `clap::Error::render` gives and the status of `clap::Error::exit_code`.
/// Which of the two comes back is up to `clap` and to the environment; the
/// status is that of a wrong command line, or zero where the help text or
/// the version was asked for. In a debug build `clap` panics on a
/// definition that contradicts itself; the command that is handed over
/// holds the program's own options and no others.
#[verifier::external_body]
fn matches_of(command: clap::Command, argv: &[&str]) -> (matches: Result<
    clap::ArgMatches,
    UsageError,
>)
    requires
        options_of(command) == cli(),
    ensures
        matches matches Err(error) ==> error.exit_code == 0 || error.exit_code == USAGE_CODE,
{
    command.try_get_matches_from(argv).map_err(
        |error| UsageError { message: error.render().to_string(), exit_code: error.exit_code() },
    )
}

/// `clap::ArgMatches::try_get_one` for a `String`: the value found for an
/// option, if there is one.
#[verifier::external_body]
fn text_of(matches: &clap::ArgMatches, id: &str) -> Option<String> {
    matches.try_get_one::<String>(id).ok().flatten().cloned()
}

/// `clap::ArgMatches::try_get_one` for a `bool`: whether a switch was
/// given, if the switch is known.
#[verifier::external_body]
fn switch_of(matches: &clap::ArgMatches, id: &str) -> Option<bool> {
    matches.try_get_one::<bool>(id).ok().flatten().copied()
}

/// The grouping that a name stands for.
pub open spec fn group_named(name: Seq<char>) -> Option<Group> {
    if name == "label"@ {
        Some(Group::Label)
    } else if name == "title"@ {
        Some(Group::Title)
    } else {
        None
    }
}

/// Whether the values make up settings: the host, the repository with its
/// owner, both branches and the token are there, and the grouping, where
/// one is named, is one that exists.
pub open spec fn complete(values: Values) -> bool {
    &&& values.host is Some
    &&& values.owner is Some
    &&& values.repo is Some
    &&& values.base is Some
    &&& values.head is Some
    &&& values.token is Some
    &&& values.group_by is Some ==> group_named(values.group_by->0@) is Some
}

impl Clone for Args {
    fn clone(&self) -> (copy: Args)
        ensures
            copy == *self,
    {
        Args {
            host: self.host.clone(),
            owner: self.owner.clone(),
            repo: self.repo.clone(),
            base: self.base.clone(),
            head: self.head.clone(),
            token: self.token.clone(),
            template_path: match &self.template_path {
                Some(path) => Some(path.clone()),
                None => None,
            },
            group_by: self.group_by,
            dry_run: self.dry_run,
        }
    }
}

impl Group {
    /// The grouping that a name stands for: `label` or `title`.
    pub fn from_name(name: &str) -> (group: Option<Group>)
        ensures
            group == group_named(name@),
    {
        let name = name.to_owned();
        if name == "label".to_owned() {
            Some(Group::Label)
        } else if name == "title".to_owned() {
            Some(Group::Title)
        } else {
            None
        }
    }
}

/// The option that keeps the values from making up settings: the first
/// one that is not there, or else the grouping.
pub open spec fn first_gap(values: Values) -> Seq<char> {
    if values.host is None {
        "--host"@
    } else if values.owner is None {
        "--owner"@
    } else if values.repo is None {
        "--repo"@
    } else if values.base is None {
        "--base"@
    } else if values.head is None {
        "--head"@
    } else if values.token is None {
        "--token"@
    } else {
        "--group-by"@
    }
}

/// The error for values that make up no settings.
fn incomplete(what: &str) -> (error: UsageError)
    ensures
        error.message@ == "error: no usable value for "@ + what@,
        error.exit_code == USAGE_CODE,
{
    let mut message = "error: no usable value for ".to_owned();
    message.append(what);
    UsageError { message, exit_code: USAGE_CODE }
}

impl Args {
    /// The settings that the values make up. Without a value for it, a
    /// run is no dry run.
    pub fn from_values(values: Values) -> (settings: Result<Args, UsageError>)
        ensures
            settings is Ok <==> complete(values),
            settings matches Ok(args) ==> {
                &&& args.host == values.host->0
                &&& args.owner == values.owner->0
                &&& args.repo == values.repo->0
                &&& args.base == values.base->0
                &&& args.head == values.head->0
                &&& args.token == values.token->0
                &&& args.template_path == values.template_path
                &&& args.group_by == match values.group_by {
                    Some(name) => group_named(name@),
                    None => None,
                }
                &&& args.dry_run == (values.dry_run == Some(true))
            },
            settings matches Err(error) ==> {
                &&& error.message@ == "error: no usable value for "@ + first_gap(values)
                &&& error.exit_code == USAGE_CODE
            },
    {
        let host = match values.host {
            Some(host) => host,
            None => return Err(incomplete("--host")),
        };
        let owner = match values.owner {
            Some(owner) => owner,
            None => return Err(incomplete("--owner")),
        };
        let repo = match values.repo {
            Some(repo) => repo,
            None => return Err(incomplete("--repo")),
        };
        let base = match values.base {
            Some(base) => base,
            None => return Err(incomplete("--base")),
        };
        let head = match values.head {
            Some(head) => head,
            None => return Err(incomplete("--head")),
        };
        let token = match values.token {
            Some(token) => token,
            None => return Err(incomplete("--token")),
        };
        let group_by = match values.group_by {
            Some(name) => match Group::from_name(name.as_str()) {
                Some(group) => Some(group),
                None => return Err(incomplete("--group-by")),
            },
            None => None,
        };
        let dry_run = match values.dry_run {
            Some(given) => given,
            None => false,
        };
        Ok(
            Args {
                host,
                owner,
                repo,
                base,
                head,
                token,
                template_path: values.template_path,
                group_by,
                dry_run,
            },
        )
    }

    /// The definition of the command line: it holds the program's
    /// options, in their order, and no others.
    pub fn command() -> (command: clap::Command)
        ensures
            options_of(command) == cli(),
    {
        let command = new_command(NAME, VERSION, ABOUT);
        let command = with_text_option(
            command,
            "host",
            "host",
            None,
            "PR_NOTE_GITHUB_HOST",
            HOST_HELP,
            "HOST",
            false,
            Some(DEFAULT_HOST),
            false,
        );
        let command = with_text_option(
            command,
            "owner",
            "owner",
            Some('o'),
            "PR_NOTE_REPO_OWNER",
            OWNER_HELP,
            "OWNER",
            true,
            None,
            false,
        );
        let command = with_text_option(
            command,
            "repo",
            "repo",
            Some('r'),
            "PR_NOTE_REPO_NAME",
            REPO_HELP,
            "REPO",
            true,
            None,
            false,
        );
        let command = with_text_option(
            command,
            "base",
            "base",
            Some('b'),
            "PR_NOTE_BASE_BRANCH",
            BASE_HELP,
            "BASE",
            true,
            None,
            false,
        );
        let command = with_text_option(
            command,
            "head",
            "head",
            Some('a'),
            "PR_NOTE_HEAD_BRANCH",
            HEAD_HELP,
            "HEAD",
            true,
            None,
            false,
        );
        let command = with_text_option(
            command,
            "token",
            "token",
            Some('t'),
            "PR_NOTE_GITHUB_TOKEN",
            TOKEN_HELP,
            "TOKEN",
            true,
            None,
            true,
        );
        let command = with_text_option(
            command,
            "template_path",
            "template-path",
            Some('p'),
            "PR_NOTE_TEMPLATE_PATH",
            TEMPLATE_PATH_HELP,
            "TEMPLATE_PATH",
            false,
            None,
            false,
        );
        let command = with_choice_option(
            command,
            "group_by",
            "group-by",
            Some('g'),
            "PR_NOTE_GROUP_BY",
            GROUP_BY_HELP,
            "GROUP_BY",
            "label",
            "title",
        );
        let command = with_switch(
            command,
            "dry_run",
            "dry-run",
            Some('d'),
            "PR_NOTE_DRY_RUN",
            DRY_RUN_HELP,
        );
        assert(options_of(command) =~= cli());
        command
    }

    /// The settings that a command line gives, the name of the program
    /// first. What the command line leaves out is taken from the
    /// environment. A wrong command line, and one that asks for the help
    /// text or the version, comes back as an error.
    pub fn try_parse_from(argv: &[&str]) -> (settings: Result<Args, UsageError>)
        ensures
            settings matches Err(error) ==> error.exit_code == 0 || error.exit_code == USAGE_CODE,
    {
        let matches = match matches_of(Args::command(), argv) {
            Ok(matches) => matches,
            Err(error) => return Err(error),
        };
        Args::from_values(
            Values {
                host: text_of(&matches, "host"),
                owner: text_of(&matches, "owner"),
                repo: text_of(&matches, "repo"),
                base: text_of(&matches, "base"),
                head: text_of(&matches, "head"),
                token: text_of(&matches, "token"),
                template_path: text_of(&matches, "template_path"),
                group_by: text_of(&matches, "group_by"),
                dry_run: switch_of(&matches, "dry_run"),
            },
        )
    }
}

} // verus!
