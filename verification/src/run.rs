//! One run, step by step.
//!
//! A run asks the service for the commits that are not merged yet, has the
//! note rendered for the pull requests behind them, prints it, and, unless
//! it is a dry run, looks up the tracking pull request and updates it or
//! creates it. The library decides; the caller does what it is told and
//! hands back what came of it.

use vstd::prelude::*;
use vstd::string::*;

use crate::cli::{Args, Group};
use crate::doc::{classify, extended, ExtendedPullRequest, ExtendedPullRequestView};
use crate::github::client::{
    failure_of, failure_text, graphql_url_of, list_url_of, upsert_request_of, views, Client,
    GetUnMergedCommitsResult, UpsertRequest, UpsertRequestView,
};
use crate::github::graphql::{query_of, QueryBody, QueryBodyView, TransportError};
use crate::github::resolve::resolved;

verus! {

/// What a run waits for.
#[derive(Debug)]
pub enum State {
    /// The answer to the query.
    Querying,
    /// The rendered note.
    Rendering,
    /// The number of the tracking pull request, to send it this note.
    LookingUp { note: String },
    /// The answer to the update of the tracking pull request.
    Updating,
    /// The answer to the creation of the tracking pull request.
    Creating,
    /// Nothing: the run is over.
    Finished,
}

/// What came of something the caller was told to do.
#[derive(Debug)]
pub enum Event {
    /// The query was answered, or it failed.
    Answered(GetUnMergedCommitsResult),
    /// The note was rendered, or this is why it was not.
    Rendered(Result<String, String>),
    /// The open pull requests from the head branch to the base branch were
    /// listed: this is the number of the first, if there is one.
    LookedUp(Result<Option<i64>, TransportError>),
    /// The tracking pull request was updated or created: this is where it
    /// can be seen.
    Sent(Result<String, TransportError>),
}

/// What the caller is told to do.
#[derive(Debug)]
pub enum Action {
    /// Send the query, and hand back the answer as `Answered`.
    Query { url: String, token: String, body: QueryBody },
    /// Tell the user, as a warning.
    Warn(String),
    /// Tell the user.
    Say(String),
    /// Render the note for these pull requests, and hand it back as
    /// `Rendered`.
    Render { template_path: Option<String>, prs: Vec<ExtendedPullRequest> },
    /// List the open pull requests at this address, and hand back the
    /// number of the first as `LookedUp`.
    LookUp { url: String, token: String },
    /// Send this request, and hand back where the pull request can be seen
    /// as `Sent`.
    Send { token: String, request: UpsertRequest },
}

/// A run: what it is about and what it waits for.
#[derive(Debug)]
pub struct Run {
    pub client: Client,
    pub template_path: Option<String>,
    pub group_by: Option<Group>,
    pub dry_run: bool,
    pub state: State,
}

/// What a run waits for, as a plain value.
pub enum StateView {
    Querying,
    Rendering,
    LookingUp { note: Seq<char> },
    Updating,
    Creating,
    Finished,
}

/// What the caller is told to do, as a plain value.
pub enum ActionView {
    Query { url: Seq<char>, token: Seq<char>, body: QueryBodyView },
    Warn(Seq<char>),
    Say(Seq<char>),
    Render { template_path: Option<Seq<char>>, prs: Seq<ExtendedPullRequestView> },
    LookUp { url: Seq<char>, token: Seq<char> },
    Send { token: Seq<char>, request: UpsertRequestView },
}

impl View for State {
    type V = StateView;

    open spec fn view(&self) -> StateView {
        match *self {
            State::Querying => StateView::Querying,
            State::Rendering => StateView::Rendering,
            State::LookingUp { note } => StateView::LookingUp { note: note@ },
            State::Updating => StateView::Updating,
            State::Creating => StateView::Creating,
            State::Finished => StateView::Finished,
        }
    }
}

impl View for Action {
    type V = ActionView;

    open spec fn view(&self) -> ActionView {
        match *self {
            Action::Query { url, token, body } => ActionView::Query {
                url: url@,
                token: token@,
                body: body@,
            },
            Action::Warn(text) => ActionView::Warn(text@),
            Action::Say(text) => ActionView::Say(text@),
            Action::Render { template_path, prs } => ActionView::Render {
                template_path: path_text(template_path),
                prs: prs@.map_values(|pr: ExtendedPullRequest| pr@),
            },
            Action::LookUp { url, token } => ActionView::LookUp { url: url@, token: token@ },
            Action::Send { token, request } => ActionView::Send {
                token: token@,
                request: request@,
            },
        }
    }
}

/// The text of a path, where there is one.
pub open spec fn path_text(path: Option<String>) -> Option<Seq<char>> {
    match path {
        Some(path) => Some(path@),
        None => None,
    }
}

/// The plain values of a list of actions.
pub open spec fn action_views(actions: Seq<Action>) -> Seq<ActionView> {
    actions.map_values(|action: Action| action@)
}

/// What the user is told where no pull request is left to be merged.
pub open spec fn nothing_to_do(base: Seq<char>, head: Seq<char>) -> Seq<char> {
    "No unmerged PRs found between "@ + base + " and "@ + head + "."@
}

/// What the user is told where the note could not be rendered.
pub open spec fn not_rendered(reason: Seq<char>) -> Seq<char> {
    "Failed to render the PR note: "@ + reason
}

/// What the user is told where the tracking pull request could be neither
/// updated nor created.
pub open spec fn not_upserted() -> Seq<char> {
    "Failed to create or update the PR."@
}

/// The warnings that a comparison gives rise to.
pub open spec fn warnings_of(result: GetUnMergedCommitsResult) -> Seq<ActionView> {
    match failure_of(result) {
        Some(failure) => seq![ActionView::Warn(failure_text(failure))],
        None => Seq::empty(),
    }
}

/// What a run waits for first, and what is to be done for it.
pub open spec fn start_of(args: Args) -> (StateView, Seq<ActionView>) {
    (
        StateView::Querying,
        seq![
            ActionView::Query {
                url: graphql_url_of(args.host@),
                token: args.token@,
                body: query_of(args.owner@, args.repo@, args.base@, args.head@),
            },
        ],
    )
}

/// What a run waits for next, and what is to be done for it.
///
/// The answer to the query is resolved. With no pull request in it, the
/// user is told so and the run is over; else the note is to be rendered
/// for the pull requests, each under its group. A comparison that went
/// wrong is warned of first. The rendered note is printed. In a dry run
/// that is all; else the tracking pull request is to be looked up, then
/// updated where it is there and created where it is not, and the user is
/// told where to see it. A failure on the way is warned of and ends the
/// run. An event that the run does not wait for changes nothing.
pub open spec fn step_of(run: Run, event: Event) -> (StateView, Seq<ActionView>) {
    let client = run.client;
    match (run.state, event) {
        (State::Querying, Event::Answered(result)) => if resolved(result).len() == 0 {
            (
                StateView::Finished,
                warnings_of(result).push(ActionView::Say(nothing_to_do(client.base@, client.head@))),
            )
        } else {
            (
                StateView::Rendering,
                warnings_of(result).push(
                    ActionView::Render {
                        template_path: path_text(run.template_path),
                        prs: resolved(result).map_values(
                            |pr| extended(pr, run.group_by),
                        ),
                    },
                ),
            )
        },
        (State::Rendering, Event::Rendered(Ok(note))) => if run.dry_run {
            (StateView::Finished, seq![ActionView::Say(note@)])
        } else {
            (
                StateView::LookingUp { note: note@ },
                seq![
                    ActionView::Say(note@),
                    ActionView::LookUp {
                        url: list_url_of(
                            client.host@,
                            client.owner@,
                            client.repo@,
                            client.base@,
                            client.head@,
                        ),
                        token: client.token@,
                    },
                ],
            )
        },
        (State::Rendering, Event::Rendered(Err(reason))) => (
            StateView::Finished,
            seq![ActionView::Warn(not_rendered(reason@))],
        ),
        (State::LookingUp { note }, Event::LookedUp(Ok(existing))) => (
            if existing is Some {
                StateView::Updating
            } else {
                StateView::Creating
            },
            seq![
                ActionView::Send {
                    token: client.token@,
                    request: upsert_request_of(
                        client.host@,
                        client.owner@,
                        client.repo@,
                        client.base@,
                        client.head@,
                        note@,
                        existing,
                    ),
                },
            ],
        ),
        (State::LookingUp { note }, Event::LookedUp(Err(_))) => (
            StateView::Finished,
            seq![ActionView::Warn(not_upserted())],
        ),
        (State::Updating, Event::Sent(Ok(link))) => (
            StateView::Finished,
            seq![ActionView::Say("Updated PR: "@ + link@)],
        ),
        (State::Creating, Event::Sent(Ok(link))) => (
            StateView::Finished,
            seq![ActionView::Say("Created PR: "@ + link@)],
        ),
        (State::Updating, Event::Sent(Err(_))) => (
            StateView::Finished,
            seq![ActionView::Warn(not_upserted())],
        ),
        (State::Creating, Event::Sent(Err(_))) => (
            StateView::Finished,
            seq![ActionView::Warn(not_upserted())],
        ),
        _ => (run.state@, Seq::empty()),
    }
}

/// Whether a state is one in which the tracking pull request is being
/// looked up, updated or created.
pub open spec fn is_upserting(state: StateView) -> bool {
    state is LookingUp || state is Updating || state is Creating
}

/// Whether an action is a request about the tracking pull request.
pub open spec fn is_upsert(action: ActionView) -> bool {
    action is LookUp || action is Send
}

/// A dry run leaves the tracking pull request alone: it never comes to
/// look it up, and is never told to send anything about it.
pub proof fn lemma_dry_run_sends_nothing(run: Run, event: Event)
    requires
        run.dry_run,
        !is_upserting(run.state@),
    ensures
        !is_upserting(step_of(run, event).0),
        forall|i: int|
            0 <= i < step_of(run, event).1.len() ==> !is_upsert(#[trigger] step_of(run, event).1[i]),
{
}

/// Once the tracking pull request was looked up, one request is sent: an
/// update where it is there, a creation where it is not. Never both, never
/// neither.
pub proof fn lemma_update_or_create(run: Run, existing: Option<i64>)
    requires
        run.state is LookingUp,
    ensures
        ({
            let (next, actions) = step_of(run, Event::LookedUp(Ok(existing)));
            &&& actions.len() == 1
            &&& actions[0] is Send
            &&& actions[0]->request is Update <==> existing is Some
            &&& actions[0]->request is Create <==> existing is None
            &&& next is Updating <==> existing is Some
            &&& next is Creating <==> existing is None
        }),
{
}

/// Where nothing was resolved, the user is told so and the run is over:
/// nothing is rendered and nothing is sent. Where that is because the
/// comparison went wrong, the user is warned of it first.
pub proof fn lemma_nothing_resolved(run: Run, result: GetUnMergedCommitsResult)
    requires
        run.state is Querying,
        resolved(result).len() == 0,
    ensures
        ({
            let (next, actions) = step_of(run, Event::Answered(result));
            let told = ActionView::Say(nothing_to_do(run.client.base@, run.client.head@));
            &&& next is Finished
            &&& failure_of(result) matches Some(failure) ==> actions == seq![
                ActionView::Warn(failure_text(failure)),
                told,
            ]
            &&& failure_of(result) is None ==> actions == seq![told]
        }),
{
    let (next, actions) = step_of(run, Event::Answered(result));
    let told = ActionView::Say(nothing_to_do(run.client.base@, run.client.head@));
    match failure_of(result) {
        Some(failure) => {
            assert(actions =~= seq![ActionView::Warn(failure_text(failure)), told]);
        },
        None => {
            assert(actions =~= seq![told]);
        },
    }
}

/// A comparison that went wrong is one in which nothing was resolved.
pub proof fn lemma_failure_resolves_nothing(result: GetUnMergedCommitsResult)
    requires
        failure_of(result) is Some,
    ensures
        resolved(result).len() == 0,
{
}

/// A run that is over stays over, and asks for nothing more.
pub proof fn lemma_finished_is_final(run: Run, event: Event)
    requires
        run.state is Finished,
    ensures
        step_of(run, event) == (StateView::Finished, Seq::<ActionView>::empty()),
{
}

/// A copy of an optional path.
fn copy_path(path: &Option<String>) -> (copy: Option<String>)
    ensures
        copy == *path,
{
    match path {
        Some(path) => Some(path.clone()),
        None => None,
    }
}

/// No actions.
fn nothing() -> (actions: Vec<Action>)
    ensures
        actions@.len() == 0,
        action_views(actions@) == Seq::<ActionView>::empty(),
{
    let actions: Vec<Action> = Vec::new();
    assert(action_views(actions@) =~= Seq::<ActionView>::empty());
    actions
}

/// One action more.
fn then(actions: Vec<Action>, action: Action) -> (longer: Vec<Action>)
    ensures
        longer@.len() == actions@.len() + 1,
        action_views(longer@) == action_views(actions@).push(action@),
{
    let mut longer = actions;
    longer.push(action);
    assert(action_views(longer@) =~= action_views(actions@).push(action@));
    longer
}

/// The warning that the tracking pull request could be neither updated nor
/// created.
fn warn_not_upserted() -> (actions: Vec<Action>)
    ensures
        action_views(actions@) == seq![ActionView::Warn(not_upserted())],
{
    then(nothing(), Action::Warn("Failed to create or update the PR.".to_owned()))
}

impl Run {
    /// Starts a run: the query is to be sent.
    pub fn start(args: Args) -> (started: (Run, Vec<Action>))
        ensures
            started.0.client.host == args.host,
            started.0.client.owner == args.owner,
            started.0.client.repo == args.repo,
            started.0.client.base == args.base,
            started.0.client.head == args.head,
            started.0.client.token == args.token,
            started.0.template_path == args.template_path,
            started.0.group_by == args.group_by,
            started.0.dry_run == args.dry_run,
            (started.0.state@, action_views(started.1@)) == start_of(args),
            started.1@.len() == 1,
    {
        let template_path = copy_path(&args.template_path);
        let group_by = args.group_by;
        let dry_run = args.dry_run;
        let token = args.token.clone();
        let client = Client::new(args);
        let query = Action::Query { url: client.graphql_url(), token, body: client.query() };
        let run = Run { client, template_path, group_by, dry_run, state: State::Querying };
        (run, then(nothing(), query))
    }

    /// Takes in what came of the last action, and says what to do next.
    /// What the run is about stays as it is.
    pub fn step(&mut self, event: Event) -> (actions: Vec<Action>)
        ensures
            final(self).client == old(self).client,
            final(self).template_path == old(self).template_path,
            final(self).group_by == old(self).group_by,
            final(self).dry_run == old(self).dry_run,
            (final(self).state@, action_views(actions@)) == step_of(*old(self), event),
            actions@.len() == step_of(*old(self), event).1.len(),
    {
        let actions = match event {
            Event::Answered(result) => self.answered(result),
            Event::Rendered(rendered) => self.rendered(rendered),
            Event::LookedUp(looked_up) => self.looked_up(looked_up),
            Event::Sent(sent) => self.sent(sent),
        };
        assert(action_views(actions@).len() == actions@.len());
        actions
    }

    /// The query was answered: the pull requests are resolved and, if
    /// there are any, handed on under their groups.
    fn answered(&mut self, result: GetUnMergedCommitsResult) -> (actions: Vec<Action>)
        ensures
            final(self).client == old(self).client,
            final(self).template_path == old(self).template_path,
            final(self).group_by == old(self).group_by,
            final(self).dry_run == old(self).dry_run,
            (final(self).state@, action_views(actions@)) == step_of(
                *old(self),
                Event::Answered(result),
            ),
    {
        if !matches!(self.state, State::Querying) {
            return nothing();
        }
        let warnings = match self.client.failure(&result) {
            Some(failure) => then(nothing(), Action::Warn(failure.message())),
            None => nothing(),
        };
        let prs = self.client.extract_pr_info(result);
        if prs.len() == 0 {
            let mut text = "No unmerged PRs found between ".to_owned();
            text.append(self.client.base.as_str());
            text.append(" and ");
            text.append(self.client.head.as_str());
            text.append(".");
            self.state = State::Finished;
            then(warnings, Action::Say(text))
        } else {
            let classified = classify(prs.as_slice(), &self.group_by);
            proof {
                assert forall|i: int| 0 <= i < classified@.len() implies (
                #[trigger] classified@[i])@ == extended(resolved(result)[i], self.group_by) by {
                    assert(views(prs@)[i] == prs@[i]@);
                }
                assert(classified@.map_values(|pr: ExtendedPullRequest| pr@) =~= resolved(
                    result,
                ).map_values(|pr| extended(pr, self.group_by)));
            }
            self.state = State::Rendering;
            then(
                warnings,
                Action::Render { template_path: copy_path(&self.template_path), prs: classified },
            )
        }
    }

    /// The note was rendered, or not: it is printed and, unless this is a
    /// dry run, the tracking pull request is looked up.
    fn rendered(&mut self, rendered: Result<String, String>) -> (actions: Vec<Action>)
        ensures
            final(self).client == old(self).client,
            final(self).template_path == old(self).template_path,
            final(self).group_by == old(self).group_by,
            final(self).dry_run == old(self).dry_run,
            (final(self).state@, action_views(actions@)) == step_of(
                *old(self),
                Event::Rendered(rendered),
            ),
    {
        if !matches!(self.state, State::Rendering) {
            return nothing();
        }
        match rendered {
            Ok(note) => {
                let say = then(nothing(), Action::Say(note.clone()));
                if self.dry_run {
                    self.state = State::Finished;
                    say
                } else {
                    let look_up = Action::LookUp {
                        url: self.client.list_url(),
                        token: self.client.token.clone(),
                    };
                    self.state = State::LookingUp { note };
                    then(say, look_up)
                }
            },
            Err(reason) => {
                let mut text = "Failed to render the PR note: ".to_owned();
                text.append(reason.as_str());
                self.state = State::Finished;
                then(nothing(), Action::Warn(text))
            },
        }
    }

    /// The tracking pull request was looked up: it is updated where it is
    /// there, and created where it is not.
    fn looked_up(&mut self, looked_up: Result<Option<i64>, TransportError>) -> (actions: Vec<
        Action,
    >)
        ensures
            final(self).client == old(self).client,
            final(self).template_path == old(self).template_path,
            final(self).group_by == old(self).group_by,
            final(self).dry_run == old(self).dry_run,
            (final(self).state@, action_views(actions@)) == step_of(
                *old(self),
                Event::LookedUp(looked_up),
            ),
    {
        let request = match &self.state {
            State::LookingUp { note } => match looked_up {
                Ok(existing) => Some((self.client.upsert_request(note.as_str(), existing), existing)),
                Err(_) => None,
            },
            _ => {
                return nothing();
            },
        };
        match request {
            Some((request, existing)) => {
                self.state = match existing {
                    Some(_) => State::Updating,
                    None => State::Creating,
                };
                then(nothing(), Action::Send { token: self.client.token.clone(), request })
            },
            None => {
                self.state = State::Finished;
                warn_not_upserted()
            },
        }
    }

    /// The update or the creation was answered: the user is told where the
    /// pull request can be seen.
    fn sent(&mut self, sent: Result<String, TransportError>) -> (actions: Vec<Action>)
        ensures
            final(self).client == old(self).client,
            final(self).template_path == old(self).template_path,
            final(self).group_by == old(self).group_by,
            final(self).dry_run == old(self).dry_run,
            (final(self).state@, action_views(actions@)) == step_of(*old(self), Event::Sent(sent)),
    {
        let mut text = match &self.state {
            State::Updating => "Updated PR: ".to_owned(),
            State::Creating => "Created PR: ".to_owned(),
            _ => {
                return nothing();
            },
        };
        self.state = State::Finished;
        match sent {
            Ok(link) => {
                text.append(link.as_str());
                then(nothing(), Action::Say(text))
            },
            Err(_) => warn_not_upserted(),
        }
    }
}

} // verus!
