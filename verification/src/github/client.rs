//! The repository a run is about: the addresses of its requests, what is
//! sent, and what is read from the answer.

use std::collections::HashSet;
use vstd::prelude::*;
use vstd::std_specs::hash::*;
use vstd::string::*;

use crate::cli::Args;
use crate::text::decimal::{decimal, decimal_string};
use crate::text::{after_first_line, copy_strings, first_line, split_first_line, texts};

use super::graphql::{
    commits_of, encountered, label_names, names_in, present, refs_of, CommitNode,
    query_of, GetUnMergedCommits, Label, PullRequestRef, QueryBody, Response, ResponseData,
    TransportError, Variables,
};
use super::resolve::{
    distinct_numbers, first_seen, has_number, lemma_first_seen_distinct, lemma_has_number_push,
    normalized, resolved,
};

verus! {

broadcast use group_hash_axioms;

/// What a branch comparison came back with: an answer, or no answer at all.
pub type GetUnMergedCommitsResult = Result<Response, TransportError>;

/// The repository and the two branches that a run is about.
#[derive(Debug)]
pub struct Client {
    pub host: String,
    pub owner: String,
    pub repo: String,
    pub base: String,
    pub head: String,
    pub token: String,
}

/// A pull request with nothing left open: it has an author and a list of
/// labels, whatever the service left out.
#[derive(Debug)]
pub struct PullRequest {
    pub author: String,
    pub labels: Vec<String>,
    pub number: i64,
    pub title: String,
    pub body: String,
}

/// A pull request as a plain value.
pub struct PullRequestView {
    pub author: Seq<char>,
    pub labels: Seq<Seq<char>>,
    pub number: int,
    pub title: Seq<char>,
    pub body: Seq<char>,
}

impl View for PullRequest {
    type V = PullRequestView;

    open spec fn view(&self) -> PullRequestView {
        PullRequestView {
            author: self.author@,
            labels: texts(self.labels@),
            number: self.number as int,
            title: self.title@,
            body: self.body@,
        }
    }
}

/// The plain values of a list of pull requests.
pub open spec fn views(prs: Seq<PullRequest>) -> Seq<PullRequestView> {
    prs.map_values(|pr: PullRequest| pr@)
}

/// What is sent to create or update the tracking pull request.
#[derive(Debug)]
pub enum UpsertRequest {
    /// The tracking pull request is there: its title and body are replaced
    /// and it stays open.
    Update { url: String, title: String, body: String, state: String },
    /// There is none yet: one is opened from the head branch to the base
    /// branch.
    Create { url: String, title: String, head: String, base: String, body: String },
}

/// A request as a plain value.
pub enum UpsertRequestView {
    Update { url: Seq<char>, title: Seq<char>, body: Seq<char>, state: Seq<char> },
    Create { url: Seq<char>, title: Seq<char>, head: Seq<char>, base: Seq<char>, body: Seq<char> },
}

impl View for UpsertRequest {
    type V = UpsertRequestView;

    open spec fn view(&self) -> UpsertRequestView {
        match *self {
            UpsertRequest::Update { url, title, body, state } => UpsertRequestView::Update {
                url: url@,
                title: title@,
                body: body@,
                state: state@,
            },
            UpsertRequest::Create { url, title, head, base, body } => UpsertRequestView::Create {
                url: url@,
                title: title@,
                head: head@,
                base: base@,
                body: body@,
            },
        }
    }
}

/// Why a comparison holds no pull requests although none were looked for.
#[derive(Debug, Clone, Copy, PartialEq, Eq, Structural)]
pub enum Failure {
    /// The request never produced an answer.
    Transport,
    /// The service answered, with errors and without data.
    Query,
}

/// The host of the public service. Any other host is one of an enterprise
/// installation, whose API stands under a path of its own.
pub open spec fn public_host() -> Seq<char> {
    "api.github.com"@
}

/// The address that queries are sent to.
pub open spec fn graphql_url_of(host: Seq<char>) -> Seq<char> {
    if host == public_host() {
        "https://"@ + host + "/graphql"@
    } else {
        "https://"@ + host + "/api/graphql"@
    }
}

/// The address of a repository.
pub open spec fn repo_url_of(host: Seq<char>, owner: Seq<char>, repo: Seq<char>) -> Seq<char> {
    if host == public_host() {
        "https://"@ + host + "/repos/"@ + owner + "/"@ + repo
    } else {
        "https://"@ + host + "/api/v3/repos/"@ + owner + "/"@ + repo
    }
}

/// The address that lists the open pull requests from a head branch to a
/// base branch.
pub open spec fn list_url_of(
    host: Seq<char>,
    owner: Seq<char>,
    repo: Seq<char>,
    base: Seq<char>,
    head: Seq<char>,
) -> Seq<char> {
    repo_url_of(host, owner, repo) + "/pulls?head="@ + owner + ":"@ + head + "&base="@ + base
        + "&state=open"@
}

/// What is sent for a note. The first line of the note is the title, what
/// follows the first line break is the body. Where the tracking pull
/// request is there, `existing` is its number, and it is updated; where it
/// is not, one is created.
pub open spec fn upsert_request_of(
    host: Seq<char>,
    owner: Seq<char>,
    repo: Seq<char>,
    base: Seq<char>,
    head: Seq<char>,
    note: Seq<char>,
    existing: Option<i64>,
) -> UpsertRequestView {
    match existing {
        Some(number) => UpsertRequestView::Update {
            url: repo_url_of(host, owner, repo) + "/pulls/"@ + decimal(number as int),
            title: first_line(note),
            body: after_first_line(note),
            state: "open"@,
        },
        None => UpsertRequestView::Create {
            url: repo_url_of(host, owner, repo) + "/pulls"@,
            title: first_line(note),
            head,
            base,
            body: after_first_line(note),
        },
    }
}

/// What to tell the user of a comparison that went wrong.
pub open spec fn failure_text(failure: Failure) -> Seq<char> {
    match failure {
        Failure::Transport => "Failed to get a valid response from GitHub GraphQL API."@,
        Failure::Query => "GraphQL errors occurred. Could not extract PR info."@,
    }
}

/// What went wrong with a comparison: nothing, where its answer has data.
pub open spec fn failure_of(result: GetUnMergedCommitsResult) -> Option<Failure> {
    match result {
        Ok(response) => if response.data is Some {
            None
        } else {
            Some(Failure::Query)
        },
        Err(_) => Some(Failure::Transport),
    }
}

impl Clone for PullRequest {
    fn clone(&self) -> (copy: PullRequest)
        ensures
            copy@ == self@,
    {
        PullRequest {
            author: self.author.clone(),
            labels: copy_strings(&self.labels),
            number: self.number,
            title: self.title.clone(),
            body: self.body.clone(),
        }
    }
}

impl PullRequest {
    /// Resolves a reference of the service: an author that is missing
    /// becomes `unknown`, labels that are missing become no labels.
    pub fn from_ref(node: &PullRequestRef) -> (pr: PullRequest)
        ensures
            pr@ == normalized(*node),
            node.author is None ==> pr.author@ == "unknown"@,
            node.labels is None ==> pr.labels@.len() == 0,
    {
        let author = match opt_ref(&node.author) {
            Some(actor) => actor.login.clone(),
            None => "unknown".to_owned(),
        };
        let labels = match opt_ref(&node.labels) {
            Some(connection) => match opt_ref(&connection.nodes) {
                Some(nodes) => names_of(nodes),
                None => Vec::new(),
            },
            None => Vec::new(),
        };
        let pr = PullRequest {
            author,
            labels,
            number: node.number,
            title: node.title.clone(),
            body: node.body.clone(),
        };
        assert(pr@.labels =~= label_names(node.labels));
        pr
    }
}

impl Failure {
    /// What to tell the user.
    pub fn message(&self) -> (message: String)
        ensures
            message@ == failure_text(*self),
    {
        match self {
            Failure::Transport => {
                "Failed to get a valid response from GitHub GraphQL API.".to_owned()
            },
            Failure::Query => "GraphQL errors occurred. Could not extract PR info.".to_owned(),
        }
    }
}

/// Borrows the content of an optional value, when there is one.
pub fn opt_ref<T>(opt: &Option<T>) -> (r: Option<&T>)
    ensures
        r is Some <==> opt is Some,
        r is Some ==> *r->0 == opt->0,
{
    opt.as_ref()
}

/// The names of the labels that are there, in their order.
fn names_of(nodes: &Vec<Option<Label>>) -> (names: Vec<String>)
    ensures
        texts(names@) == names_in(present(nodes@)),
{
    let mut names: Vec<String> = Vec::new();
    let mut i: usize = 0;
    while i < nodes.len()
        invariant
            0 <= i <= nodes.len(),
            texts(names@) == names_in(present(nodes@.take(i as int))),
        decreases nodes.len() - i,
    {
        let ghost shown = present(nodes@.take(i as int));
        let ghost before = names@;
        proof {
            assert(nodes@.take(i + 1).drop_last() == nodes@.take(i as int));
        }
        if let Some(label) = opt_ref(&nodes[i]) {
            names.push(label.name.clone());
            proof {
                assert(texts(names@) =~= texts(before).push(label.name@));
                assert(names_in(shown.push(*label)) =~= names_in(shown).push(label.name@));
            }
        }
        i += 1;
    }
    proof {
        assert(nodes@.take(nodes.len() as int) == nodes@);
    }
    names
}

/// The list of commits of an answer's data, where every level down to it
/// is there.
fn commit_nodes(data: &ResponseData) -> (nodes: Option<&Vec<Option<CommitNode>>>)
    ensures
        match nodes {
            Some(list) => commits_of(*data) == present(list@),
            None => commits_of(*data) == Seq::<CommitNode>::empty(),
        },
{
    let repository = match opt_ref(&data.repository) {
        Some(repository) => repository,
        None => return None,
    };
    let base = match opt_ref(&repository.ref_) {
        Some(base) => base,
        None => return None,
    };
    let comparison = match opt_ref(&base.compare) {
        Some(comparison) => comparison,
        None => return None,
    };
    opt_ref(&comparison.commits.nodes)
}

/// The list of pull requests of a commit, where it is there.
fn pull_request_nodes(commit: &CommitNode) -> (nodes: Option<&Vec<Option<PullRequestRef>>>)
    ensures
        match nodes {
            Some(list) => refs_of(*commit) == present(list@),
            None => refs_of(*commit) == Seq::<PullRequestRef>::empty(),
        },
{
    match opt_ref(&commit.associated_pull_requests) {
        Some(connection) => opt_ref(&connection.nodes),
        None => None,
    }
}

/// Takes in one reference behind those read so far: kept if its number is
/// new, passed over if not.
fn take_in(
    prs: &mut Vec<PullRequest>,
    seen: &mut HashSet<i64>,
    node: &PullRequestRef,
    Ghost(read): Ghost<Seq<PullRequestRef>>,
)
    requires
        views(old(prs)@) == first_seen(read),
        forall|n: i64| old(seen)@.contains(n) <==> has_number(views(old(prs)@), n as int),
    ensures
        views(final(prs)@) == first_seen(read.push(*node)),
        forall|n: i64| final(seen)@.contains(n) <==> has_number(views(final(prs)@), n as int),
{
    let ghost kept = views(prs@);
    proof {
        assert(read.push(*node).drop_last() == read);
    }
    if seen.insert(node.number) {
        let pr = PullRequest::from_ref(node);
        prs.push(pr);
        proof {
            assert(views(prs@) =~= kept.push(pr@));
            assert forall|n: i64| seen@.contains(n) <==> has_number(views(prs@), n as int) by {
                lemma_has_number_push(kept, pr@, n as int);
            }
        }
    }
}

impl Client {
    /// Takes the repository, the branches and the token from the settings.
    pub fn new(args: Args) -> (client: Client)
        ensures
            client.host == args.host,
            client.owner == args.owner,
            client.repo == args.repo,
            client.base == args.base,
            client.head == args.head,
            client.token == args.token,
    {
        Client {
            host: args.host,
            owner: args.owner,
            repo: args.repo,
            base: args.base,
            head: args.head,
            token: args.token,
        }
    }

    /// The address that queries are sent to.
    pub fn graphql_url(&self) -> (url: String)
        ensures
            url@ == graphql_url_of(self.host@),
    {
        let mut url = "https://".to_owned();
        url.append(self.host.as_str());
        if self.host == "api.github.com".to_owned() {
            url.append("/graphql");
        } else {
            url.append("/api/graphql");
        }
        url
    }

    /// The request that asks for the commits that the head branch holds
    /// and the base branch lacks.
    pub fn query(&self) -> (body: QueryBody)
        ensures
            body@ == query_of(self.owner@, self.repo@, self.base@, self.head@),
    {
        GetUnMergedCommits::build_query(
            Variables {
                owner: self.owner.clone(),
                repo: self.repo.clone(),
                base: self.base.clone(),
                head: self.head.clone(),
            },
        )
    }

    /// The address of the repository.
    pub fn repo_url(&self) -> (url: String)
        ensures
            url@ == repo_url_of(self.host@, self.owner@, self.repo@),
    {
        let mut url = "https://".to_owned();
        url.append(self.host.as_str());
        if self.host == "api.github.com".to_owned() {
            url.append("/repos/");
        } else {
            url.append("/api/v3/repos/");
        }
        url.append(self.owner.as_str());
        url.append("/");
        url.append(self.repo.as_str());
        url
    }

    /// The address that lists the open pull requests from the head branch
    /// to the base branch: the tracking pull request, if it is there.
    pub fn list_url(&self) -> (url: String)
        ensures
            url@ == list_url_of(self.host@, self.owner@, self.repo@, self.base@, self.head@),
    {
        let mut url = self.repo_url();
        url.append("/pulls?head=");
        url.append(self.owner.as_str());
        url.append(":");
        url.append(self.head.as_str());
        url.append("&base=");
        url.append(self.base.as_str());
        url.append("&state=open");
        url
    }

    /// What is sent for a note: an update of the tracking pull request
    /// where `existing` is its number, the creation of one where there is
    /// none. Never both, never neither.
    pub fn upsert_request(&self, note: &str, existing: Option<i64>) -> (request: UpsertRequest)
        ensures
            request@ == upsert_request_of(
                self.host@,
                self.owner@,
                self.repo@,
                self.base@,
                self.head@,
                note@,
                existing,
            ),
            request is Update <==> existing is Some,
            request is Create <==> existing is None,
    {
        let (title, body) = split_first_line(note);
        let mut url = self.repo_url();
        match existing {
            Some(number) => {
                url.append("/pulls/");
                url.append(decimal_string(number).as_str());
                UpsertRequest::Update { url, title, body, state: "open".to_owned() }
            },
            None => {
                url.append("/pulls");
                UpsertRequest::Create {
                    url,
                    title,
                    head: self.head.clone(),
                    base: self.base.clone(),
                    body,
                }
            },
        }
    }

    /// What went wrong with a comparison, if anything did. A comparison
    /// that went wrong resolves to no pull requests, as one does that found
    /// none: this tells the two apart.
    pub fn failure(&self, data: &GetUnMergedCommitsResult) -> (failure: Option<Failure>)
        ensures
            failure == failure_of(*data),
            failure is Some ==> resolved(*data).len() == 0,
    {
        match data {
            Ok(response) => match opt_ref(&response.data) {
                Some(_) => None,
                None => Some(Failure::Query),
            },
            Err(_) => Some(Failure::Transport),
        }
    }

    /// The pull requests behind the commits of a comparison, each once, in
    /// the order they are first met, with the content of the reference met
    /// first. A level of the answer that is missing holds no pull
    /// requests; so does an answer without data, and no answer at all.
    pub fn extract_pr_info(&self, data: GetUnMergedCommitsResult) -> (prs: Vec<PullRequest>)
        ensures
            views(prs@) == resolved(data),
            distinct_numbers(views(prs@)),
            forall|i: int, j: int|
                0 <= i < j < prs@.len() ==> #[trigger] prs@[i].number != #[trigger] prs@[j].number,
            failure_of(data) is Some ==> prs@.len() == 0,
    {
        let mut prs: Vec<PullRequest> = Vec::new();
        let mut seen: HashSet<i64> = HashSet::new();
        let response = match data {
            Ok(response) => response,
            Err(_) => return prs,
        };
        let data = match response.data {
            Some(data) => data,
            None => return prs,
        };
        let ghost mut read: Seq<PullRequestRef> = Seq::empty();
        proof {
            assert(views(prs@) =~= first_seen(read));
            assert forall|n: i64| seen@.contains(n) <==> has_number(views(prs@), n as int) by {}
        }
        if let Some(commits) = commit_nodes(&data) {
            let mut i: usize = 0;
            while i < commits.len()
                invariant
                    0 <= i <= commits.len(),
                    read == encountered(present(commits@.take(i as int))),
                    views(prs@) == first_seen(read),
                    forall|n: i64| seen@.contains(n) <==> has_number(views(prs@), n as int),
                decreases commits.len() - i,
            {
                let ghost before = read;
                proof {
                    assert(commits@.take(i + 1).drop_last() == commits@.take(i as int));
                }
                if let Some(commit) = opt_ref(&commits[i]) {
                    proof {
                        assert(present(commits@.take(i + 1)).drop_last() == present(
                            commits@.take(i as int),
                        ));
                    }
                    if let Some(nodes) = pull_request_nodes(commit) {
                        let mut j: usize = 0;
                        while j < nodes.len()
                            invariant
                                0 <= j <= nodes.len(),
                                read == before + present(nodes@.take(j as int)),
                                views(prs@) == first_seen(read),
                                forall|n: i64|
                                    seen@.contains(n) <==> has_number(views(prs@), n as int),
                            decreases nodes.len() - j,
                        {
                            proof {
                                assert(nodes@.take(j + 1).drop_last() == nodes@.take(j as int));
                            }
                            if let Some(node) = opt_ref(&nodes[j]) {
                                take_in(&mut prs, &mut seen, node, Ghost(read));
                                proof {
                                    read = read.push(*node);
                                }
                            }
                            j += 1;
                        }
                        proof {
                            assert(nodes@.take(nodes.len() as int) == nodes@);
                        }
                    }
                }
                i += 1;
            }
            proof {
                assert(commits@.take(commits.len() as int) == commits@);
            }
        }
        proof {
            lemma_first_seen_distinct(read);
            assert forall|i: int, j: int| 0 <= i < j < prs@.len() implies #[trigger] prs@[i].number
                != #[trigger] prs@[j].number by {
                assert(views(prs@)[i].number != views(prs@)[j].number);
            }
        }
        prs
    }
}

} // verus!
