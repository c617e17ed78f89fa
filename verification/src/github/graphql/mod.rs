//! The branch comparison query and the shape of its answer.
//!
//! Every level of the answer may be missing. A missing level stands for "no
//! commits" or "no pull requests" below it, never for a failure.

use vstd::prelude::*;

verus! {

/// The name of the query's operation.
pub const OPERATION_NAME: &'static str = "GetUnMergedCommits";

/// The query: the commits that the head branch holds and the base branch
/// lacks, each with the pull requests it belongs to.
pub const QUERY: &'static str =
    "query GetUnMergedCommits($owner: String!, $repo: String!, $base: String!, $head: String!) {
  repository(owner: $owner, name: $repo) {
    ref(qualifiedName: $base) {
      compare(headRef: $head) {
        commits(first: 100) {
          nodes {
            associatedPullRequests(first: 10) {
              nodes {
                number
                title
                body
                author {
                  __typename
                  login
                }
                labels(first: 10) {
                  nodes {
                    name
                  }
                }
              }
            }
          }
        }
      }
    }
  }
}
";

/// What a comparison is asked about.
#[derive(Debug)]
pub struct Variables {
    pub owner: String,
    pub repo: String,
    pub base: String,
    pub head: String,
}

/// The body of a request: the query and what it is asked about.
#[derive(Debug)]
pub struct QueryBody {
    pub variables: Variables,
    pub query: &'static str,
    pub operation_name: &'static str,
}

/// The body of a request as a plain value.
pub struct QueryBodyView {
    pub owner: Seq<char>,
    pub repo: Seq<char>,
    pub base: Seq<char>,
    pub head: Seq<char>,
    pub query: Seq<char>,
    pub operation_name: Seq<char>,
}

impl View for QueryBody {
    type V = QueryBodyView;

    open spec fn view(&self) -> QueryBodyView {
        QueryBodyView {
            owner: self.variables.owner@,
            repo: self.variables.repo@,
            base: self.variables.base@,
            head: self.variables.head@,
            query: self.query@,
            operation_name: self.operation_name@,
        }
    }
}

/// The body of the request that compares `base` with `head` in the
/// repository `repo` of `owner`.
pub open spec fn query_of(
    owner: Seq<char>,
    repo: Seq<char>,
    base: Seq<char>,
    head: Seq<char>,
) -> QueryBodyView {
    QueryBodyView { owner, repo, base, head, query: QUERY@, operation_name: OPERATION_NAME@ }
}

/// The comparison of a base branch with a head branch.
#[derive(Debug)]
pub struct GetUnMergedCommits;

impl GetUnMergedCommits {
    /// The body of the request that asks about the given branches.
    pub fn build_query(variables: Variables) -> (body: QueryBody)
        ensures
            body.variables == variables,
            body@ == query_of(variables.owner@, variables.repo@, variables.base@, variables.head@),
    {
        QueryBody { variables, query: QUERY, operation_name: OPERATION_NAME }
    }
}

/// A label of a pull request.
#[derive(Debug)]
pub struct Label {
    pub name: String,
}

/// The labels of a pull request, in the order the service lists them.
#[derive(Debug)]
pub struct LabelConnection {
    pub nodes: Option<Vec<Option<Label>>>,
}

/// The account that opened a pull request.
#[derive(Debug)]
pub struct Actor {
    pub login: String,
}

/// A pull request as the service reports it for a commit.
#[derive(Debug)]
pub struct PullRequestRef {
    pub number: i64,
    pub title: String,
    pub body: String,
    pub author: Option<Actor>,
    pub labels: Option<LabelConnection>,
}

/// The pull requests associated with one commit.
#[derive(Debug)]
pub struct PullRequestConnection {
    pub nodes: Option<Vec<Option<PullRequestRef>>>,
}

/// A commit that the head branch holds and the base branch lacks.
#[derive(Debug)]
pub struct CommitNode {
    pub associated_pull_requests: Option<PullRequestConnection>,
}

/// The commits of a comparison.
#[derive(Debug)]
pub struct CommitConnection {
    pub nodes: Option<Vec<Option<CommitNode>>>,
}

/// The comparison of the base branch with the head branch.
#[derive(Debug)]
pub struct Comparison {
    pub commits: CommitConnection,
}

/// The base branch.
#[derive(Debug)]
pub struct Ref {
    pub compare: Option<Comparison>,
}

/// The repository that was asked about.
#[derive(Debug)]
pub struct Repository {
    pub ref_: Option<Ref>,
}

/// The data of an answer.
#[derive(Debug)]
pub struct ResponseData {
    pub repository: Option<Repository>,
}

/// An answer of the service: data, error messages, or both.
#[derive(Debug)]
pub struct Response {
    pub data: Option<ResponseData>,
    pub errors: Option<Vec<String>>,
}

/// The request never produced an answer.
#[derive(Debug)]
pub struct TransportError {
    pub message: String,
}

/// Drops the missing entries of a list, keeping the order of the others.
pub open spec fn present<T>(nodes: Seq<Option<T>>) -> Seq<T>
    decreases nodes.len(),
{
    if nodes.len() == 0 {
        Seq::empty()
    } else {
        match nodes.last() {
            Some(node) => present(nodes.drop_last()).push(node),
            None => present(nodes.drop_last()),
        }
    }
}

/// The entries of an optional list: none where the list itself is missing.
pub open spec fn nodes_of<T>(nodes: Option<Vec<Option<T>>>) -> Seq<T> {
    match nodes {
        Some(list) => present(list@),
        None => Seq::empty(),
    }
}

/// The commits of an answer's data. A repository, branch or comparison that
/// is missing leaves no commits.
pub open spec fn commits_of(data: ResponseData) -> Seq<CommitNode> {
    match data.repository {
        Some(repository) => match repository.ref_ {
            Some(base) => match base.compare {
                Some(comparison) => nodes_of(comparison.commits.nodes),
                None => Seq::empty(),
            },
            None => Seq::empty(),
        },
        None => Seq::empty(),
    }
}

/// The pull requests that one commit refers to.
pub open spec fn refs_of(commit: CommitNode) -> Seq<PullRequestRef> {
    match commit.associated_pull_requests {
        Some(connection) => nodes_of(connection.nodes),
        None => Seq::empty(),
    }
}

/// The pull requests that the commits refer to, commit by commit, in the
/// order they are met. A pull request occurs once for each commit that
/// refers to it.
pub open spec fn encountered(commits: Seq<CommitNode>) -> Seq<PullRequestRef>
    decreases commits.len(),
{
    if commits.len() == 0 {
        Seq::empty()
    } else {
        encountered(commits.drop_last()) + refs_of(commits.last())
    }
}

/// The names of a list of labels.
pub open spec fn names_in(labels: Seq<Label>) -> Seq<Seq<char>> {
    labels.map_values(|label: Label| label.name@)
}

/// The names of a pull request's labels, in the order the service lists
/// them; none where the labels are missing.
pub open spec fn label_names(labels: Option<LabelConnection>) -> Seq<Seq<char>> {
    match labels {
        Some(connection) => names_in(nodes_of(connection.nodes)),
        None => Seq::empty(),
    }
}

} // verus!
