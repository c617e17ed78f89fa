//! The group that each pull request of a note stands under.
//!
//! Where nothing is grouped, every pull request is `ungrouped`. Grouped by
//! label, a pull request stands under its labels, in the order it has
//! them. Grouped by title, it stands under the tags that its title starts
//! with, in ascending order. A pull request without labels, or without
//! tags, stands under `others`.

pub mod tags;

use vstd::prelude::*;
use vstd::string::*;

use crate::cli::Group;
use crate::github::client::{PullRequest, PullRequestView};
use crate::text::order::{in_order, lemma_in_order_sorts, sort_strings};
use crate::text::{join, join_strings, texts};

use tags::{is_tag_text, leading_tags, lemma_title_tags_lead, skip_spaces, title_tags};

verus! {

/// A pull request together with the group it stands under.
#[derive(Debug)]
pub struct ExtendedPullRequest {
    pub author: String,
    pub labels: Vec<String>,
    pub number: i64,
    pub title: String,
    pub body: String,
    pub group: String,
}

/// A grouped pull request as a plain value.
pub struct ExtendedPullRequestView {
    pub pr: PullRequestView,
    pub group: Seq<char>,
}

impl View for ExtendedPullRequest {
    type V = ExtendedPullRequestView;

    open spec fn view(&self) -> ExtendedPullRequestView {
        ExtendedPullRequestView {
            pr: PullRequestView {
                author: self.author@,
                labels: texts(self.labels@),
                number: self.number as int,
                title: self.title@,
                body: self.body@,
            },
            group: self.group@,
        }
    }
}

/// The group of every pull request where nothing is grouped.
pub open spec fn ungrouped() -> Seq<char> {
    "ungrouped"@
}

/// The group of a pull request that shows nothing to group it by.
pub open spec fn others() -> Seq<char> {
    "others"@
}

/// What stands between the parts of a group's name.
pub open spec fn separator() -> Seq<char> {
    " / "@
}

/// The group of a pull request: `ungrouped` where nothing is grouped; by
/// label, the labels in their order; by title, the tags that the title
/// starts with, in ascending order; `others` where there are no labels, or
/// no tags. The parts of a name stand apart by ` / `.
pub open spec fn group_of(pr: PullRequestView, group_by: Option<Group>) -> Seq<char> {
    match group_by {
        None => ungrouped(),
        Some(Group::Label) => if pr.labels.len() == 0 {
            others()
        } else {
            join(pr.labels, separator())
        },
        Some(Group::Title) => if title_tags(pr.title).len() == 0 {
            others()
        } else {
            join(in_order(title_tags(pr.title)), separator())
        },
    }
}

/// A pull request under its group.
pub open spec fn extended(pr: PullRequestView, group_by: Option<Group>) -> ExtendedPullRequestView {
    ExtendedPullRequestView { pr, group: group_of(pr, group_by) }
}

/// A title that does not start, behind its white space, with an opening
/// bracket has no tags, and a pull request with such a title, grouped by
/// title, stands under `others`.
pub proof fn lemma_no_bracket_no_tags(title: Seq<char>)
    requires
        skip_spaces(title, 0) >= title.len() || title[skip_spaces(title, 0)] != '[',
    ensures
        title_tags(title).len() == 0,
        forall|pr: PullRequestView|
            pr.title == title ==> #[trigger] group_of(pr, Some(Group::Title)) == others(),
{
}

/// A group has a name. The one exception is a pull request that is grouped
/// by its labels and has one label only, an empty one.
pub proof fn lemma_group_is_named(pr: PullRequestView, group_by: Option<Group>)
    requires
        !(group_by == Some(Group::Label) && pr.labels.len() == 1 && pr.labels[0].len() == 0),
    ensures
        group_of(pr, group_by).len() > 0,
{
    reveal_strlit("ungrouped");
    reveal_strlit("others");
    reveal_strlit(" / ");
    match group_by {
        None => {},
        Some(Group::Label) => {},
        Some(Group::Title) => {
            let tags = title_tags(pr.title);
            lemma_title_tags_lead(pr.title);
            lemma_in_order_sorts(tags);
            if tags.len() == 1 {
                assert(tags.drop_last() =~= Seq::<Seq<char>>::empty());
                assert(in_order(tags.drop_last()) =~= Seq::<Seq<char>>::empty());
                assert(in_order(tags)[0] == tags[0]);
                assert(is_tag_text(tags[0]));
            }
        },
    }
}

impl PullRequest {
    /// The name of the group that the pull request stands under.
    pub fn group(&self, group_by: &Option<Group>) -> (group: String)
        ensures
            group@ == group_of(self@, *group_by),
    {
        match group_by {
            Some(Group::Label) => {
                if self.labels.len() == 0 {
                    "others".to_owned()
                } else {
                    join_strings(&self.labels, " / ")
                }
            },
            Some(Group::Title) => {
                let tags = leading_tags(self.title.as_str());
                if tags.len() == 0 {
                    "others".to_owned()
                } else {
                    let tags = sort_strings(tags);
                    join_strings(&tags, " / ")
                }
            },
            None => "ungrouped".to_owned(),
        }
    }

    /// Puts the pull request under its group. Its content stays as it is.
    pub fn into_extended(self, group_by: &Option<Group>) -> (grouped: ExtendedPullRequest)
        ensures
            grouped@ == extended(self@, *group_by),
            *group_by is None ==> grouped.group@ == "ungrouped"@,
            *group_by == Some(Group::Label) && self.labels@.len() == 0 ==> grouped.group@
                == "others"@,
            *group_by == Some(Group::Title) && title_tags(self.title@).len() == 0
                ==> grouped.group@ == "others"@,
    {
        let group = self.group(group_by);
        ExtendedPullRequest {
            author: self.author,
            labels: self.labels,
            number: self.number,
            title: self.title,
            body: self.body,
            group,
        }
    }
}

/// Puts each pull request under its group. The pull requests keep their
/// order and their content.
pub fn classify(prs: &[PullRequest], group_by: &Option<Group>) -> (classified: Vec<
    ExtendedPullRequest,
>)
    ensures
        classified@.len() == prs@.len(),
        forall|i: int|
            0 <= i < prs@.len() ==> (#[trigger] classified@[i])@ == extended(prs@[i]@, *group_by),
{
    let mut classified: Vec<ExtendedPullRequest> = Vec::new();
    let mut i: usize = 0;
    while i < prs.len()
        invariant
            0 <= i <= prs@.len(),
            classified@.len() == i,
            forall|k: int|
                0 <= k < i ==> (#[trigger] classified@[k])@ == extended(prs@[k]@, *group_by),
        decreases prs@.len() - i,
    {
        classified.push(prs[i].clone().into_extended(group_by));
        i += 1;
    }
    classified
}

} // verus!
