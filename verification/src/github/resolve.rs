//! What an answer of the service resolves to, and what holds of it.
//!
//! The references of all commits are read in the order they are met. Each
//! number is kept once, with the place and the content of the reference
//! that was met first.

use vstd::prelude::*;

use super::client::{GetUnMergedCommitsResult, PullRequestView};
use super::graphql::{commits_of, encountered, label_names, PullRequestRef};

verus! {

/// The login that stands for an author the service did not name.
pub open spec fn unknown_author() -> Seq<char> {
    "unknown"@
}

/// What a reference of the service resolves to: a missing author becomes
/// `unknown`, missing labels become no labels, the rest is kept.
pub open spec fn normalized(node: PullRequestRef) -> PullRequestView {
    PullRequestView {
        author: match node.author {
            Some(actor) => actor.login@,
            None => unknown_author(),
        },
        labels: label_names(node.labels),
        number: node.number as int,
        title: node.title@,
        body: node.body@,
    }
}

/// Whether one of the pull requests has the given number.
pub open spec fn has_number(prs: Seq<PullRequestView>, number: int) -> bool {
    exists|i: int| 0 <= i < prs.len() && #[trigger] prs[i].number == number
}

/// The references with every number kept once: a reference whose number was
/// met before is passed over, so the first one decides place and content.
pub open spec fn first_seen(refs: Seq<PullRequestRef>) -> Seq<PullRequestView>
    decreases refs.len(),
{
    if refs.len() == 0 {
        Seq::empty()
    } else {
        let kept = first_seen(refs.drop_last());
        if has_number(kept, refs.last().number as int) {
            kept
        } else {
            kept.push(normalized(refs.last()))
        }
    }
}

/// The references that a comparison came back with, in the order they are
/// met. No answer, and an answer without data, hold none.
pub open spec fn references(result: GetUnMergedCommitsResult) -> Seq<PullRequestRef> {
    match result {
        Ok(response) => match response.data {
            Some(data) => encountered(commits_of(data)),
            None => Seq::empty(),
        },
        Err(_) => Seq::empty(),
    }
}

/// The pull requests of a comparison: its references, every number kept
/// once.
pub open spec fn resolved(result: GetUnMergedCommitsResult) -> Seq<PullRequestView> {
    first_seen(references(result))
}

/// Whether no two of the pull requests share a number.
pub open spec fn distinct_numbers(prs: Seq<PullRequestView>) -> bool {
    forall|i: int, j: int|
        0 <= i < j < prs.len() ==> #[trigger] prs[i].number != #[trigger] prs[j].number
}

/// A pull request more brings its number, and no other.
pub proof fn lemma_has_number_push(prs: Seq<PullRequestView>, pr: PullRequestView, number: int)
    ensures
        has_number(prs.push(pr), number) <==> has_number(prs, number) || pr.number == number,
{
    let longer = prs.push(pr);
    if has_number(prs, number) {
        let i = choose|i: int| 0 <= i < prs.len() && #[trigger] prs[i].number == number;
        assert(longer[i].number == number);
    }
    if pr.number == number {
        assert(longer[prs.len() as int].number == number);
    }
    if has_number(longer, number) {
        let i = choose|i: int| 0 <= i < longer.len() && #[trigger] longer[i].number == number;
        if i < prs.len() {
            assert(prs[i].number == number);
        }
    }
}

/// No number occurs twice among the pull requests kept.
pub proof fn lemma_first_seen_distinct(refs: Seq<PullRequestRef>)
    ensures
        distinct_numbers(first_seen(refs)),
    decreases refs.len(),
{
    if refs.len() > 0 {
        lemma_first_seen_distinct(refs.drop_last());
        let kept = first_seen(refs.drop_last());
        let last = normalized(refs.last());
        if !has_number(kept, last.number) {
            assert forall|i: int, j: int| 0 <= i < j < kept.push(last).len() implies #[trigger]
                kept.push(last)[i].number != #[trigger] kept.push(last)[j].number by {
                if j == kept.len() {
                    assert(kept[i].number != last.number);
                }
            }
        }
    }
}

/// Whether one of the references has the given number.
pub open spec fn occurs(refs: Seq<PullRequestRef>, number: int) -> bool {
    exists|k: int| 0 <= k < refs.len() && #[trigger] refs[k].number == number
}

/// Whether the reference at `k` is the first one with its number.
pub open spec fn is_first_occurrence(refs: Seq<PullRequestRef>, k: int) -> bool {
    &&& 0 <= k < refs.len()
    &&& forall|m: int| 0 <= m < k ==> #[trigger] refs[m].number != refs[k].number
}

/// For each pull request kept, the place of the reference it was made from.
pub open spec fn origins(refs: Seq<PullRequestRef>) -> Seq<int>
    decreases refs.len(),
{
    if refs.len() == 0 {
        Seq::empty()
    } else {
        let earlier = origins(refs.drop_last());
        if has_number(first_seen(refs.drop_last()), refs.last().number as int) {
            earlier
        } else {
            earlier.push(refs.len() - 1)
        }
    }
}

/// A reference more brings its number, and no other.
proof fn lemma_occurs_push(refs: Seq<PullRequestRef>, node: PullRequestRef, number: int)
    ensures
        occurs(refs.push(node), number) <==> occurs(refs, number) || node.number == number,
{
    let longer = refs.push(node);
    if occurs(refs, number) {
        let k = choose|k: int| 0 <= k < refs.len() && #[trigger] refs[k].number == number;
        assert(longer[k].number == number);
    }
    if node.number == number {
        assert(longer[refs.len() as int].number == number);
    }
    if occurs(longer, number) {
        let k = choose|k: int| 0 <= k < longer.len() && #[trigger] longer[k].number == number;
        if k < refs.len() {
            assert(refs[k].number == number);
        }
    }
}

/// The numbers kept are the numbers met: none is lost, none is made up.
pub proof fn lemma_first_seen_numbers(refs: Seq<PullRequestRef>, number: int)
    ensures
        has_number(first_seen(refs), number) <==> occurs(refs, number),
    decreases refs.len(),
{
    if refs.len() > 0 {
        let front = refs.drop_last();
        let last = refs.last();
        lemma_first_seen_numbers(front, number);
        lemma_first_seen_numbers(front, last.number as int);
        assert(front.push(last) == refs);
        lemma_occurs_push(front, last, number);
        lemma_has_number_push(first_seen(front), normalized(last), number);
    }
}

/// First seen wins. Each pull request kept is made from the first reference
/// with its number, and from its content alone; the pull requests stand in
/// the order of those first references; and every first reference has its
/// pull request.
pub proof fn lemma_first_seen_wins(refs: Seq<PullRequestRef>)
    ensures
        origins(refs).len() == first_seen(refs).len(),
        forall|i: int|
            0 <= i < origins(refs).len() ==> is_first_occurrence(refs, #[trigger] origins(refs)[i])
                && first_seen(refs)[i] == normalized(refs[origins(refs)[i]]),
        forall|i: int, j: int|
            0 <= i < j < origins(refs).len() ==> #[trigger] origins(refs)[i] < #[trigger] origins(
                refs,
            )[j],
        forall|k: int| is_first_occurrence(refs, k) ==> #[trigger] origins(refs).contains(k),
    decreases refs.len(),
{
    if refs.len() > 0 {
        let front = refs.drop_last();
        let last = refs.last();
        let at = refs.len() - 1;
        lemma_first_seen_wins(front);
        lemma_first_seen_numbers(front, last.number as int);
        let earlier = origins(front);
        let now = origins(refs);
        assert forall|i: int| 0 <= i < earlier.len() implies is_first_occurrence(
            refs,
            #[trigger] earlier[i],
        ) && refs[earlier[i]] == front[earlier[i]] by {
            let k = earlier[i];
            assert(is_first_occurrence(front, k));
            assert forall|m: int| 0 <= m < k implies #[trigger] refs[m].number != refs[k].number by {
                assert(front[m].number != front[k].number);
            }
        }
        if occurs(front, last.number as int) {
            assert(now == earlier);
            assert forall|k: int| is_first_occurrence(refs, k) implies #[trigger] now.contains(
                k,
            ) by {
                let m = choose|m: int|
                    0 <= m < front.len() && #[trigger] front[m].number == last.number as int;
                assert(refs[m].number == last.number);
                assert(k != at);
                assert(is_first_occurrence(front, k)) by {
                    assert forall|m: int| 0 <= m < k implies #[trigger] front[m].number
                        != front[k].number by {
                        assert(refs[m].number != refs[k].number);
                    }
                }
                assert(earlier.contains(k));
            }
        } else {
            assert(now == earlier.push(at));
            assert(is_first_occurrence(refs, at)) by {
                assert forall|m: int| 0 <= m < at implies #[trigger] refs[m].number
                    != refs[at].number by {
                    assert(front[m].number == refs[m].number);
                }
            }
            assert forall|i: int, j: int| 0 <= i < j < now.len() implies #[trigger] now[i]
                < #[trigger] now[j] by {
                if j == earlier.len() {
                    assert(is_first_occurrence(front, earlier[i]));
                }
            }
            assert forall|k: int| is_first_occurrence(refs, k) implies #[trigger] now.contains(
                k,
            ) by {
                if k == at {
                    assert(now[earlier.len() as int] == k);
                } else {
                    assert(is_first_occurrence(front, k)) by {
                        assert forall|m: int| 0 <= m < k implies #[trigger] front[m].number
                            != front[k].number by {
                            assert(refs[m].number != refs[k].number);
                        }
                    }
                    assert(earlier.contains(k));
                    let i = choose|i: int| 0 <= i < earlier.len() && earlier[i] == k;
                    assert(now[i] == k);
                }
            }
        }
    }
}

/// What is kept depends on nothing but what the references resolve to:
/// two lists that agree in that, place by place, leave the same pull
/// requests.
pub proof fn lemma_first_seen_by_content(first: Seq<PullRequestRef>, second: Seq<PullRequestRef>)
    requires
        first.len() == second.len(),
        forall|k: int| 0 <= k < first.len() ==> normalized(first[k]) == normalized(second[k]),
    ensures
        first_seen(first) == first_seen(second),
    decreases first.len(),
{
    if first.len() > 0 {
        lemma_first_seen_by_content(first.drop_last(), second.drop_last());
        assert(normalized(first.last()) == normalized(second.last()));
    }
}

/// Where no number occurs twice among the references, every one of them is
/// kept.
pub proof fn lemma_first_seen_keeps_distinct(refs: Seq<PullRequestRef>)
    requires
        forall|i: int, j: int|
            0 <= i < j < refs.len() ==> #[trigger] refs[i].number != #[trigger] refs[j].number,
    ensures
        first_seen(refs) == refs.map_values(|node: PullRequestRef| normalized(node)),
    decreases refs.len(),
{
    if refs.len() > 0 {
        let front = refs.drop_last();
        let last = refs.last();
        lemma_first_seen_keeps_distinct(front);
        lemma_first_seen_numbers(front, last.number as int);
        if occurs(front, last.number as int) {
            let k = choose|k: int|
                0 <= k < front.len() && #[trigger] front[k].number == last.number as int;
            assert(refs[k].number != refs[refs.len() - 1].number);
        }
        assert(first_seen(refs) =~= refs.map_values(|node: PullRequestRef| normalized(node)));
    } else {
        assert(first_seen(refs) =~= refs.map_values(|node: PullRequestRef| normalized(node)));
    }
}

/// What a comparison resolves to is decided by what its references hold,
/// and by nothing else: two comparisons whose references agree in that,
/// place by place, resolve to the same pull requests. So does one
/// comparison that is resolved twice.
pub proof fn lemma_resolved_is_determined(
    first: GetUnMergedCommitsResult,
    second: GetUnMergedCommitsResult,
)
    requires
        references(first).len() == references(second).len(),
        forall|k: int|
            0 <= k < references(first).len() ==> normalized(references(first)[k]) == normalized(
                references(second)[k],
            ),
    ensures
        resolved(first) == resolved(second),
{
    lemma_first_seen_by_content(references(first), references(second));
}

} // verus!
