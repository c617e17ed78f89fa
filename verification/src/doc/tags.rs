//! The tags that a title starts with.
//!
//! A title such as `[docs][ci] Fix the build [wip]` starts with the tags
//! `docs` and `ci`: white space may come first, then the tags follow one
//! straight after the other, each between square brackets. A tag is not
//! empty and holds no bracket. What stands behind the first character
//! that continues no tag is not looked at, so `wip` is no tag of that
//! title.

use vstd::prelude::*;
use vstd::string::*;

use crate::text::{chars_of, texts};

verus! {

/// Whether a character is white space: one of the code points that Unicode
/// gives the property `White_Space`.
pub open spec fn is_space(c: char) -> bool {
    ||| '\u{9}' <= c <= '\u{d}'
    ||| c == ' '
    ||| c == '\u{85}'
    ||| c == '\u{a0}'
    ||| c == '\u{1680}'
    ||| '\u{2000}' <= c <= '\u{200a}'
    ||| c == '\u{2028}'
    ||| c == '\u{2029}'
    ||| c == '\u{202f}'
    ||| c == '\u{205f}'
    ||| c == '\u{3000}'
}

/// Whether a character is a square bracket.
pub open spec fn is_bracket(c: char) -> bool {
    c == '[' || c == ']'
}

/// The first place at or behind `from` that holds no white space.
pub open spec fn skip_spaces(title: Seq<char>, from: int) -> int
    decreases title.len() - from,
{
    if 0 <= from < title.len() && is_space(title[from]) {
        skip_spaces(title, from + 1)
    } else {
        from
    }
}

/// The first place at or behind `from` that holds a bracket; the end of the
/// title where none follows.
pub open spec fn tag_end(title: Seq<char>, from: int) -> int
    decreases title.len() - from,
{
    if 0 <= from < title.len() && !is_bracket(title[from]) {
        tag_end(title, from + 1)
    } else {
        from
    }
}

/// Where a tag in brackets stands at `at`, the place behind its closing
/// bracket. A tag is an opening bracket, one character or more that are no
/// brackets, and a closing bracket.
pub open spec fn tag_at(title: Seq<char>, at: int) -> Option<int> {
    let end = tag_end(title, at + 1);
    if 0 <= at < title.len() && title[at] == '[' && at + 1 < end < title.len() && title[end]
        == ']' {
        Some(end + 1)
    } else {
        None
    }
}

/// The texts of the tags that stand at `at` one straight after the other.
pub open spec fn tags_from(title: Seq<char>, at: int) -> Seq<Seq<char>>
    decreases title.len() - at,
{
    match tag_at(title, at) {
        Some(next) => seq![title.subrange(at + 1, next - 1)] + tags_from(title, next),
        None => Seq::empty(),
    }
}

/// The tags that a title starts with: those that follow its leading white
/// space, one straight after the other. What stands behind the first
/// character that continues no tag is not looked at.
pub open spec fn title_tags(title: Seq<char>) -> Seq<Seq<char>> {
    tags_from(title, skip_spaces(title, 0))
}

/// A tag between its brackets.
pub open spec fn in_brackets(tag: Seq<char>) -> Seq<char> {
    seq!['['] + tag + seq![']']
}

/// The tags between their brackets, one straight after the other.
pub open spec fn run_of(tags: Seq<Seq<char>>) -> Seq<char>
    decreases tags.len(),
{
    if tags.len() == 0 {
        Seq::empty()
    } else {
        in_brackets(tags.first()) + run_of(tags.drop_first())
    }
}

/// Whether a text can be a tag: it is not empty and holds no bracket.
pub open spec fn is_tag_text(text: Seq<char>) -> bool {
    &&& text.len() > 0
    &&& forall|i: int| 0 <= i < text.len() ==> !is_bracket(#[trigger] text[i])
}

/// Whether a text holds white space only.
pub open spec fn is_blank(text: Seq<char>) -> bool {
    forall|i: int| 0 <= i < text.len() ==> is_space(#[trigger] text[i])
}

/// Between `from` and where the white space ends stands white space only,
/// and behind it stands something else, unless the title ends there.
proof fn lemma_skip_spaces(title: Seq<char>, from: int)
    requires
        0 <= from <= title.len(),
    ensures
        from <= skip_spaces(title, from) <= title.len(),
        forall|i: int| from <= i < skip_spaces(title, from) ==> is_space(#[trigger] title[i]),
        skip_spaces(title, from) < title.len() ==> !is_space(title[skip_spaces(title, from)]),
    decreases title.len() - from,
{
    if from < title.len() && is_space(title[from]) {
        lemma_skip_spaces(title, from + 1);
    }
}

/// White space that ends at `lead` is skipped up to `lead`.
proof fn lemma_skip_spaces_to(title: Seq<char>, from: int, lead: int)
    requires
        0 <= from <= lead <= title.len(),
        forall|i: int| from <= i < lead ==> is_space(#[trigger] title[i]),
        lead < title.len() ==> !is_space(title[lead]),
    ensures
        skip_spaces(title, from) == lead,
    decreases lead - from,
{
    if from < lead {
        lemma_skip_spaces_to(title, from + 1, lead);
    }
}

/// Between `from` and where a tag's text ends stands no bracket, and behind
/// it stands one, unless the title ends there.
proof fn lemma_tag_end(title: Seq<char>, from: int)
    requires
        0 <= from <= title.len(),
    ensures
        from <= tag_end(title, from) <= title.len(),
        forall|i: int| from <= i < tag_end(title, from) ==> !is_bracket(#[trigger] title[i]),
        tag_end(title, from) < title.len() ==> is_bracket(title[tag_end(title, from)]),
    decreases title.len() - from,
{
    if from < title.len() && !is_bracket(title[from]) {
        lemma_tag_end(title, from + 1);
    }
}

/// A text without brackets that ends at `end` is a tag's text up to `end`.
proof fn lemma_tag_end_at(title: Seq<char>, from: int, end: int)
    requires
        0 <= from <= end <= title.len(),
        forall|i: int| from <= i < end ==> !is_bracket(#[trigger] title[i]),
        end < title.len() ==> is_bracket(title[end]),
    ensures
        tag_end(title, from) == end,
    decreases end - from,
{
    if from < end {
        lemma_tag_end_at(title, from + 1, end);
    }
}

/// The tags found at `at` stand there in their brackets, one straight
/// after the other, each with a text that a tag can have, and behind the
/// last of them stands no further tag.
proof fn lemma_tags_from_stand_there(title: Seq<char>, at: int)
    requires
        0 <= at <= title.len(),
    ensures
        at + run_of(tags_from(title, at)).len() <= title.len(),
        title.subrange(at, at + run_of(tags_from(title, at)).len()) == run_of(
            tags_from(title, at),
        ),
        forall|k: int|
            0 <= k < tags_from(title, at).len() ==> is_tag_text(#[trigger] tags_from(title, at)[k]),
        tag_at(title, at + run_of(tags_from(title, at)).len()) is None,
    decreases title.len() - at,
{
    let tags = tags_from(title, at);
    match tag_at(title, at) {
        Some(next) => {
            let tag = title.subrange(at + 1, next - 1);
            let later = tags_from(title, next);
            lemma_tag_end(title, at + 1);
            lemma_tags_from_stand_there(title, next);
            assert(tags.first() == tag);
            assert(tags.drop_first() =~= later);
            assert(is_tag_text(tag)) by {
                assert forall|i: int| 0 <= i < tag.len() implies !is_bracket(#[trigger] tag[i]) by {
                    assert(tag[i] == title[at + 1 + i]);
                }
            }
            assert forall|k: int| 0 <= k < tags.len() implies is_tag_text(#[trigger] tags[k]) by {
                if k > 0 {
                    assert(tags[k] == later[k - 1]);
                }
            }
            assert(title.subrange(at, next) =~= in_brackets(tag));
            assert(title.subrange(at, at + run_of(tags).len()) =~= in_brackets(tag)
                + title.subrange(next, next + run_of(later).len()));
        },
        None => {
            assert(title.subrange(at, at) =~= run_of(tags));
        },
    }
}

/// Tags that stand at `at` in their brackets, one straight after the
/// other, with no further tag behind the last, are the tags found at `at`.
proof fn lemma_tags_that_stand_are_found(title: Seq<char>, at: int, tags: Seq<Seq<char>>)
    requires
        0 <= at,
        at + run_of(tags).len() <= title.len(),
        title.subrange(at, at + run_of(tags).len()) == run_of(tags),
        forall|k: int| 0 <= k < tags.len() ==> is_tag_text(#[trigger] tags[k]),
        tag_at(title, at + run_of(tags).len()) is None,
    ensures
        tags_from(title, at) == tags,
    decreases tags.len(),
{
    if tags.len() == 0 {
        assert(tags_from(title, at) =~= tags);
    } else {
        let tag = tags.first();
        let later = tags.drop_first();
        let run = run_of(tags);
        let end = at + 1 + tag.len();
        assert(is_tag_text(tag));
        assert(run =~= in_brackets(tag) + run_of(later));
        assert forall|i: int| 0 <= i < run.len() implies title[at + i] == run[i] by {
            assert(title.subrange(at, at + run.len())[i] == title[at + i]);
        }
        assert(title[at] == '[') by {
            assert(run[0] == '[');
        }
        assert(title[end] == ']') by {
            assert(run[end - at] == ']');
        }
        assert forall|i: int| at + 1 <= i < end implies !is_bracket(#[trigger] title[i]) by {
            assert(run[i - at] == tag[i - at - 1]);
        }
        lemma_tag_end_at(title, at + 1, end);
        assert(tag_at(title, at) == Some(end + 1));
        assert(title.subrange(at + 1, end) =~= tag) by {
            assert forall|i: int| 0 <= i < tag.len() implies title[at + 1 + i] == tag[i] by {
                assert(run[i + 1] == tag[i]);
            }
        }
        assert(title.subrange(end + 1, end + 1 + run_of(later).len()) =~= run_of(later)) by {
            assert forall|i: int| 0 <= i < run_of(later).len() implies title[end + 1 + i]
                == run_of(later)[i] by {
                assert(run[end + 1 - at + i] == run_of(later)[i]);
            }
        }
        assert forall|k: int| 0 <= k < later.len() implies is_tag_text(#[trigger] later[k]) by {
            assert(later[k] == tags[k + 1]);
        }
        lemma_tags_that_stand_are_found(title, end + 1, later);
        assert(tags_from(title, at) =~= tags);
    }
}

/// What the tags of a title are. The title starts with white space, as
/// much as there is; then its tags stand in their brackets, one straight
/// after the other, each with a text that is not empty and holds no
/// bracket; and what follows them starts with no further tag.
pub proof fn lemma_title_tags_lead(title: Seq<char>)
    ensures
        ({
            let lead = skip_spaces(title, 0);
            let run = run_of(title_tags(title));
            &&& 0 <= lead <= lead + run.len() <= title.len()
            &&& is_blank(title.take(lead))
            &&& lead < title.len() ==> !is_space(title[lead])
            &&& title.subrange(lead, lead + run.len()) == run
            &&& forall|k: int|
                0 <= k < title_tags(title).len() ==> is_tag_text(#[trigger] title_tags(title)[k])
            &&& tag_at(title, lead + run.len()) is None
        }),
{
    lemma_skip_spaces(title, 0);
    lemma_tags_from_stand_there(title, skip_spaces(title, 0));
}

/// A title reads in one way only. Where it is white space up to `lead`,
/// then one tag or more in brackets, one straight after the other, and
/// then something that starts with no further tag, these are its tags.
pub proof fn lemma_title_tags_are_unique(title: Seq<char>, lead: int, tags: Seq<Seq<char>>)
    requires
        0 <= lead,
        lead + run_of(tags).len() <= title.len(),
        is_blank(title.take(lead)),
        title.subrange(lead, lead + run_of(tags).len()) == run_of(tags),
        tags.len() > 0,
        forall|k: int| 0 <= k < tags.len() ==> is_tag_text(#[trigger] tags[k]),
        tag_at(title, lead + run_of(tags).len()) is None,
    ensures
        title_tags(title) == tags,
{
    let run = run_of(tags);
    assert(run =~= in_brackets(tags.first()) + run_of(tags.drop_first()));
    assert(title[lead] == '[') by {
        assert(title.subrange(lead, lead + run.len())[0] == run[0]);
    }
    assert forall|i: int| 0 <= i < lead implies is_space(#[trigger] title[i]) by {
        assert(title.take(lead)[i] == title[i]);
    }
    lemma_skip_spaces_to(title, 0, lead);
    lemma_tags_that_stand_are_found(title, lead, tags);
}

/// Whether a character is white space.
fn is_space_char(c: char) -> (r: bool)
    ensures
        r == is_space(c),
{
    ('\u{9}' <= c && c <= '\u{d}') || c == ' ' || c == '\u{85}' || c == '\u{a0}' || c
        == '\u{1680}' || ('\u{2000}' <= c && c <= '\u{200a}') || c == '\u{2028}' || c
        == '\u{2029}' || c == '\u{202f}' || c == '\u{205f}' || c == '\u{3000}'
}

/// The tags that a title starts with.
pub fn leading_tags(title: &str) -> (tags: Vec<String>)
    ensures
        texts(tags@) == title_tags(title@),
{
    let chars = chars_of(title);
    let mut at: usize = 0;
    while at < chars.len() && is_space_char(chars[at])
        invariant
            0 <= at <= chars.len(),
            skip_spaces(chars@, 0) == skip_spaces(chars@, at as int),
        decreases chars.len() - at,
    {
        at += 1;
    }
    let mut tags: Vec<String> = Vec::new();
    assert(texts(tags@) + tags_from(chars@, at as int) =~= title_tags(chars@));
    loop
        invariant
            0 <= at <= chars.len(),
            chars@ == title@,
            texts(tags@) + tags_from(chars@, at as int) == title_tags(chars@),
        ensures
            texts(tags@) == title_tags(chars@),
        decreases chars.len() - at,
    {
        if at >= chars.len() || chars[at] != '[' {
            break;
        }
        let mut end: usize = at + 1;
        while end < chars.len() && chars[end] != '[' && chars[end] != ']'
            invariant
                at < end <= chars.len(),
                tag_end(chars@, at + 1) == tag_end(chars@, end as int),
            decreases chars.len() - end,
        {
            end += 1;
        }
        if end == at + 1 || end >= chars.len() || chars[end] != ']' {
            break;
        }
        let ghost before = texts(tags@);
        let tag = title.substring_char(at + 1, end).to_owned();
        tags.push(tag);
        proof {
            assert(tag_at(chars@, at as int) == Some(end + 1));
            assert(texts(tags@) =~= before.push(tag@));
            assert(texts(tags@) + tags_from(chars@, end + 1) =~= before + tags_from(
                chars@,
                at as int,
            ));
        }
        at = end + 1;
    }
    tags
}

} // verus!
