//! Text as sequences of characters: joining, copying, and splitting off
//! the first line.

pub mod decimal;
pub mod order;

use vstd::prelude::*;
use vstd::string::*;

pub use decimal::decimal_string;
pub use order::{sort_strings, str_precedes};

verus! {

/// The texts of a list of strings.
pub open spec fn texts(strings: Seq<String>) -> Seq<Seq<char>> {
    strings.map_values(|s: String| s@)
}

/// The parts in a row, with the separator between each two neighbours.
pub open spec fn join(parts: Seq<Seq<char>>, separator: Seq<char>) -> Seq<char>
    decreases parts.len(),
{
    if parts.len() == 0 {
        Seq::empty()
    } else if parts.len() == 1 {
        parts[0]
    } else {
        join(parts.drop_last(), separator) + separator + parts.last()
    }
}

/// Joins the strings, with the separator between each two neighbours.
pub fn join_strings(parts: &Vec<String>, separator: &str) -> (joined: String)
    ensures
        joined@ == join(texts(parts@), separator@),
{
    let mut joined = String::new();
    let mut i: usize = 0;
    while i < parts.len()
        invariant
            0 <= i <= parts.len(),
            joined@ == join(texts(parts@).take(i as int), separator@),
        decreases parts.len() - i,
    {
        proof {
            let shown = texts(parts@).take(i + 1);
            assert(shown.drop_last() == texts(parts@).take(i as int));
            assert(shown.last() == parts[i as int]@);
        }
        if i > 0 {
            joined.append(separator);
        }
        joined.append(parts[i].as_str());
        i += 1;
    }
    proof {
        assert(texts(parts@).take(parts.len() as int) == texts(parts@));
    }
    joined
}

/// A copy of the strings.
pub fn copy_strings(strings: &Vec<String>) -> (copy: Vec<String>)
    ensures
        texts(copy@) == texts(strings@),
{
    let mut copy: Vec<String> = Vec::new();
    let mut i: usize = 0;
    while i < strings.len()
        invariant
            0 <= i <= strings.len(),
            texts(copy@) == texts(strings@).take(i as int),
        decreases strings.len() - i,
    {
        let ghost before = texts(copy@);
        copy.push(strings[i].clone());
        proof {
            assert(texts(copy@) =~= before.push(strings[i as int]@));
            assert(texts(strings@).take(i + 1) =~= before.push(strings[i as int]@));
        }
        i += 1;
    }
    proof {
        assert(texts(strings@).take(strings.len() as int) == texts(strings@));
    }
    copy
}

/// The characters of a string.
pub fn chars_of(s: &str) -> (chars: Vec<char>)
    ensures
        chars@ == s@,
{
    let mut chars: Vec<char> = Vec::new();
    for c in it: s.chars()
        invariant
            chars@ == it.seq().take(it.index() as int),
            it.seq() == s@,
    {
        chars.push(c);
    }
    chars
}

/// The place of the first line break at or behind `from`; the end of the
/// text where none follows.
pub open spec fn line_end(text: Seq<char>, from: int) -> int
    decreases text.len() - from,
{
    if 0 <= from < text.len() && text[from] != '\n' {
        line_end(text, from + 1)
    } else {
        from
    }
}

/// The first line of a text, without its line break.
pub open spec fn first_line(text: Seq<char>) -> Seq<char> {
    text.take(line_end(text, 0))
}

/// What follows the first line break of a text; nothing where it has none.
pub open spec fn after_first_line(text: Seq<char>) -> Seq<char> {
    if line_end(text, 0) < text.len() {
        text.skip(line_end(text, 0) + 1)
    } else {
        Seq::empty()
    }
}

/// The first line has no line break in it, and with the rest behind it,
/// past one line break, it makes up the text.
pub proof fn lemma_first_line_splits(text: Seq<char>)
    ensures
        !first_line(text).contains('\n'),
        text.contains('\n') ==> text == first_line(text) + seq!['\n'] + after_first_line(text),
        !text.contains('\n') ==> text == first_line(text) && after_first_line(text).len() == 0,
{
    lemma_line_end(text, 0);
    let end = line_end(text, 0);
    if end < text.len() {
        assert(text[end] == '\n');
        assert(text =~= first_line(text) + seq!['\n'] + after_first_line(text));
    } else {
        assert(text =~= first_line(text));
        if text.contains('\n') {
            let k = choose|k: int| 0 <= k < text.len() && text[k] == '\n';
            assert(text[k] != '\n');
        }
    }
    if first_line(text).contains('\n') {
        let k = choose|k: int| 0 <= k < first_line(text).len() && first_line(text)[k] == '\n';
        assert(text[k] != '\n');
    }
}

/// Between `from` and the line's end stands no line break, and at the
/// line's end stands one, unless the text ends there.
proof fn lemma_line_end(text: Seq<char>, from: int)
    requires
        0 <= from <= text.len(),
    ensures
        from <= line_end(text, from) <= text.len(),
        forall|k: int| from <= k < line_end(text, from) ==> text[k] != '\n',
        line_end(text, from) < text.len() ==> text[line_end(text, from)] == '\n',
    decreases text.len() - from,
{
    if from < text.len() && text[from] != '\n' {
        lemma_line_end(text, from + 1);
    }
}

/// Splits a text at its first line break.
pub fn split_first_line(text: &str) -> (parts: (String, String))
    ensures
        parts.0@ == first_line(text@),
        parts.1@ == after_first_line(text@),
{
    let chars = chars_of(text);
    let mut end: usize = 0;
    while end < chars.len() && chars[end] != '\n'
        invariant
            0 <= end <= chars.len(),
            line_end(chars@, 0) == line_end(chars@, end as int),
        decreases chars.len() - end,
    {
        end += 1;
    }
    let first = text.substring_char(0, end).to_owned();
    let rest = if end < chars.len() {
        text.substring_char(end + 1, chars.len()).to_owned()
    } else {
        String::new()
    };
    (first, rest)
}

} // verus!
