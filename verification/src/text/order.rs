//! The order of texts: that of words in a dictionary, with characters
//! ordered by their code points.

use vstd::prelude::*;
use vstd::std_specs::iter::IteratorSpec;
use vstd::string::*;

use super::texts;

verus! {

/// Whether `a` comes before `b` or equals it, where texts are ordered like
/// words in a dictionary and characters by their code points: `a` is the
/// start of `b`, or the first character in which they differ is the smaller
/// one in `a`.
pub open spec fn precedes(a: Seq<char>, b: Seq<char>) -> bool {
    ||| a.is_prefix_of(b)
    ||| exists|i: int| differs_first_at(a, b, i) && (a[i] as int) < (b[i] as int)
}

/// Whether `i` is the first place where the two texts hold different
/// characters.
pub open spec fn differs_first_at(a: Seq<char>, b: Seq<char>, i: int) -> bool {
    &&& 0 <= i < a.len()
    &&& i < b.len()
    &&& a[i] != b[i]
    &&& a.take(i) == b.take(i)
}

/// Two texts differ first at one place only.
pub proof fn lemma_first_difference_is_unique(a: Seq<char>, b: Seq<char>, i: int, j: int)
    requires
        differs_first_at(a, b, i),
        differs_first_at(a, b, j),
    ensures
        i == j,
{
    if i < j {
        assert(a.take(j)[i] == b.take(j)[i]);
    }
    if j < i {
        assert(a.take(i)[j] == b.take(i)[j]);
    }
}

/// Texts that agree up to a place differ first at that place or later.
proof fn lemma_no_difference_before(a: Seq<char>, b: Seq<char>, i: int, j: int)
    requires
        0 <= i <= a.len(),
        i <= b.len(),
        a.take(i) == b.take(i),
        differs_first_at(a, b, j),
    ensures
        i <= j,
{
    if j < i {
        assert(a.take(i)[j] == a[j]);
        assert(b.take(i)[j] == b[j]);
    }
}

/// Whether `a` comes before `b` or equals it.
pub fn str_precedes(a: &str, b: &str) -> (r: bool)
    ensures
        r == precedes(a@, b@),
{
    let mut xs = a.chars();
    let mut ys = b.chars();
    let ghost mut i: int = 0;
    loop
        invariant
            0 <= i <= a@.len(),
            i <= b@.len(),
            xs.remaining() == a@.skip(i),
            ys.remaining() == b@.skip(i),
            a@.take(i) == b@.take(i),
        decreases a@.len() - i,
    {
        match xs.next() {
            None => {
                return true;
            },
            Some(x) => match ys.next() {
                None => {
                    proof {
                        assert forall|j: int| !differs_first_at(a@, b@, j) by {
                            if differs_first_at(a@, b@, j) {
                                lemma_no_difference_before(a@, b@, i, j);
                            }
                        }
                    }
                    return false;
                },
                Some(y) => {
                    if x != y {
                        proof {
                            assert(differs_first_at(a@, b@, i));
                            assert forall|j: int| differs_first_at(a@, b@, j) implies j == i by {
                                lemma_first_difference_is_unique(a@, b@, i, j);
                            }
                        }
                        return x < y;
                    }
                    proof {
                        assert(a@.take(i + 1) =~= a@.take(i).push(x));
                        assert(b@.take(i + 1) =~= b@.take(i).push(y));
                    }
                },
            },
        }
        proof {
            i = i + 1;
        }
    }
}

/// An ordered list with one more text, put behind the last text that comes
/// before it or equals it.
pub open spec fn placed(ordered: Seq<Seq<char>>, text: Seq<char>) -> Seq<Seq<char>>
    decreases ordered.len(),
{
    if ordered.len() == 0 {
        seq![text]
    } else if precedes(ordered.last(), text) {
        ordered.push(text)
    } else {
        placed(ordered.drop_last(), text).push(ordered.last())
    }
}

/// The texts in ascending order.
pub open spec fn in_order(parts: Seq<Seq<char>>) -> Seq<Seq<char>>
    decreases parts.len(),
{
    if parts.len() == 0 {
        Seq::empty()
    } else {
        placed(in_order(parts.drop_last()), parts.last())
    }
}

/// Whether each text comes before the texts behind it, or equals them.
pub open spec fn ascending(parts: Seq<Seq<char>>) -> bool {
    forall|i: int, j: int|
        0 <= i < j < parts.len() ==> precedes(#[trigger] parts[i], #[trigger] parts[j])
}

/// Two texts that agree up to a place are one the start of the other, or
/// differ first at some place.
proof fn lemma_compare_from(a: Seq<char>, b: Seq<char>, i: int)
    requires
        0 <= i <= a.len(),
        i <= b.len(),
        a.take(i) == b.take(i),
    ensures
        a.is_prefix_of(b) || b.is_prefix_of(a) || exists|k: int| differs_first_at(a, b, k),
    decreases a.len() - i,
{
    if i == a.len() {
        assert(a.take(i) == a);
    } else if i == b.len() {
        assert(b.take(i) == b);
    } else if a[i] != b[i] {
        assert(differs_first_at(a, b, i));
    } else {
        assert(a.take(i + 1) =~= a.take(i).push(a[i]));
        assert(b.take(i + 1) =~= b.take(i).push(b[i]));
        lemma_compare_from(a, b, i + 1);
    }
}

/// Two texts that each come before the other or equal it are equal.
pub proof fn lemma_precedes_is_antisymmetric(a: Seq<char>, b: Seq<char>)
    requires
        precedes(a, b),
        precedes(b, a),
    ensures
        a == b,
{
    if a.is_prefix_of(b) && b.is_prefix_of(a) {
        assert(a =~= b);
    } else if a.is_prefix_of(b) {
        let j = choose|j: int| differs_first_at(b, a, j) && (b[j] as int) < (a[j] as int);
        assert(a[j] == b.subrange(0, a.len() as int)[j]);
    } else if b.is_prefix_of(a) {
        let i = choose|i: int| differs_first_at(a, b, i) && (a[i] as int) < (b[i] as int);
        assert(b[i] == a.subrange(0, b.len() as int)[i]);
    } else {
        let i = choose|i: int| differs_first_at(a, b, i) && (a[i] as int) < (b[i] as int);
        let j = choose|j: int| differs_first_at(b, a, j) && (b[j] as int) < (a[j] as int);
        assert(differs_first_at(a, b, j));
        lemma_first_difference_is_unique(a, b, i, j);
    }
}

/// Of two texts, one comes before the other or equals it.
pub proof fn lemma_precedes_is_total(a: Seq<char>, b: Seq<char>)
    ensures
        precedes(a, b) || precedes(b, a),
{
    assert(a.take(0) =~= b.take(0));
    lemma_compare_from(a, b, 0);
    if !a.is_prefix_of(b) && !b.is_prefix_of(a) {
        let k = choose|k: int| differs_first_at(a, b, k);
        assert(differs_first_at(b, a, k));
        assert(a[k] as int != b[k] as int);
    }
}

/// What comes before a text also comes before the texts behind it.
pub proof fn lemma_precedes_is_transitive(a: Seq<char>, b: Seq<char>, c: Seq<char>)
    requires
        precedes(a, b),
        precedes(b, c),
    ensures
        precedes(a, c),
{
    if a.is_prefix_of(b) {
        if b.is_prefix_of(c) {
            assert(a =~= c.subrange(0, a.len() as int));
        } else {
            let j = choose|j: int| differs_first_at(b, c, j) && (b[j] as int) < (c[j] as int);
            if j < a.len() {
                assert(a.take(j) =~= b.take(j));
                assert(differs_first_at(a, c, j));
            } else {
                assert forall|k: int| 0 <= k < a.len() implies a[k] == c[k] by {
                    assert(b.take(j)[k] == c.take(j)[k]);
                }
                assert(a =~= c.subrange(0, a.len() as int));
            }
        }
    } else {
        let i = choose|i: int| differs_first_at(a, b, i) && (a[i] as int) < (b[i] as int);
        if b.is_prefix_of(c) {
            assert(b.take(i) =~= c.take(i));
            assert(differs_first_at(a, c, i));
        } else {
            let j = choose|j: int| differs_first_at(b, c, j) && (b[j] as int) < (c[j] as int);
            if i <= j {
                assert(b.take(i) =~= c.take(i)) by {
                    assert forall|k: int| 0 <= k < i implies b[k] == c[k] by {
                        assert(b.take(j)[k] == c.take(j)[k]);
                    }
                }
                if i < j {
                    assert(b.take(j)[i] == c.take(j)[i]);
                }
                assert(differs_first_at(a, c, i));
            } else {
                assert(a.take(j) =~= b.take(j)) by {
                    assert forall|k: int| 0 <= k < j implies a[k] == b[k] by {
                        assert(a.take(i)[k] == b.take(i)[k]);
                    }
                }
                assert(a.take(i)[j] == b.take(i)[j]);
                assert(differs_first_at(a, c, j));
            }
        }
    }
}

/// Placing a text keeps an ascending list ascending, and adds that text and
/// no other.
proof fn lemma_placed_keeps_order(ordered: Seq<Seq<char>>, text: Seq<char>)
    requires
        ascending(ordered),
    ensures
        ascending(placed(ordered, text)),
        placed(ordered, text).to_multiset() == ordered.to_multiset().insert(text),
        placed(ordered, text).len() == ordered.len() + 1,
    decreases ordered.len(),
{
    broadcast use vstd::seq_lib::group_to_multiset_ensures;

    let result = placed(ordered, text);
    if ordered.len() == 0 {
        assert(seq![text] =~= ordered.push(text));
    } else if precedes(ordered.last(), text) {
        assert forall|i: int, j: int| 0 <= i < j < result.len() implies precedes(
            #[trigger] result[i],
            #[trigger] result[j],
        ) by {
            if j == ordered.len() && i < ordered.len() - 1 {
                lemma_precedes_is_transitive(ordered[i], ordered.last(), text);
            }
        }
    } else {
        let front = ordered.drop_last();
        let last = ordered.last();
        assert(ascending(front));
        lemma_placed_keeps_order(front, text);
        lemma_precedes_is_total(last, text);
        let inner = placed(front, text);
        assert(front.push(last) == ordered);
        assert forall|k: int| 0 <= k < inner.len() implies precedes(#[trigger] inner[k], last) by {
            assert(inner.to_multiset().count(inner[k]) > 0) by {
                assert(inner.contains(inner[k]));
            }
            if inner[k] != text {
                assert(front.to_multiset().count(inner[k]) > 0);
                assert(front.contains(inner[k]));
                let m = choose|m: int| 0 <= m < front.len() && front[m] == inner[k];
                assert(precedes(ordered[m], ordered[ordered.len() - 1]));
            }
        }
        assert forall|i: int, j: int| 0 <= i < j < result.len() implies precedes(
            #[trigger] result[i],
            #[trigger] result[j],
        ) by {
            if j < inner.len() {
                assert(precedes(inner[i], inner[j]));
            }
        }
        assert(result.to_multiset() =~= ordered.to_multiset().insert(text));
    }
}

/// The texts in order are the same texts, each as often as before, and
/// each comes before the ones behind it or equals them.
pub proof fn lemma_in_order_sorts(parts: Seq<Seq<char>>)
    ensures
        ascending(in_order(parts)),
        in_order(parts).to_multiset() == parts.to_multiset(),
        in_order(parts).len() == parts.len(),
    decreases parts.len(),
{
    broadcast use vstd::seq_lib::group_to_multiset_ensures;

    if parts.len() > 0 {
        lemma_in_order_sorts(parts.drop_last());
        lemma_placed_keeps_order(in_order(parts.drop_last()), parts.last());
        assert(parts.drop_last().push(parts.last()) == parts);
    } else {
        assert(in_order(parts).to_multiset() =~= parts.to_multiset());
    }
}

/// A text that belongs at `at` is placed there.
proof fn lemma_placed_at(ordered: Seq<Seq<char>>, text: Seq<char>, at: int)
    requires
        0 <= at <= ordered.len(),
        at == 0 || precedes(ordered[at - 1], text),
        forall|k: int| at <= k < ordered.len() ==> !precedes(#[trigger] ordered[k], text),
    ensures
        placed(ordered, text) == ordered.insert(at, text),
    decreases ordered.len() - at,
{
    if at < ordered.len() {
        let front = ordered.drop_last();
        assert(!precedes(ordered[ordered.len() - 1], text));
        lemma_placed_at(front, text, at);
        assert(front.insert(at, text).push(ordered.last()) =~= ordered.insert(at, text));
    } else {
        assert(ordered.push(text) =~= ordered.insert(at, text));
        if ordered.len() == 0 {
            assert(seq![text] =~= ordered.insert(at, text));
        }
    }
}

/// Puts the strings in ascending order.
pub fn sort_strings(parts: Vec<String>) -> (sorted: Vec<String>)
    ensures
        texts(sorted@) == in_order(texts(parts@)),
{
    let mut sorted: Vec<String> = Vec::new();
    let mut i: usize = 0;
    while i < parts.len()
        invariant
            0 <= i <= parts.len(),
            texts(sorted@) == in_order(texts(parts@).take(i as int)),
        decreases parts.len() - i,
    {
        let item = parts[i].clone();
        let mut at: usize = sorted.len();
        while at > 0
            invariant
                0 <= at <= sorted.len(),
                item@ == parts[i as int]@,
                forall|k: int|
                    at <= k < sorted.len() ==> !precedes(#[trigger] texts(sorted@)[k], item@),
            ensures
                0 <= at <= sorted.len(),
                at == 0 || precedes(texts(sorted@)[at - 1], item@),
                forall|k: int|
                    at <= k < sorted.len() ==> !precedes(#[trigger] texts(sorted@)[k], item@),
            decreases at,
        {
            if str_precedes(sorted[at - 1].as_str(), item.as_str()) {
                break;
            }
            at -= 1;
        }
        proof {
            let shown = texts(parts@).take(i + 1);
            assert(shown.drop_last() == texts(parts@).take(i as int));
            assert(shown.last() == item@);
            lemma_placed_at(texts(sorted@), item@, at as int);
            assert(texts(sorted@.insert(at as int, item)) =~= texts(sorted@).insert(
                at as int,
                item@,
            ));
        }
        sorted.insert(at, item);
        i += 1;
    }
    proof {
        assert(texts(parts@).take(parts.len() as int) == texts(parts@));
    }
    sorted
}

} // verus!
