//! Text as sequences of characters: ordering, substring search and joining.

use itertools::Itertools;
use vstd::prelude::*;
use vstd::seq_lib::*;
use vstd::string::*;

verus! {

/// Lexicographic order on texts by code point: `a` comes no later than `b`
/// when `a` is a prefix of `b` or the first position at which they differ
/// holds the smaller character in `a`.
pub open spec fn text_le(a: Seq<char>, b: Seq<char>) -> bool {
    exists|k: int| text_le_at(a, b, k)
}

/// `k` is a position that shows `text_le(a, b)`.
pub open spec fn text_le_at(a: Seq<char>, b: Seq<char>, k: int) -> bool {
    &&& 0 <= k <= a.len()
    &&& k <= b.len()
    &&& a.take(k) == b.take(k)
    &&& (k == a.len() || (k < b.len() && (a[k] as int) < (b[k] as int)))
}

/// Strict lexicographic order on texts.
pub open spec fn text_lt(a: Seq<char>, b: Seq<char>) -> bool {
    text_le(a, b) && a != b
}

/// Two texts that each come no later than the other are the same text.
pub proof fn lemma_text_le_antisymmetric(a: Seq<char>, b: Seq<char>)
    requires
        text_le(a, b),
        text_le(b, a),
    ensures
        a == b,
{
    let k1 = choose|k: int| text_le_at(a, b, k);
    let k2 = choose|k: int| text_le_at(b, a, k);
    if k1 == a.len() && k2 == b.len() {
        assert(a.take(k1) == a);
        assert(b.take(k2) == b);
        assert(a.len() == b.len());
        assert(a =~= b);
    } else if k1 == a.len() {
        assert(a.take(k1) == a);
        assert(b.take(k1)[k2] == b[k2]);
        assert(a[k2] == b[k2]);
    } else if k2 == b.len() {
        assert(b.take(k2) == b);
        assert(a.take(k2)[k1] == a[k1]);
        assert(a[k1] == b[k1]);
    } else if k1 < k2 {
        assert(a.take(k2)[k1] == a[k1]);
        assert(b.take(k2)[k1] == b[k1]);
    } else if k2 < k1 {
        assert(a.take(k1)[k2] == a[k2]);
        assert(b.take(k1)[k2] == b[k2]);
    }
}

/// Every text comes no later than itself.
pub proof fn lemma_text_le_reflexive(a: Seq<char>)
    ensures
        text_le(a, a),
{
    assert(text_le_at(a, a, a.len() as int));
}

/// Texts that come in order pairwise come in order overall.
pub proof fn lemma_text_le_transitive(a: Seq<char>, b: Seq<char>, c: Seq<char>)
    requires
        text_le(a, b),
        text_le(b, c),
    ensures
        text_le(a, c),
{
    let k1 = choose|k: int| text_le_at(a, b, k);
    let k2 = choose|k: int| text_le_at(b, c, k);
    let k = if k1 <= k2 {
        k1
    } else {
        k2
    };
    assert(a.take(k) =~= a.take(k1).take(k));
    assert(b.take(k) =~= b.take(k1).take(k));
    assert(b.take(k) =~= b.take(k2).take(k));
    assert(c.take(k) =~= c.take(k2).take(k));
    if k1 < k2 {
        assert(b.take(k2)[k1] == b[k1]);
        assert(c.take(k2)[k1] == c[k1]);
    } else if k2 < k1 {
        assert(a.take(k1)[k2] == a[k2]);
        assert(b.take(k1)[k2] == b[k2]);
    }
    assert(text_le_at(a, c, k));
}

/// Of two texts that agree on their first `n` characters, one comes no
/// later than the other.
proof fn lemma_text_le_total_from(a: Seq<char>, b: Seq<char>, n: int)
    requires
        0 <= n <= a.len(),
        n <= b.len(),
        a.take(n) == b.take(n),
    ensures
        text_le(a, b) || text_le(b, a),
    decreases a.len() - n,
{
    if n == a.len() {
        assert(text_le_at(a, b, n));
    } else if n == b.len() {
        assert(text_le_at(b, a, n));
    } else if (a[n] as int) < (b[n] as int) {
        assert(text_le_at(a, b, n));
    } else if (b[n] as int) < (a[n] as int) {
        assert(text_le_at(b, a, n));
    } else {
        assert(a[n] == b[n]);
        assert(a.take(n + 1) =~= a.take(n).push(a[n]));
        assert(b.take(n + 1) =~= b.take(n).push(b[n]));
        lemma_text_le_total_from(a, b, n + 1);
    }
}

/// Of any two texts, one comes no later than the other.
pub proof fn lemma_text_le_total(a: Seq<char>, b: Seq<char>)
    ensures
        text_le(a, b) || text_le(b, a),
{
    assert(a.take(0) =~= b.take(0));
    lemma_text_le_total_from(a, b, 0);
}

/// `needle` occurs in `hay` as a run of consecutive characters.
pub open spec fn occurs_in(needle: Seq<char>, hay: Seq<char>) -> bool {
    exists|i: int| occurs_at(needle, hay, i)
}

/// `needle` occurs in `hay` starting at position `i`.
pub open spec fn occurs_at(needle: Seq<char>, hay: Seq<char>, i: int) -> bool {
    0 <= i && i + needle.len() <= hay.len() && hay.subrange(i, i + needle.len()) == needle
}

/// Whether `needle` occurs in `hay`, by `str::contains` with a string
/// pattern. Taken on trust from its documentation: it is true exactly when
/// the pattern matches a run of consecutive characters of the text; the
/// empty pattern matches every text.
#[verifier::external_body]
pub(crate) fn contains_text(hay: &str, needle: &str) -> (found: bool)
    ensures
        found == occurs_in(needle@, hay@),
{
    hay.contains(needle)
}

/// A fresh text holding `base` followed by `suffix`.
pub fn with_suffix(base: &String, suffix: &str) -> (joined: String)
    ensures
        joined@ == base@ + suffix@,
{
    base.clone().concat(suffix)
}

/// The texts in order, with the separator between neighbours.
pub open spec fn joined(texts: Seq<Seq<char>>, separator: Seq<char>) -> Seq<char>
    decreases texts.len(),
{
    if texts.len() == 0 {
        Seq::empty()
    } else if texts.len() == 1 {
        texts[0]
    } else {
        joined(texts.drop_last(), separator) + separator + texts.last()
    }
}

/// The texts in order, with the separator between neighbours.
pub fn join_texts(texts: &Vec<String>, separator: &str) -> (text: String)
    ensures
        text@ == joined(texts.deep_view(), separator@),
{
    let ghost view = texts.deep_view();
    let mut text = String::new();
    let mut i: usize = 0;
    while i < texts.len()
        invariant
            i <= texts.len(),
            view == texts.deep_view(),
            text@ == joined(view.take(i as int), separator@),
        decreases texts.len() - i,
    {
        proof {
            assert(view.take(i + 1).drop_last() =~= view.take(i as int));
            assert(view.take(i + 1).last() == texts[i as int]@);
        }
        if i > 0 {
            text.append(separator);
        }
        text.append(texts[i].as_str());
        proof {
            if i == 0 {
                assert(text@ =~= texts[i as int]@);
            }
        }
        i = i + 1;
    }
    proof {
        assert(view.take(i as int) =~= view);
    }
    text
}

/// The texts ascend, equal ones side by side.
pub open spec fn texts_ascend(texts: Seq<Seq<char>>) -> bool {
    forall|i: int, j: int|
        #![trigger texts[i], texts[j]]
        0 <= i < j < texts.len() ==> text_le(texts[i], texts[j])
}

/// The texts ascend strictly, so none occurs twice.
pub open spec fn texts_ascend_strictly(texts: Seq<Seq<char>>) -> bool {
    forall|i: int, j: int|
        #![trigger texts[i], texts[j]]
        0 <= i < j < texts.len() ==> text_lt(texts[i], texts[j])
}

/// The texts with each run of equal neighbours cut down to one of them.
pub open spec fn without_repeats(texts: Seq<Seq<char>>) -> Seq<Seq<char>>
    decreases texts.len(),
{
    if texts.len() <= 1 {
        texts
    } else if texts.last() == texts[texts.len() - 2] {
        without_repeats(texts.drop_last())
    } else {
        without_repeats(texts.drop_last()).push(texts.last())
    }
}

/// Sorts the texts with `Itertools::sorted`. Taken on trust from its source,
/// which sorts a vector of the items with `slice::sort`: the same texts come
/// back, rearranged so that they ascend in the order of `String`, which is
/// the order by code point.
#[verifier::external_body]
fn sort_texts(texts: Vec<String>) -> (sorted: Vec<String>)
    ensures
        sorted.deep_view().to_multiset() == texts.deep_view().to_multiset(),
        texts_ascend(sorted.deep_view()),
{
    texts.into_iter().sorted().collect()
}

/// Drops repeated neighbours with `Itertools::dedup`. Taken on trust from
/// its documentation: of each run of equal neighbours one is left, and the
/// order stays.
#[verifier::external_body]
fn dedup_texts(texts: Vec<String>) -> (distinct: Vec<String>)
    ensures
        distinct.deep_view() == without_repeats(texts.deep_view()),
{
    texts.into_iter().dedup().collect()
}

/// Among ascending texts, cutting repeats leaves the same texts, each once
/// and in strictly ascending order.
proof fn lemma_without_repeats_of_ascending(texts: Seq<Seq<char>>)
    requires
        texts_ascend(texts),
    ensures
        texts_ascend_strictly(without_repeats(texts)),
        forall|text: Seq<char>| without_repeats(texts).contains(text) <==> texts.contains(text),
        texts.len() > 0 ==> without_repeats(texts).len() > 0 && without_repeats(texts).last()
            == texts.last(),
    decreases texts.len(),
{
    let cut = without_repeats(texts);
    if texts.len() > 1 {
        let front = texts.drop_last();
        let last = texts.last();
        assert forall|i: int, j: int|
            #![trigger front[i], front[j]]
            0 <= i < j < front.len() implies text_le(front[i], front[j]) by {
            assert(text_le(texts[i], texts[j]));
        }
        lemma_without_repeats_of_ascending(front);
        let cut_front = without_repeats(front);
        assert(front.last() == texts[texts.len() - 2]);
        assert forall|text: Seq<char>| cut.contains(text) <==> texts.contains(text) by {
            if texts.contains(text) {
                let m = choose|m: int| 0 <= m < texts.len() && texts[m] == text;
                if m < texts.len() - 1 {
                    assert(front[m] == text);
                    assert(front.contains(text));
                    let c = choose|c: int| 0 <= c < cut_front.len() && cut_front[c] == text;
                    assert(cut[c] == text);
                } else if last == front.last() {
                    assert(front[front.len() - 1] == text);
                    assert(front.contains(text));
                } else {
                    assert(cut[cut.len() - 1] == text);
                }
            }
            if cut.contains(text) {
                let c = choose|c: int| 0 <= c < cut.len() && cut[c] == text;
                if c < cut_front.len() {
                    assert(cut_front[c] == text);
                    assert(cut_front.contains(text));
                    assert(front.contains(text));
                    let m = choose|m: int| 0 <= m < front.len() && front[m] == text;
                    assert(texts[m] == text);
                } else {
                    assert(texts[texts.len() - 1] == text);
                }
            }
        }
        if last != front.last() {
            assert forall|i: int, j: int|
                #![trigger cut[i], cut[j]]
                0 <= i < j < cut.len() implies text_lt(cut[i], cut[j]) by {
                if j < cut_front.len() {
                    assert(text_lt(cut_front[i], cut_front[j]));
                } else {
                    assert(cut_front[i] == cut[i]);
                    assert(cut_front.contains(cut[i]));
                    assert(front.contains(cut[i]));
                    let m = choose|m: int| 0 <= m < front.len() && front[m] == cut[i];
                    assert(text_le(texts[m], texts[texts.len() - 1]));
                    if cut[i] == last {
                        if m < front.len() - 1 {
                            assert(text_le(texts[m], texts[texts.len() - 2]));
                        } else {
                            lemma_text_le_reflexive(last);
                        }
                        assert(text_le(texts[texts.len() - 2], texts[texts.len() - 1]));
                        lemma_text_le_antisymmetric(front.last(), last);
                    }
                }
            }
        }
    }
}

/// The texts that occur among the given ones, each once, in ascending
/// order.
pub fn sorted_distinct(texts: Vec<String>) -> (distinct: Vec<String>)
    ensures
        texts_ascend_strictly(distinct.deep_view()),
        forall|text: Seq<char>|
            distinct.deep_view().contains(text) <==> texts.deep_view().contains(text),
{
    let ghost given = texts.deep_view();
    let sorted = sort_texts(texts);
    let ghost sorted_view = sorted.deep_view();
    let distinct = dedup_texts(sorted);
    proof {
        lemma_without_repeats_of_ascending(sorted_view);
        assert forall|text: Seq<char>| sorted_view.contains(text) <==> given.contains(text) by {
            to_multiset_contains(sorted_view, text);
            to_multiset_contains(given, text);
        }
    }
    distinct
}

} // verus!
