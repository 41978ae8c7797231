//! Weighted sums over sequences and strictly ascending sequences, with the
//! facts about them that the aggregation proofs rest on.

use vstd::prelude::*;
use vstd::seq_lib::*;

verus! {

/// The sum of `weight` over the items of `s`.
pub open spec fn sum_by<A>(s: Seq<A>, weight: spec_fn(A) -> nat) -> nat
    decreases s.len(),
{
    if s.len() == 0 {
        0
    } else {
        sum_by(s.drop_last(), weight) + weight(s.last())
    }
}

/// Appending one item adds its weight.
pub proof fn lemma_sum_by_push<A>(s: Seq<A>, x: A, weight: spec_fn(A) -> nat)
    ensures
        sum_by(s.push(x), weight) == sum_by(s, weight) + weight(x),
{
    assert(s.push(x).drop_last() =~= s);
}

/// The sum over a concatenation is the sum of the two sums.
pub proof fn lemma_sum_by_concat<A>(a: Seq<A>, b: Seq<A>, weight: spec_fn(A) -> nat)
    ensures
        sum_by(a + b, weight) == sum_by(a, weight) + sum_by(b, weight),
    decreases b.len(),
{
    if b.len() == 0 {
        assert(a + b =~= a);
    } else {
        assert((a + b).drop_last() =~= a + b.drop_last());
        lemma_sum_by_concat(a, b.drop_last(), weight);
    }
}

/// Taking one item out takes its weight out of the sum.
pub proof fn lemma_sum_by_remove<A>(s: Seq<A>, i: int, weight: spec_fn(A) -> nat)
    requires
        0 <= i < s.len(),
    ensures
        sum_by(s, weight) == sum_by(s.remove(i), weight) + weight(s[i]),
{
    let front = s.subrange(0, i);
    let back = s.subrange(i + 1, s.len() as int);
    assert(s =~= front.push(s[i]) + back);
    lemma_sum_by_concat(front.push(s[i]), back, weight);
    lemma_sum_by_push(front, s[i], weight);
    lemma_sum_by_concat(front, back, weight);
}

/// Rearranging the items leaves the sum unchanged.
pub proof fn lemma_sum_by_permutation<A>(a: Seq<A>, b: Seq<A>, weight: spec_fn(A) -> nat)
    requires
        a.to_multiset() == b.to_multiset(),
    ensures
        sum_by(a, weight) == sum_by(b, weight),
    decreases a.len(),
{
    to_multiset_len(a);
    to_multiset_len(b);
    if a.len() > 0 {
        let x = a.last();
        assert(a.contains(x));
        to_multiset_contains(a, x);
        to_multiset_contains(b, x);
        let j = choose|j: int| 0 <= j < b.len() && b[j] == x;
        to_multiset_remove(a, a.len() - 1);
        to_multiset_remove(b, j);
        assert(a.remove(a.len() - 1) =~= a.drop_last());
        lemma_sum_by_permutation(a.drop_last(), b.remove(j), weight);
        lemma_sum_by_remove(b, j, weight);
    }
}

/// Two sequences of one length whose items weigh the same, position by
/// position, have the same sum.
pub proof fn lemma_sum_by_pointwise<A, B>(
    a: Seq<A>,
    weight_a: spec_fn(A) -> nat,
    b: Seq<B>,
    weight_b: spec_fn(B) -> nat,
)
    requires
        a.len() == b.len(),
        forall|i: int| 0 <= i < a.len() ==> weight_a(#[trigger] a[i]) == weight_b(b[i]),
    ensures
        sum_by(a, weight_a) == sum_by(b, weight_b),
    decreases a.len(),
{
    if a.len() > 0 {
        assert forall|i: int| 0 <= i < a.drop_last().len() implies weight_a(
            #[trigger] a.drop_last()[i],
        ) == weight_b(b.drop_last()[i]) by {
            assert(a.drop_last()[i] == a[i]);
        }
        lemma_sum_by_pointwise(a.drop_last(), weight_a, b.drop_last(), weight_b);
        assert(a.last() == a[a.len() - 1]);
    }
}

/// A sum of weights that are each at most `bound` is at most the number of
/// items times `bound`.
pub proof fn lemma_sum_by_bound<A>(s: Seq<A>, weight: spec_fn(A) -> nat, bound: nat)
    requires
        forall|i: int| 0 <= i < s.len() ==> weight(#[trigger] s[i]) <= bound,
    ensures
        sum_by(s, weight) <= s.len() * bound,
    decreases s.len(),
{
    if s.len() > 0 {
        assert forall|i: int| 0 <= i < s.drop_last().len() implies weight(
            #[trigger] s.drop_last()[i],
        ) <= bound by {
            assert(s.drop_last()[i] == s[i]);
        }
        lemma_sum_by_bound(s.drop_last(), weight, bound);
        assert(s.last() == s[s.len() - 1]);
        assert(s.len() * bound == s.drop_last().len() * bound + bound) by (nonlinear_arith)
            requires
                s.len() == s.drop_last().len() + 1,
        ;
    }
}

/// A positive sum has an item of positive weight.
pub proof fn lemma_sum_by_positive<A>(s: Seq<A>, weight: spec_fn(A) -> nat) -> (i: int)
    requires
        sum_by(s, weight) > 0,
    ensures
        0 <= i < s.len(),
        weight(s[i]) > 0,
    decreases s.len(),
{
    if weight(s.last()) > 0 {
        s.len() - 1
    } else {
        lemma_sum_by_positive(s.drop_last(), weight)
    }
}

/// The sum is at least the weight of any one item.
pub proof fn lemma_sum_by_at_least<A>(s: Seq<A>, i: int, weight: spec_fn(A) -> nat)
    requires
        0 <= i < s.len(),
    ensures
        sum_by(s, weight) >= weight(s[i]),
{
    lemma_sum_by_remove(s, i, weight);
}

/// Where every item but the one at `i` weighs nothing, the sum is the weight
/// of that item.
pub proof fn lemma_sum_by_single<A>(s: Seq<A>, i: int, weight: spec_fn(A) -> nat)
    requires
        0 <= i < s.len(),
        forall|j: int| 0 <= j < s.len() && j != i ==> weight(#[trigger] s[j]) == 0,
    ensures
        sum_by(s, weight) == weight(s[i]),
{
    lemma_sum_by_remove(s, i, weight);
    let rest = s.remove(i);
    assert forall|j: int| 0 <= j < rest.len() implies weight(#[trigger] rest[j]) <= 0 by {
        if j < i {
            assert(rest[j] == s[j]);
        } else {
            assert(rest[j] == s[j + 1]);
        }
    }
    lemma_sum_by_bound(rest, weight, 0);
}

/// The weight of a run of items: the sum of `weight` over it.
pub open spec fn run_weight<A>(weight: spec_fn(A) -> nat) -> spec_fn(Seq<A>) -> nat {
    |run: Seq<A>| sum_by(run, weight)
}

/// The sum over runs laid end to end is the sum of the runs' sums.
pub proof fn lemma_sum_by_flatten<A>(runs: Seq<Seq<A>>, weight: spec_fn(A) -> nat)
    ensures
        sum_by(runs.flatten(), weight) == sum_by(runs, run_weight(weight)),
    decreases runs.len(),
{
    if runs.len() > 0 {
        let front = runs.drop_last();
        assert(front.push(runs.last()) =~= runs);
        front.lemma_flatten_push(runs.last());
        lemma_sum_by_flatten(front, weight);
        lemma_sum_by_concat(front.flatten(), runs.last(), weight);
    }
}

/// The weight that counts every item once.
pub open spec fn unit_weight<A>() -> spec_fn(A) -> nat {
    |item: A| 1nat
}

/// Counting every item once gives the length.
pub proof fn lemma_sum_by_unit<A>(s: Seq<A>)
    ensures
        sum_by(s, unit_weight()) == s.len(),
    decreases s.len(),
{
    if s.len() > 0 {
        lemma_sum_by_unit(s.drop_last());
    }
}

/// Weighs an item 1 if it meets the condition, else 0.
pub open spec fn count_if<A>(condition: spec_fn(A) -> bool) -> spec_fn(A) -> nat {
    |item: A| if condition(item) { 1nat } else { 0nat }
}

/// Weighs an item by `weight` if it meets the condition, else 0.
pub open spec fn weight_if<A>(condition: spec_fn(A) -> bool, weight: spec_fn(A) -> nat) -> spec_fn(
    A,
) -> nat {
    |item: A| if condition(item) { weight(item) } else { 0nat }
}

/// Where one weight is, item by item, the sum of two others, so are the
/// sums.
pub proof fn lemma_sum_by_add<A>(
    s: Seq<A>,
    first: spec_fn(A) -> nat,
    second: spec_fn(A) -> nat,
    both: spec_fn(A) -> nat,
)
    requires
        forall|i: int| 0 <= i < s.len() ==> both(#[trigger] s[i]) == first(s[i]) + second(s[i]),
    ensures
        sum_by(s, both) == sum_by(s, first) + sum_by(s, second),
    decreases s.len(),
{
    if s.len() > 0 {
        assert forall|i: int| 0 <= i < s.drop_last().len() implies both(
            #[trigger] s.drop_last()[i],
        ) == first(s.drop_last()[i]) + second(s.drop_last()[i]) by {
            assert(s.drop_last()[i] == s[i]);
        }
        lemma_sum_by_add(s.drop_last(), first, second, both);
        assert(s.last() == s[s.len() - 1]);
    }
}

/// The items of `s` that belong to the class, weighed by `weight`.
pub open spec fn member_weight<A, C>(
    belongs: spec_fn(C, A) -> bool,
    class: C,
    weight: spec_fn(A) -> nat,
) -> spec_fn(A) -> nat {
    |item: A| if belongs(class, item) { weight(item) } else { 0nat }
}

/// Weighs a class by the sum of `weight` over the items of `s` that belong
/// to it.
pub open spec fn class_sum<A, C>(
    s: Seq<A>,
    belongs: spec_fn(C, A) -> bool,
    weight: spec_fn(A) -> nat,
) -> spec_fn(C) -> nat {
    |class: C| sum_by(s, member_weight(belongs, class, weight))
}

/// Exactly one of the classes holds the item: the one at `i`.
pub open spec fn only_class<A, C>(
    classes: Seq<C>,
    belongs: spec_fn(C, A) -> bool,
    item: A,
    i: int,
) -> bool {
    &&& 0 <= i < classes.len()
    &&& belongs(classes[i], item)
    &&& forall|j: int| 0 <= j < classes.len() && j != i ==> !belongs(#[trigger] classes[j], item)
}

/// The item belongs to exactly one of the classes.
pub open spec fn in_one_class<A, C>(
    classes: Seq<C>,
    belongs: spec_fn(C, A) -> bool,
    item: A,
) -> bool {
    exists|i: int| only_class(classes, belongs, item, i)
}

/// Every item of `s` belongs to exactly one of the classes.
pub open spec fn classes_partition<A, C>(
    s: Seq<A>,
    classes: Seq<C>,
    belongs: spec_fn(C, A) -> bool,
) -> bool {
    forall|k: int| 0 <= k < s.len() ==> in_one_class(classes, belongs, #[trigger] s[k])
}

/// Double counting: where every item belongs to exactly one class, the sums
/// taken class by class add up to the sum over all items.
pub proof fn lemma_sum_by_classes<A, C>(
    s: Seq<A>,
    classes: Seq<C>,
    belongs: spec_fn(C, A) -> bool,
    weight: spec_fn(A) -> nat,
)
    requires
        classes_partition(s, classes, belongs),
    ensures
        sum_by(classes, class_sum(s, belongs, weight)) == sum_by(s, weight),
    decreases s.len(),
{
    if s.len() == 0 {
        lemma_sum_by_bound(classes, class_sum(s, belongs, weight), 0);
    } else {
        let front = s.drop_last();
        let item = s.last();
        assert forall|k: int| 0 <= k < front.len() implies in_one_class(
            classes,
            belongs,
            #[trigger] front[k],
        ) by {
            assert(front[k] == s[k]);
        }
        lemma_sum_by_classes(front, classes, belongs, weight);
        assert(item == s[s.len() - 1]);
        let i = choose|i: int| only_class(classes, belongs, item, i);
        let share = |class: C| member_weight(belongs, class, weight)(item);
        lemma_sum_by_single(classes, i, share);
        lemma_sum_by_add(
            classes,
            class_sum(front, belongs, weight),
            share,
            class_sum(s, belongs, weight),
        );
    }
}

/// The sum over a prefix is at most the sum over the whole.
pub proof fn lemma_sum_by_prefix<A>(s: Seq<A>, weight: spec_fn(A) -> nat, n: int)
    requires
        0 <= n <= s.len(),
    ensures
        sum_by(s.take(n), weight) <= sum_by(s, weight),
{
    assert(s =~= s.take(n) + s.skip(n));
    lemma_sum_by_concat(s.take(n), s.skip(n), weight);
}

/// The items ascend strictly: each stands `before` every later one.
pub open spec fn ascends<K>(s: Seq<K>, before: spec_fn(K, K) -> bool) -> bool {
    forall|i: int, j: int| #![trigger s[i], s[j]] 0 <= i < j < s.len() ==> before(s[i], s[j])
}

/// No two items stand before each other, and none before itself.
pub open spec fn is_asymmetric<K>(before: spec_fn(K, K) -> bool) -> bool {
    forall|x: K, y: K| !(#[trigger] before(x, y) && before(y, x))
}

/// Two strictly ascending sequences that hold each other's items agree on
/// their first `n` places.
proof fn lemma_ascending_prefix<K>(a: Seq<K>, b: Seq<K>, before: spec_fn(K, K) -> bool, n: int)
    requires
        ascends(a, before),
        ascends(b, before),
        is_asymmetric(before),
        forall|i: int| 0 <= i < a.len() ==> b.contains(#[trigger] a[i]),
        forall|j: int| 0 <= j < b.len() ==> a.contains(#[trigger] b[j]),
        0 <= n <= a.len(),
    ensures
        n <= b.len(),
        forall|i: int| 0 <= i < n ==> a[i] == b[i],
    decreases n,
{
    if n > 0 {
        let last = n - 1;
        lemma_ascending_prefix(a, b, before, last);
        assert(b.contains(a[last]));
        let j = choose|j: int| 0 <= j < b.len() && b[j] == a[last];
        if j < last {
            assert(before(a[j], a[last]));
        } else if j > last {
            assert(a.contains(b[last]));
            let m = choose|m: int| 0 <= m < a.len() && a[m] == b[last];
            assert(before(b[last], b[j]));
            if m < last {
                assert(before(a[m], a[last]));
            } else if m > last {
                assert(before(a[last], a[m]));
            }
        }
    }
}

/// Two strictly ascending sequences that hold each other's items are the
/// same sequence.
pub proof fn lemma_ascending_unique<K>(a: Seq<K>, b: Seq<K>, before: spec_fn(K, K) -> bool)
    requires
        ascends(a, before),
        ascends(b, before),
        is_asymmetric(before),
        forall|i: int| 0 <= i < a.len() ==> b.contains(#[trigger] a[i]),
        forall|j: int| 0 <= j < b.len() ==> a.contains(#[trigger] b[j]),
    ensures
        a == b,
{
    lemma_ascending_prefix(a, b, before, a.len() as int);
    lemma_ascending_prefix(b, a, before, b.len() as int);
    assert(a =~= b);
}

} // verus!
