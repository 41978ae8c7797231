//! Counting and totalling amounts by key.
//!
//! A key is a pair of texts; keys are ordered first by the first text, then
//! by the second. [`tally`] turns a list of keyed amounts into one total per
//! key that occurs, in ascending key order.

use crate::sums::{
    ascends, class_sum, in_one_class, is_asymmetric, lemma_ascending_unique,
    lemma_sum_by_at_least, lemma_sum_by_bound, lemma_sum_by_classes, lemma_sum_by_flatten,
    lemma_sum_by_permutation, lemma_sum_by_pointwise, lemma_sum_by_positive, lemma_sum_by_push,
    lemma_sum_by_single, lemma_sum_by_unit, member_weight, only_class, run_weight, sum_by,
    unit_weight,
};
use crate::text::{lemma_text_le_antisymmetric, text_le, text_lt};
use itertools::Itertools;
use vstd::prelude::*;
use vstd::seq_lib::*;

verus! {

/// A key as a mathematical value.
pub type Key = (Seq<char>, Seq<char>);

/// One keyed amount.
#[derive(Debug, PartialEq, Eq)]
pub struct Entry {
    pub key: (String, String),
    pub amount: u64,
}

/// The mathematical value of an [`Entry`].
pub struct EntryView {
    pub key: Key,
    pub amount: u64,
}

impl DeepView for Entry {
    type V = EntryView;

    open spec fn deep_view(&self) -> EntryView {
        EntryView { key: (self.key.0@, self.key.1@), amount: self.amount }
    }
}

impl View for Entry {
    type V = EntryView;

    open spec fn view(&self) -> EntryView {
        self.deep_view()
    }
}

/// What the entries of one key add up to.
#[derive(Debug, PartialEq, Eq)]
pub struct Total {
    pub key: (String, String),
    /// How many entries have the key.
    pub count: usize,
    /// The sum of their amounts.
    pub amount: u128,
}

/// The mathematical value of a [`Total`].
pub struct TotalView {
    pub key: Key,
    pub count: usize,
    pub amount: u128,
}

impl DeepView for Total {
    type V = TotalView;

    open spec fn deep_view(&self) -> TotalView {
        TotalView { key: (self.key.0@, self.key.1@), count: self.count, amount: self.amount }
    }
}

impl View for Total {
    type V = TotalView;

    open spec fn view(&self) -> TotalView {
        self.deep_view()
    }
}

/// The order of keys: by the first text, and among equal first texts by the
/// second.
pub open spec fn key_le(a: Key, b: Key) -> bool {
    text_lt(a.0, b.0) || (a.0 == b.0 && text_le(a.1, b.1))
}

/// The strict order of keys.
pub open spec fn key_lt(a: Key, b: Key) -> bool {
    key_le(a, b) && a != b
}

/// Two keys that each come no later than the other are the same key.
pub proof fn lemma_key_le_antisymmetric(a: Key, b: Key)
    requires
        key_le(a, b),
        key_le(b, a),
    ensures
        a == b,
{
    if a.0 != b.0 {
        lemma_text_le_antisymmetric(a.0, b.0);
    } else {
        lemma_text_le_antisymmetric(a.1, b.1);
    }
}

/// Weighs an entry 1 if it has the key, else 0.
pub open spec fn one_if_key(key: Key) -> spec_fn(EntryView) -> nat {
    |entry: EntryView| if entry.key == key { 1nat } else { 0nat }
}

/// Weighs an entry by its amount if it has the key, else 0.
pub open spec fn amount_if_key(key: Key) -> spec_fn(EntryView) -> nat {
    |entry: EntryView| if entry.key == key { entry.amount as nat } else { 0nat }
}

/// Weighs an entry by its amount.
pub open spec fn amount_weight() -> spec_fn(EntryView) -> nat {
    |entry: EntryView| entry.amount as nat
}

/// How many of the entries have the key.
pub open spec fn count_of(entries: Seq<EntryView>, key: Key) -> nat {
    sum_by(entries, one_if_key(key))
}

/// The sum of the amounts of the entries that have the key.
pub open spec fn amount_of(entries: Seq<EntryView>, key: Key) -> nat {
    sum_by(entries, amount_if_key(key))
}

/// The sum of the amounts of all the entries.
pub open spec fn total_amount(entries: Seq<EntryView>) -> nat {
    sum_by(entries, amount_weight())
}

/// Weighs a total by its count.
pub open spec fn count_weight() -> spec_fn(TotalView) -> nat {
    |total: TotalView| total.count as nat
}

/// Weighs a total by its amount.
pub open spec fn sum_weight() -> spec_fn(TotalView) -> nat {
    |total: TotalView| total.amount as nat
}

/// The counts of all the totals together.
pub open spec fn sum_counts(totals: Seq<TotalView>) -> nat {
    sum_by(totals, count_weight())
}

/// The amounts of all the totals together.
pub open spec fn sum_amounts(totals: Seq<TotalView>) -> nat {
    sum_by(totals, sum_weight())
}

/// One of the totals is for the key.
pub open spec fn has_key(totals: Seq<TotalView>, key: Key) -> bool {
    exists|i: int| 0 <= i < totals.len() && (#[trigger] totals[i]).key == key
}

/// `totals` is the tally of `entries`: each total counts and sums exactly
/// the entries of its key, the keys ascend strictly (so none occurs twice),
/// and every key among the entries has its total.
pub open spec fn is_tally_of(totals: Seq<TotalView>, entries: Seq<EntryView>) -> bool {
    &&& forall|i: int|
        0 <= i < totals.len() ==> {
            &&& (#[trigger] totals[i]).count > 0
            &&& totals[i].count == count_of(entries, totals[i].key)
            &&& totals[i].amount == amount_of(entries, totals[i].key)
        }
    &&& forall|i: int, j: int|
        #![trigger totals[i], totals[j]]
        0 <= i < j < totals.len() ==> key_lt(totals[i].key, totals[j].key)
    &&& forall|k: int| 0 <= k < entries.len() ==> has_key(totals, (#[trigger] entries[k]).key)
}

/// The keys of the entries ascend, equal keys side by side.
pub open spec fn keys_ascend(entries: Seq<EntryView>) -> bool {
    forall|i: int, j: int|
        #![trigger entries[i], entries[j]]
        0 <= i < j < entries.len() ==> key_le(entries[i].key, entries[j].key)
}

/// `runs` cuts a list into its runs of equal keys: no run is empty, a run's
/// entries share one key, and neighbouring runs differ in key.
pub open spec fn are_key_runs(runs: Seq<Seq<EntryView>>) -> bool {
    &&& forall|a: int| 0 <= a < runs.len() ==> (#[trigger] runs[a]).len() > 0
    &&& forall|a: int, j: int|
        #![trigger runs[a][j]]
        0 <= a < runs.len() && 0 <= j < runs[a].len() ==> runs[a][j].key == runs[a][0].key
    &&& forall|a: int|
        #![trigger runs[a]]
        0 <= a < runs.len() - 1 ==> runs[a][0].key != runs[a + 1][0].key
}

/// Sorts the entries by key with `Itertools::sorted_by_key`. Taken on trust
/// from its source, which sorts a vector of the items with
/// `slice::sort_by_key`: the same entries come back, rearranged so that
/// their keys ascend in the order of pairs of `String`s, which goes by the
/// first text and then the second, each by code point.
#[verifier::external_body]
fn sort_entries(entries: Vec<Entry>) -> (sorted: Vec<Entry>)
    ensures
        sorted.deep_view().to_multiset() == entries.deep_view().to_multiset(),
        keys_ascend(sorted.deep_view()),
{
    entries.into_iter().sorted_by_key(|entry| entry.key.clone()).collect()
}

/// Cuts the entries into runs of equal keys with `Itertools::group_by`.
/// Taken on trust from its documentation: neighbours of one key go into one
/// group, so the groups, laid end to end, are the entries in their given
/// order, no group is empty, and neighbouring groups differ in key.
#[verifier::external_body]
fn group_runs(entries: Vec<Entry>) -> (runs: Vec<Vec<Entry>>)
    ensures
        runs.deep_view().flatten() == entries.deep_view(),
        are_key_runs(runs.deep_view()),
{
    let groups = entries.into_iter().group_by(|entry| entry.key.clone());
    let mut runs = Vec::new();
    for (_, run) in &groups {
        runs.push(run.collect());
    }
    runs
}

/// Where the run at `a` starts when the runs are laid end to end.
pub open spec fn run_start<A>(runs: Seq<Seq<A>>, a: int) -> int {
    runs.take(a).flatten().len() as int
}

/// A run starts where the run before it ends.
proof fn lemma_run_start_next<A>(runs: Seq<Seq<A>>, a: int)
    requires
        0 <= a < runs.len(),
    ensures
        run_start(runs, a + 1) == run_start(runs, a) + runs[a].len(),
        runs.take(a + 1).flatten() == runs.take(a).flatten() + runs[a],
{
    assert(runs.take(a + 1) =~= runs.take(a).push(runs[a]));
    runs.take(a).lemma_flatten_push(runs[a]);
}

/// A later run starts no earlier than where an earlier run ends.
proof fn lemma_run_start_monotone<A>(runs: Seq<Seq<A>>, a: int, b: int)
    requires
        0 <= a < b <= runs.len(),
    ensures
        run_start(runs, a) + runs[a].len() <= run_start(runs, b),
    decreases b - a,
{
    lemma_run_start_next(runs, b - 1);
    if a < b - 1 {
        lemma_run_start_monotone(runs, a, b - 1);
    }
}

/// The item at `j` of the run at `a` stands `j` places after the start of
/// that run when the runs are laid end to end.
proof fn lemma_flatten_at<A>(runs: Seq<Seq<A>>, a: int, j: int)
    requires
        0 <= a < runs.len(),
        0 <= j < runs[a].len(),
    ensures
        0 <= run_start(runs, a) + j < runs.flatten().len(),
        runs.flatten()[run_start(runs, a) + j] == runs[a][j],
{
    lemma_run_start_next(runs, a);
    assert(runs =~= runs.take(a + 1) + runs.skip(a + 1));
    lemma_flatten_concat(runs.take(a + 1), runs.skip(a + 1));
}

/// In a sorted list cut into runs, the keys of the runs ascend strictly.
proof fn lemma_run_keys_ascend(runs: Seq<Seq<EntryView>>, a: int, b: int)
    requires
        keys_ascend(runs.flatten()),
        are_key_runs(runs),
        0 <= a < b < runs.len(),
    ensures
        key_lt(runs[a][0].key, runs[b][0].key),
{
    let flat = runs.flatten();
    lemma_flatten_at(runs, a, 0);
    lemma_flatten_at(runs, b, 0);
    lemma_flatten_at(runs, a + 1, 0);
    lemma_run_start_monotone(runs, a, b);
    let pa = run_start(runs, a);
    let pn = run_start(runs, a + 1);
    let pb = run_start(runs, b);
    assert(runs[a].len() > 0);
    assert(key_le(flat[pa].key, flat[pb].key));
    if runs[a][0].key == runs[b][0].key {
        lemma_run_start_monotone(runs, a, a + 1);
        assert(key_le(flat[pa].key, flat[pn].key));
        if a + 1 < b {
            lemma_run_start_monotone(runs, a + 1, b);
            assert(runs[a + 1].len() > 0);
            assert(key_le(flat[pn].key, flat[pb].key));
        }
        lemma_key_le_antisymmetric(runs[a][0].key, runs[a + 1][0].key);
        assert(false);
    }
}

/// Within a run, the entries of the run's key are all of them; of another
/// key, none.
proof fn lemma_run_weights(run: Seq<EntryView>, key: Key)
    requires
        run.len() > 0,
        forall|j: int| 0 <= j < run.len() ==> (#[trigger] run[j]).key == run[0].key,
    ensures
        run[0].key == key ==> sum_by(run, one_if_key(key)) == run.len(),
        run[0].key == key ==> sum_by(run, amount_if_key(key)) == total_amount(run),
        run[0].key != key ==> sum_by(run, one_if_key(key)) == 0,
        run[0].key != key ==> sum_by(run, amount_if_key(key)) == 0,
{
    if run[0].key == key {
        lemma_sum_by_pointwise(run, one_if_key(key), run, unit_weight());
        lemma_sum_by_unit(run);
        lemma_sum_by_pointwise(run, amount_if_key(key), run, amount_weight());
    } else {
        lemma_sum_by_bound(run, one_if_key(key), 0);
        lemma_sum_by_bound(run, amount_if_key(key), 0);
    }
}

/// The totals taken run by run from a sorted rearrangement of the entries
/// are the tally of the entries.
proof fn lemma_runs_tally(
    entries: Seq<EntryView>,
    runs: Seq<Seq<EntryView>>,
    totals: Seq<TotalView>,
)
    requires
        runs.flatten().to_multiset() == entries.to_multiset(),
        keys_ascend(runs.flatten()),
        are_key_runs(runs),
        totals.len() == runs.len(),
        forall|a: int|
            0 <= a < runs.len() ==> {
                &&& (#[trigger] totals[a]).key == runs[a][0].key
                &&& totals[a].count == runs[a].len()
                &&& totals[a].amount == total_amount(runs[a])
            },
    ensures
        is_tally_of(totals, entries),
{
    let flat = runs.flatten();
    assert forall|a: int| 0 <= a < totals.len() implies {
        &&& (#[trigger] totals[a]).count > 0
        &&& totals[a].count == count_of(entries, totals[a].key)
        &&& totals[a].amount == amount_of(entries, totals[a].key)
    } by {
        let key = totals[a].key;
        assert(runs[a].len() > 0);
        assert forall|m: int| 0 <= m < runs.len() && m != a implies run_weight(one_if_key(key))(
            #[trigger] runs[m],
        ) == 0 && run_weight(amount_if_key(key))(runs[m]) == 0 by {
            if m < a {
                lemma_run_keys_ascend(runs, m, a);
            } else {
                lemma_run_keys_ascend(runs, a, m);
            }
            lemma_run_weights(runs[m], key);
        }
        lemma_run_weights(runs[a], key);
        lemma_sum_by_single(runs, a, run_weight(one_if_key(key)));
        lemma_sum_by_single(runs, a, run_weight(amount_if_key(key)));
        lemma_sum_by_flatten(runs, one_if_key(key));
        lemma_sum_by_flatten(runs, amount_if_key(key));
        lemma_sum_by_permutation(flat, entries, one_if_key(key));
        lemma_sum_by_permutation(flat, entries, amount_if_key(key));
    }
    assert forall|a: int, b: int|
        #![trigger totals[a], totals[b]]
        0 <= a < b < totals.len() implies key_lt(totals[a].key, totals[b].key) by {
        lemma_run_keys_ascend(runs, a, b);
    }
    assert forall|k: int| 0 <= k < entries.len() implies has_key(
        totals,
        (#[trigger] entries[k]).key,
    ) by {
        let key = entries[k].key;
        lemma_sum_by_at_least(entries, k, one_if_key(key));
        lemma_sum_by_permutation(flat, entries, one_if_key(key));
        lemma_sum_by_flatten(runs, one_if_key(key));
        let m = lemma_sum_by_positive(runs, run_weight(one_if_key(key)));
        lemma_run_weights(runs[m], key);
        assert(totals[m].key == key);
    }
}

/// The entry has the key of the total.
pub open spec fn counted_by() -> spec_fn(TotalView, EntryView) -> bool {
    |total: TotalView, entry: EntryView| entry.key == total.key
}

/// The totals of a tally account for every entry once: their counts add up
/// to the number of entries, and their amounts to the sum of all amounts.
pub proof fn lemma_tally_sums(totals: Seq<TotalView>, entries: Seq<EntryView>)
    requires
        is_tally_of(totals, entries),
    ensures
        sum_counts(totals) == entries.len(),
        sum_amounts(totals) == total_amount(entries),
{
    assert forall|k: int| 0 <= k < entries.len() implies in_one_class(
        totals,
        counted_by(),
        #[trigger] entries[k],
    ) by {
        let key = entries[k].key;
        assert(has_key(totals, key));
        let i = choose|i: int| 0 <= i < totals.len() && (#[trigger] totals[i]).key == key;
        assert forall|j: int| 0 <= j < totals.len() && j != i implies !counted_by()(
            #[trigger] totals[j],
            entries[k],
        ) by {
            if j < i {
                assert(key_lt(totals[j].key, totals[i].key));
            } else {
                assert(key_lt(totals[i].key, totals[j].key));
            }
        }
        assert(only_class(totals, counted_by(), entries[k], i));
    }
    assert forall|i: int| 0 <= i < totals.len() implies {
        &&& class_sum(entries, counted_by(), unit_weight())(#[trigger] totals[i]) == count_weight()(
            totals[i],
        )
        &&& class_sum(entries, counted_by(), amount_weight())(totals[i]) == sum_weight()(totals[i])
    } by {
        let key = totals[i].key;
        lemma_sum_by_pointwise(
            entries,
            member_weight(counted_by(), totals[i], unit_weight()),
            entries,
            one_if_key(key),
        );
        lemma_sum_by_pointwise(
            entries,
            member_weight(counted_by(), totals[i], amount_weight()),
            entries,
            amount_if_key(key),
        );
    }
    lemma_sum_by_classes(entries, totals, counted_by(), unit_weight());
    lemma_sum_by_classes(entries, totals, counted_by(), amount_weight());
    lemma_sum_by_pointwise(
        totals,
        class_sum(entries, counted_by(), unit_weight()),
        totals,
        count_weight(),
    );
    lemma_sum_by_pointwise(
        totals,
        class_sum(entries, counted_by(), amount_weight()),
        totals,
        sum_weight(),
    );
    lemma_sum_by_unit(entries);
}

/// The strict order of keys, as a relation.
pub open spec fn key_before() -> spec_fn(Key, Key) -> bool {
    |a: Key, b: Key| key_lt(a, b)
}

/// No two keys come strictly before each other.
pub proof fn lemma_key_lt_asymmetric()
    ensures
        is_asymmetric(key_before()),
{
    assert forall|x: Key, y: Key| !(#[trigger] key_before()(x, y) && key_before()(y, x)) by {
        if key_lt(x, y) && key_lt(y, x) {
            lemma_key_le_antisymmetric(x, y);
        }
    }
}

/// The keys of the totals, in order.
pub open spec fn keys_of(totals: Seq<TotalView>) -> Seq<Key> {
    Seq::new(totals.len(), |i: int| totals[i].key)
}

/// Entries have one tally only.
pub proof fn lemma_tally_unique(
    first: Seq<TotalView>,
    second: Seq<TotalView>,
    entries: Seq<EntryView>,
)
    requires
        is_tally_of(first, entries),
        is_tally_of(second, entries),
    ensures
        first == second,
{
    lemma_key_lt_asymmetric();
    lemma_tally_keys_shared(first, second, entries);
    lemma_tally_keys_shared(second, first, entries);
    assert(ascends(keys_of(first), key_before())) by {
        assert forall|i: int, j: int|
            #![trigger keys_of(first)[i], keys_of(first)[j]]
            0 <= i < j < first.len() implies key_lt(first[i].key, first[j].key) by {}
    }
    assert(ascends(keys_of(second), key_before())) by {
        assert forall|i: int, j: int|
            #![trigger keys_of(second)[i], keys_of(second)[j]]
            0 <= i < j < second.len() implies key_lt(second[i].key, second[j].key) by {}
    }
    lemma_ascending_unique(keys_of(first), keys_of(second), key_before());
    assert(first.len() == keys_of(first).len());
    assert(second.len() == keys_of(second).len());
    assert forall|i: int| 0 <= i < first.len() implies first[i] == second[i] by {
        assert(keys_of(first)[i] == keys_of(second)[i]);
    }
    assert(first =~= second);
}

/// Every key of one tally of the entries is a key of any other.
proof fn lemma_tally_keys_shared(
    first: Seq<TotalView>,
    second: Seq<TotalView>,
    entries: Seq<EntryView>,
)
    requires
        is_tally_of(first, entries),
        is_tally_of(second, entries),
    ensures
        forall|i: int|
            0 <= i < first.len() ==> keys_of(second).contains(#[trigger] keys_of(first)[i]),
{
    assert forall|i: int| 0 <= i < first.len() implies keys_of(second).contains(
        #[trigger] keys_of(first)[i],
    ) by {
        let key = first[i].key;
        assert(first[i].count > 0);
        let k = lemma_sum_by_positive(entries, one_if_key(key));
        assert(has_key(second, entries[k].key));
        let j = choose|j: int| 0 <= j < second.len() && (#[trigger] second[j]).key == key;
        assert(keys_of(second)[j] == key);
    }
}

/// The sum of the amounts of a run of entries.
fn run_total(run: &Vec<Entry>) -> (amount: u128)
    ensures
        amount == total_amount(run.deep_view()),
{
    let ghost view = run.deep_view();
    let mut amount: u128 = 0;
    let mut j: usize = 0;
    while j < run.len()
        invariant
            j <= run.len(),
            view == run.deep_view(),
            amount == total_amount(view.take(j as int)),
            amount <= j * 0xffff_ffff_ffff_ffff,
        decreases run.len() - j,
    {
        proof {
            assert(view.take(j + 1) =~= view.take(j as int).push(view[j as int]));
            lemma_sum_by_push(view.take(j as int), view[j as int], amount_weight());
        }
        amount = amount + run[j].amount as u128;
        j = j + 1;
    }
    proof {
        assert(view.take(j as int) =~= view);
    }
    amount
}

/// Counts and totals the entries by key: one total per key that occurs, in
/// ascending key order.
pub fn tally(entries: Vec<Entry>) -> (totals: Vec<Total>)
    ensures
        is_tally_of(totals.deep_view(), entries.deep_view()),
        sum_counts(totals.deep_view()) == entries.len(),
        sum_amounts(totals.deep_view()) == total_amount(entries.deep_view()),
{
    let ghost given = entries.deep_view();
    let sorted = sort_entries(entries);
    let runs = group_runs(sorted);
    let ghost runs_view = runs.deep_view();
    let mut totals: Vec<Total> = Vec::new();
    let mut a: usize = 0;
    while a < runs.len()
        invariant
            a <= runs.len(),
            totals.len() == a,
            runs_view == runs.deep_view(),
            are_key_runs(runs_view),
            forall|k: int|
                0 <= k < a ==> {
                    &&& (#[trigger] totals.deep_view()[k]).key == runs_view[k][0].key
                    &&& totals.deep_view()[k].count == runs_view[k].len()
                    &&& totals.deep_view()[k].amount == total_amount(runs_view[k])
                },
        decreases runs.len() - a,
    {
        let run = &runs[a];
        assert(run.deep_view() == runs_view[a as int]);
        assert(runs_view[a as int].len() > 0);
        let amount = run_total(run);
        let first = &run[0];
        assert(first.deep_view() == runs_view[a as int][0]);
        let total = Total {
            key: (first.key.0.clone(), first.key.1.clone()),
            count: run.len(),
            amount,
        };
        let ghost before = totals.deep_view();
        totals.push(total);
        proof {
            assert(totals.deep_view() =~= before.push(total.deep_view()));
        }
        a = a + 1;
    }
    proof {
        lemma_runs_tally(given, runs_view, totals.deep_view());
        lemma_tally_sums(totals.deep_view(), given);
    }
    totals
}

} // verus!
