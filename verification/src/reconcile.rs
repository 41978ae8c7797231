//! Reconciling the inventory's capacity figures with partition usage.
//!
//! The partitions of a machine are summed; a machine that has partitions
//! gets the lower of its inventory figure and that sum.

use crate::models::rvtools::{Vinfo, VinfoView, Vpartition, VpartitionView};
use crate::sums::{
    count_if, lemma_sum_by_permutation, lemma_sum_by_pointwise, lemma_sum_by_positive, sum_by,
    weight_if,
};
use crate::tally::{
    amount_if_key, has_key, is_tally_of, key_lt, one_if_key, tally, Entry, EntryView, Total,
    TotalView,
};
use crate::text::text_lt;
use vstd::prelude::*;

verus! {

/// The partition belongs to the machine of the given name.
pub open spec fn of_vm(name: Seq<char>) -> spec_fn(VpartitionView) -> bool {
    |part: VpartitionView| part.vm_name == name
}

/// Weighs a partition by its capacity.
pub open spec fn partition_weight() -> spec_fn(VpartitionView) -> nat {
    |part: VpartitionView| part.capacity as nat
}

/// How many partitions the machine of the given name has.
pub open spec fn partition_count(parts: Seq<VpartitionView>, name: Seq<char>) -> nat {
    sum_by(parts, count_if(of_vm(name)))
}

/// The capacity, in MiB, of all partitions of the machine of the given name.
pub open spec fn partition_sum(parts: Seq<VpartitionView>, name: Seq<char>) -> nat {
    sum_by(parts, weight_if(of_vm(name), partition_weight()))
}

/// The lower of a machine's inventory capacity and a partition sum.
pub open spec fn lower_capacity(capacity: u64, sum: nat) -> u64 {
    if sum < capacity {
        sum as u64
    } else {
        capacity
    }
}

/// The machine after reconciliation: with partitions, its capacity is the
/// lower of the inventory figure and the sum of its partitions; without,
/// it is unchanged.
pub open spec fn reconciled(vm: VinfoView, parts: Seq<VpartitionView>) -> VinfoView {
    if partition_count(parts, vm.vm_name) > 0 {
        VinfoView {
            vm_name: vm.vm_name,
            datacenter: vm.datacenter,
            cluster: vm.cluster,
            capacity: lower_capacity(vm.capacity, partition_sum(parts, vm.vm_name)),
            powerstate: vm.powerstate,
        }
    } else {
        vm
    }
}

/// Reconciliation changes nothing of a machine but its capacity, and never
/// raises that.
pub proof fn lemma_reconciled_is_lower(vm: VinfoView, parts: Seq<VpartitionView>)
    ensures
        reconciled(vm, parts).capacity <= vm.capacity,
        reconciled(vm, parts).vm_name == vm.vm_name,
        reconciled(vm, parts).datacenter == vm.datacenter,
        reconciled(vm, parts).cluster == vm.cluster,
        reconciled(vm, parts).powerstate == vm.powerstate,
{
}

/// Reconciling a reconciled machine with the same partitions changes
/// nothing.
pub proof fn lemma_reconciled_idempotent(vm: VinfoView, parts: Seq<VpartitionView>)
    ensures
        reconciled(reconciled(vm, parts), parts) == reconciled(vm, parts),
{
}

/// Reconciliation does not depend on the order of the partitions.
pub proof fn lemma_reconciled_ignores_order(
    vm: VinfoView,
    first: Seq<VpartitionView>,
    second: Seq<VpartitionView>,
)
    requires
        first.to_multiset() == second.to_multiset(),
    ensures
        reconciled(vm, first) == reconciled(vm, second),
{
    lemma_sum_by_permutation(first, second, count_if(of_vm(vm.vm_name)));
    lemma_sum_by_permutation(first, second, weight_if(of_vm(vm.vm_name), partition_weight()));
}

/// One of the sums is for the machine of the given name.
pub open spec fn has_sum(sums: Seq<TotalView>, name: Seq<char>) -> bool {
    exists|i: int| 0 <= i < sums.len() && (#[trigger] sums[i]).key.0 == name
}

/// `sums` holds the partition sums of `parts`: one total per machine that
/// has partitions, keyed by the machine's name and an empty second text,
/// with the number of its partitions and the sum of their capacities, in
/// strictly ascending order of name.
pub open spec fn is_partition_sums(sums: Seq<TotalView>, parts: Seq<VpartitionView>) -> bool {
    &&& forall|i: int|
        0 <= i < sums.len() ==> {
            &&& (#[trigger] sums[i]).key.1 == Seq::<char>::empty()
            &&& sums[i].count > 0
            &&& sums[i].count == partition_count(parts, sums[i].key.0)
            &&& sums[i].amount == partition_sum(parts, sums[i].key.0)
        }
    &&& forall|i: int, j: int|
        #![trigger sums[i], sums[j]]
        0 <= i < j < sums.len() ==> text_lt(sums[i].key.0, sums[j].key.0)
    &&& forall|k: int| 0 <= k < parts.len() ==> has_sum(sums, (#[trigger] parts[k]).vm_name)
}

/// The partitions, seen as amounts keyed by machine name.
pub open spec fn partition_entries(parts: Seq<VpartitionView>) -> Seq<EntryView> {
    Seq::new(
        parts.len(),
        |k: int| EntryView { key: (parts[k].vm_name, Seq::empty()), amount: parts[k].capacity },
    )
}

/// Counting and summing the partitions of a machine is counting and
/// summing the keyed amounts under the machine's name.
proof fn lemma_partition_entries_sums(parts: Seq<VpartitionView>, name: Seq<char>)
    ensures
        sum_by(partition_entries(parts), one_if_key((name, Seq::empty()))) == partition_count(
            parts,
            name,
        ),
        sum_by(partition_entries(parts), amount_if_key((name, Seq::empty()))) == partition_sum(
            parts,
            name,
        ),
{
    let entries = partition_entries(parts);
    let key = (name, Seq::<char>::empty());
    assert forall|k: int| 0 <= k < entries.len() implies (#[trigger] entries[k]).key == key
        <==> parts[k].vm_name == name by {
        if parts[k].vm_name == name {
            assert(entries[k].key.1 == key.1);
        }
    }
    lemma_sum_by_pointwise(entries, one_if_key(key), parts, count_if(of_vm(name)));
    lemma_sum_by_pointwise(
        entries,
        amount_if_key(key),
        parts,
        weight_if(of_vm(name), partition_weight()),
    );
}

/// A tally of the partitions keyed by machine name holds their sums.
proof fn lemma_tally_is_partition_sums(sums: Seq<TotalView>, parts: Seq<VpartitionView>)
    requires
        is_tally_of(sums, partition_entries(parts)),
    ensures
        is_partition_sums(sums, parts),
{
    let entries = partition_entries(parts);
    assert forall|i: int| 0 <= i < sums.len() implies {
        &&& (#[trigger] sums[i]).key.1 == Seq::<char>::empty()
        &&& sums[i].count > 0
        &&& sums[i].count == partition_count(parts, sums[i].key.0)
        &&& sums[i].amount == partition_sum(parts, sums[i].key.0)
    } by {
        let key = sums[i].key;
        let k = lemma_sum_by_positive(entries, one_if_key(key));
        assert(entries[k].key == key);
        lemma_partition_entries_sums(parts, key.0);
    }
    assert forall|i: int, j: int|
        #![trigger sums[i], sums[j]]
        0 <= i < j < sums.len() implies text_lt(sums[i].key.0, sums[j].key.0) by {
        assert(key_lt(sums[i].key, sums[j].key));
    }
    assert forall|k: int| 0 <= k < parts.len() implies has_sum(
        sums,
        (#[trigger] parts[k]).vm_name,
    ) by {
        assert(has_key(sums, entries[k].key));
        let i = choose|i: int| 0 <= i < sums.len() && (#[trigger] sums[i]).key == entries[k].key;
        assert(sums[i].key.0 == parts[k].vm_name);
    }
}

/// Sums the partitions machine by machine.
pub fn sum_partitions(parts: &Vec<Vpartition>) -> (sums: Vec<Total>)
    ensures
        is_partition_sums(sums.deep_view(), parts.deep_view()),
{
    let mut entries: Vec<Entry> = Vec::new();
    let mut k: usize = 0;
    while k < parts.len()
        invariant
            k <= parts.len(),
            entries.len() == k,
            forall|m: int|
                0 <= m < k ==> (#[trigger] entries.deep_view()[m]) == (EntryView {
                    key: (parts.deep_view()[m].vm_name, Seq::empty()),
                    amount: parts.deep_view()[m].capacity,
                }),
        decreases parts.len() - k,
    {
        let part = &parts[k];
        let entry = Entry { key: (part.vm_name.clone(), String::new()), amount: part.capacity };
        let ghost before = entries.deep_view();
        entries.push(entry);
        proof {
            assert(entries.deep_view() =~= before.push(entry.deep_view()));
            assert(part.deep_view() == parts.deep_view()[k as int]);
        }
        k = k + 1;
    }
    proof {
        assert(entries.deep_view() =~= partition_entries(parts.deep_view()));
    }
    let sums = tally(entries);
    proof {
        lemma_tally_is_partition_sums(sums.deep_view(), parts.deep_view());
    }
    sums
}

/// Looks the machine's name up among the sums: the place of the first sum
/// for that name, if there is one.
pub fn find_sum(sums: &Vec<Total>, name: &String) -> (found: Option<usize>)
    ensures
        match found {
            Some(i) => {
                &&& i < sums.len()
                &&& sums.deep_view()[i as int].key.0 == name@
                &&& forall|m: int| 0 <= m < i ==> (#[trigger] sums.deep_view()[m]).key.0 != name@
            },
            None => !has_sum(sums.deep_view(), name@),
        },
{
    let mut i: usize = 0;
    while i < sums.len()
        invariant
            i <= sums.len(),
            forall|m: int| 0 <= m < i ==> (#[trigger] sums.deep_view()[m]).key.0 != name@,
        decreases sums.len() - i,
    {
        if sums[i].key.0 == *name {
            assert(sums[i as int].deep_view() == sums.deep_view()[i as int]);
            return Some(i);
        }
        assert(sums[i as int].deep_view() == sums.deep_view()[i as int]);
        i = i + 1;
    }
    None
}

/// `combined` is the inventory after reconciliation with the partitions:
/// the same machines in the same order, each reconciled where partitions
/// are used and unchanged where they are not.
pub open spec fn is_reconciliation(
    combined: Seq<VinfoView>,
    inventory: Seq<VinfoView>,
    parts: Seq<VpartitionView>,
    use_partitions: bool,
) -> bool {
    &&& combined.len() == inventory.len()
    &&& forall|k: int|
        0 <= k < inventory.len() ==> (#[trigger] combined[k]) == if use_partitions {
            reconciled(inventory[k], parts)
        } else {
            inventory[k]
        }
}

/// Reconciles the machines of the inventory with the partitions. With
/// `use_partitions`, each machine that has partitions gets the lower of its
/// own capacity and the sum of its partitions; every other machine, and
/// every machine without `use_partitions`, passes through unchanged.
pub fn reconcile(
    inventory: &Vec<Vinfo>,
    parts: &Vec<Vpartition>,
    use_partitions: bool,
) -> (combined: Vec<Vinfo>)
    ensures
        is_reconciliation(
            combined.deep_view(),
            inventory.deep_view(),
            parts.deep_view(),
            use_partitions,
        ),
{
    let sums = sum_partitions(parts);
    let ghost parts_view = parts.deep_view();
    let ghost sums_view = sums.deep_view();
    let mut combined: Vec<Vinfo> = Vec::new();
    let mut k: usize = 0;
    while k < inventory.len()
        invariant
            k <= inventory.len(),
            combined.len() == k,
            parts_view == parts.deep_view(),
            sums_view == sums.deep_view(),
            is_partition_sums(sums_view, parts_view),
            forall|m: int|
                0 <= m < k ==> (#[trigger] combined.deep_view()[m]) == if use_partitions {
                    reconciled(inventory.deep_view()[m], parts_view)
                } else {
                    inventory.deep_view()[m]
                },
        decreases inventory.len() - k,
    {
        let vm = &inventory[k];
        let mut entry = vm.clone();
        proof {
            assert(vm.deep_view() == inventory.deep_view()[k as int]);
        }
        if use_partitions {
            match find_sum(&sums, &vm.vm_name) {
                Some(i) => {
                    let sum: u128 = sums[i].amount;
                    proof {
                        assert(sums[i as int].deep_view() == sums_view[i as int]);
                        assert(sums_view[i as int].count > 0);
                    }
                    if sum < vm.capacity as u128 {
                        entry.capacity = sum as u64;
                    }
                },
                None => {
                    proof {
                        let name = vm.vm_name@;
                        if partition_count(parts_view, name) > 0 {
                            let p = lemma_sum_by_positive(parts_view, count_if(of_vm(name)));
                            assert(has_sum(sums_view, parts_view[p].vm_name));
                        }
                    }
                },
            }
        }
        let ghost before = combined.deep_view();
        combined.push(entry);
        proof {
            assert(combined.deep_view() =~= before.push(entry.deep_view()));
        }
        k = k + 1;
    }
    combined
}

} // verus!
