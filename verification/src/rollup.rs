//! Rolling machines up into groups: by cluster within a site, by site, or
//! all into one group.

use crate::models::rvtools::{Datacenter, DatacenterView, Vinfo, VinfoView};
use crate::sums::{
    count_if, lemma_sum_by_bound, lemma_sum_by_permutation, lemma_sum_by_pointwise,
    lemma_sum_by_prefix, lemma_sum_by_push, sum_by, weight_if,
};
use crate::tally::{
    amount_if_key, amount_weight, count_weight, has_key, is_tally_of, key_lt, lemma_tally_sums,
    lemma_tally_unique, one_if_key, sum_weight, tally, Entry, EntryView, TotalView,
};
use crate::text::{sorted_distinct, text_lt, texts_ascend_strictly, with_suffix};
use vstd::prelude::*;
use vstd::seq_lib::*;
use vstd::string::*;

verus! {

/// The ways of grouping machines.
#[derive(Clone, Copy, Debug, PartialEq, Eq)]
pub enum Grouping {
    /// One group per cluster of a site.
    Cluster,
    /// One group per site, whatever its clusters.
    Site,
    /// One group for everything.
    Global,
}

/// The machine is in the given cluster of the given site.
pub open spec fn in_cluster(site: Seq<char>, cluster: Seq<char>) -> spec_fn(VinfoView) -> bool {
    |vm: VinfoView| vm.datacenter == site && vm.cluster == cluster
}

/// The machine is in the given site.
pub open spec fn in_site(site: Seq<char>) -> spec_fn(VinfoView) -> bool {
    |vm: VinfoView| vm.datacenter == site
}

/// Weighs a machine by its capacity.
pub open spec fn capacity_weight() -> spec_fn(VinfoView) -> nat {
    |vm: VinfoView| vm.capacity as nat
}

/// How many of the machines meet the condition.
pub open spec fn vm_count_where(vms: Seq<VinfoView>, condition: spec_fn(VinfoView) -> bool) -> nat {
    sum_by(vms, count_if(condition))
}

/// The capacity, in MiB, of the machines that meet the condition.
pub open spec fn capacity_where(vms: Seq<VinfoView>, condition: spec_fn(VinfoView) -> bool) -> nat {
    sum_by(vms, weight_if(condition, capacity_weight()))
}

/// The capacity, in MiB, of all the machines.
pub open spec fn total_capacity(vms: Seq<VinfoView>) -> nat {
    sum_by(vms, capacity_weight())
}

/// Weighs a group by its number of machines.
pub open spec fn vm_count_weight() -> spec_fn(DatacenterView) -> nat {
    |group: DatacenterView| group.vm_count as nat
}

/// Weighs a group by its capacity.
pub open spec fn group_capacity_weight() -> spec_fn(DatacenterView) -> nat {
    |group: DatacenterView| group.capacity as nat
}

/// The machines of all the groups together.
pub open spec fn total_vm_count(groups: Seq<DatacenterView>) -> nat {
    sum_by(groups, vm_count_weight())
}

/// The capacity, in MiB, of all the groups together.
pub open spec fn total_group_capacity(groups: Seq<DatacenterView>) -> nat {
    sum_by(groups, group_capacity_weight())
}

/// One of the groups is for the given cluster of the given site.
pub open spec fn has_cluster_group(
    groups: Seq<DatacenterView>,
    site: Seq<char>,
    cluster: Seq<char>,
) -> bool {
    exists|i: int|
        0 <= i < groups.len() && (#[trigger] groups[i]).name == site && groups[i].cluster
            == cluster
}

/// One of the groups is for the given site.
pub open spec fn has_site_group(groups: Seq<DatacenterView>, site: Seq<char>) -> bool {
    exists|i: int| 0 <= i < groups.len() && (#[trigger] groups[i]).name == site
}

/// The name of the one cluster that stands for a whole site.
pub open spec fn site_cluster_name(site: Seq<char>) -> Seq<char> {
    site + "_cluster"@
}

/// `groups` is the rollup of `vms` by cluster: each group counts and totals
/// exactly the machines of its site and cluster, the groups ascend strictly
/// by site and then cluster (so no pair occurs twice), and every machine's
/// site and cluster has its group.
pub open spec fn is_cluster_rollup(groups: Seq<DatacenterView>, vms: Seq<VinfoView>) -> bool {
    &&& forall|i: int|
        0 <= i < groups.len() ==> {
            &&& (#[trigger] groups[i]).vm_count > 0
            &&& groups[i].vm_count == vm_count_where(
                vms,
                in_cluster(groups[i].name, groups[i].cluster),
            )
            &&& groups[i].capacity == capacity_where(
                vms,
                in_cluster(groups[i].name, groups[i].cluster),
            )
        }
    &&& forall|i: int, j: int|
        #![trigger groups[i], groups[j]]
        0 <= i < j < groups.len() ==> key_lt(
            (groups[i].name, groups[i].cluster),
            (groups[j].name, groups[j].cluster),
        )
    &&& forall|k: int|
        0 <= k < vms.len() ==> has_cluster_group(
            groups,
            (#[trigger] vms[k]).datacenter,
            vms[k].cluster,
        )
}

/// `groups` is the rollup of `vms` by site: each group is named after its
/// site, with the site's stand-in cluster, and counts and totals exactly the
/// machines of the site; the groups ascend strictly by site; and every
/// machine's site has its group.
pub open spec fn is_site_rollup(groups: Seq<DatacenterView>, vms: Seq<VinfoView>) -> bool {
    &&& forall|i: int|
        0 <= i < groups.len() ==> {
            &&& (#[trigger] groups[i]).cluster == site_cluster_name(groups[i].name)
            &&& groups[i].vm_count > 0
            &&& groups[i].vm_count == vm_count_where(vms, in_site(groups[i].name))
            &&& groups[i].capacity == capacity_where(vms, in_site(groups[i].name))
        }
    &&& forall|i: int, j: int|
        #![trigger groups[i], groups[j]]
        0 <= i < j < groups.len() ==> text_lt(groups[i].name, groups[j].name)
    &&& forall|k: int| 0 <= k < vms.len() ==> has_site_group(groups, (#[trigger] vms[k]).datacenter)
}

/// `group` is the given groups merged into one: it carries the placeholder
/// names and the sums of their counts and capacities.
pub open spec fn is_merge_of(group: DatacenterView, groups: Seq<DatacenterView>) -> bool {
    &&& group.name == "DC1"@
    &&& group.cluster == "Cluster1"@
    &&& group.vm_count == total_vm_count(groups)
    &&& group.capacity == total_group_capacity(groups)
}

/// `groups` is the rollup of `vms` into one group: a single group with the
/// placeholder names that counts every machine and totals every capacity.
pub open spec fn is_global_rollup(groups: Seq<DatacenterView>, vms: Seq<VinfoView>) -> bool {
    &&& groups.len() == 1
    &&& groups[0].name == "DC1"@
    &&& groups[0].cluster == "Cluster1"@
    &&& groups[0].vm_count == vms.len()
    &&& groups[0].capacity == total_capacity(vms)
}

/// `groups` is the rollup of `vms` under the given grouping.
pub open spec fn is_rollup(
    groups: Seq<DatacenterView>,
    vms: Seq<VinfoView>,
    grouping: Grouping,
) -> bool {
    match grouping {
        Grouping::Cluster => is_cluster_rollup(groups, vms),
        Grouping::Site => is_site_rollup(groups, vms),
        Grouping::Global => is_global_rollup(groups, vms),
    }
}

/// The groups of a rollup by cluster, seen as totals by key.
pub open spec fn cluster_totals(groups: Seq<DatacenterView>) -> Seq<TotalView> {
    Seq::new(
        groups.len(),
        |i: int|
            TotalView {
                key: (groups[i].name, groups[i].cluster),
                count: groups[i].vm_count,
                amount: groups[i].capacity,
            },
    )
}

/// The machines, seen as amounts keyed by site and cluster.
pub open spec fn cluster_entries(vms: Seq<VinfoView>) -> Seq<EntryView> {
    Seq::new(
        vms.len(),
        |k: int| EntryView { key: (vms[k].datacenter, vms[k].cluster), amount: vms[k].capacity },
    )
}

/// The machines, seen as amounts keyed by site alone.
pub open spec fn site_entries(vms: Seq<VinfoView>) -> Seq<EntryView> {
    Seq::new(
        vms.len(),
        |k: int| EntryView { key: (vms[k].datacenter, Seq::empty()), amount: vms[k].capacity },
    )
}

/// Counting and summing the machines of a cluster is counting and summing
/// the keyed amounts under the cluster's key.
proof fn lemma_cluster_entries_sums(vms: Seq<VinfoView>, site: Seq<char>, cluster: Seq<char>)
    ensures
        sum_by(cluster_entries(vms), one_if_key((site, cluster))) == vm_count_where(
            vms,
            in_cluster(site, cluster),
        ),
        sum_by(cluster_entries(vms), amount_if_key((site, cluster))) == capacity_where(
            vms,
            in_cluster(site, cluster),
        ),
        sum_by(cluster_entries(vms), amount_weight()) == total_capacity(vms),
{
    let entries = cluster_entries(vms);
    lemma_sum_by_pointwise(
        entries,
        one_if_key((site, cluster)),
        vms,
        count_if(in_cluster(site, cluster)),
    );
    lemma_sum_by_pointwise(
        entries,
        amount_if_key((site, cluster)),
        vms,
        weight_if(in_cluster(site, cluster), capacity_weight()),
    );
    lemma_sum_by_pointwise(entries, amount_weight(), vms, capacity_weight());
}

/// Counting and summing the machines of a site is counting and summing the
/// keyed amounts under the site's key.
proof fn lemma_site_entries_sums(vms: Seq<VinfoView>, site: Seq<char>)
    ensures
        sum_by(site_entries(vms), one_if_key((site, Seq::empty()))) == vm_count_where(
            vms,
            in_site(site),
        ),
        sum_by(site_entries(vms), amount_if_key((site, Seq::empty()))) == capacity_where(
            vms,
            in_site(site),
        ),
{
    let entries = site_entries(vms);
    let key = (site, Seq::<char>::empty());
    assert forall|k: int| 0 <= k < entries.len() implies (#[trigger] entries[k]).key == key
        <==> vms[k].datacenter == site by {
        if vms[k].datacenter == site {
            assert(entries[k].key.1 == key.1);
        }
    }
    lemma_sum_by_pointwise(entries, one_if_key(key), vms, count_if(in_site(site)));
    lemma_sum_by_pointwise(
        entries,
        amount_if_key(key),
        vms,
        weight_if(in_site(site), capacity_weight()),
    );
}

/// A rollup by cluster is a tally of the machines keyed by site and cluster.
proof fn lemma_cluster_rollup_is_tally(groups: Seq<DatacenterView>, vms: Seq<VinfoView>)
    ensures
        is_cluster_rollup(groups, vms) <==> is_tally_of(
            cluster_totals(groups),
            cluster_entries(vms),
        ),
{
    let totals = cluster_totals(groups);
    let entries = cluster_entries(vms);
    assert forall|i: int| 0 <= i < groups.len() implies {
        &&& vm_count_where(vms, in_cluster(groups[i].name, groups[i].cluster)) == sum_by(
            entries,
            one_if_key((#[trigger] totals[i]).key),
        )
        &&& capacity_where(vms, in_cluster(groups[i].name, groups[i].cluster)) == sum_by(
            entries,
            amount_if_key(totals[i].key),
        )
    } by {
        lemma_cluster_entries_sums(vms, groups[i].name, groups[i].cluster);
    }
    if is_cluster_rollup(groups, vms) {
        assert forall|i: int| 0 <= i < totals.len() implies {
            &&& (#[trigger] totals[i]).count > 0
            &&& totals[i].count == sum_by(entries, one_if_key(totals[i].key))
            &&& totals[i].amount == sum_by(entries, amount_if_key(totals[i].key))
        } by {
            assert(groups[i].vm_count > 0);
        }
        assert forall|i: int, j: int|
            #![trigger totals[i], totals[j]]
            0 <= i < j < totals.len() implies key_lt(totals[i].key, totals[j].key) by {
            assert(key_lt(
                (groups[i].name, groups[i].cluster),
                (groups[j].name, groups[j].cluster),
            ));
        }
        assert forall|k: int| 0 <= k < entries.len() implies has_key(
            totals,
            (#[trigger] entries[k]).key,
        ) by {
            assert(has_cluster_group(groups, vms[k].datacenter, vms[k].cluster));
            let i = choose|i: int|
                0 <= i < groups.len() && (#[trigger] groups[i]).name == vms[k].datacenter
                    && groups[i].cluster == vms[k].cluster;
            assert(totals[i].key == entries[k].key);
        }
    }
    if is_tally_of(totals, entries) {
        assert forall|i: int| 0 <= i < groups.len() implies {
            &&& (#[trigger] groups[i]).vm_count > 0
            &&& groups[i].vm_count == vm_count_where(
                vms,
                in_cluster(groups[i].name, groups[i].cluster),
            )
            &&& groups[i].capacity == capacity_where(
                vms,
                in_cluster(groups[i].name, groups[i].cluster),
            )
        } by {
            assert(totals[i].count > 0);
        }
        assert forall|i: int, j: int|
            #![trigger groups[i], groups[j]]
            0 <= i < j < groups.len() implies key_lt(
            (groups[i].name, groups[i].cluster),
            (groups[j].name, groups[j].cluster),
        ) by {
            assert(key_lt(totals[i].key, totals[j].key));
        }
        assert forall|k: int| 0 <= k < vms.len() implies has_cluster_group(
            groups,
            (#[trigger] vms[k]).datacenter,
            vms[k].cluster,
        ) by {
            assert(has_key(totals, entries[k].key));
            let i = choose|i: int|
                0 <= i < totals.len() && (#[trigger] totals[i]).key == entries[k].key;
            assert(groups[i].name == vms[k].datacenter && groups[i].cluster == vms[k].cluster);
        }
    }
}

/// The groups of a rollup by cluster account for every machine once: their
/// counts add up to the number of machines, and their capacities to the
/// capacity of all machines.
pub proof fn lemma_cluster_rollup_totals(groups: Seq<DatacenterView>, vms: Seq<VinfoView>)
    requires
        is_cluster_rollup(groups, vms),
    ensures
        total_vm_count(groups) == vms.len(),
        total_group_capacity(groups) == total_capacity(vms),
{
    let totals = cluster_totals(groups);
    let entries = cluster_entries(vms);
    lemma_cluster_rollup_is_tally(groups, vms);
    lemma_tally_sums(totals, entries);
    lemma_sum_by_pointwise(groups, vm_count_weight(), totals, count_weight());
    lemma_sum_by_pointwise(groups, group_capacity_weight(), totals, sum_weight());
    lemma_sum_by_pointwise(entries, amount_weight(), vms, capacity_weight());
}

/// The groups of a rollup account for every machine once, whatever the
/// grouping: their counts add up to the number of machines, and their
/// capacities to the capacity of all machines.
pub proof fn lemma_rollup_totals(
    groups: Seq<DatacenterView>,
    vms: Seq<VinfoView>,
    grouping: Grouping,
)
    requires
        is_rollup(groups, vms, grouping),
    ensures
        total_vm_count(groups) == vms.len(),
        total_group_capacity(groups) == total_capacity(vms),
{
    match grouping {
        Grouping::Cluster => {
            lemma_cluster_rollup_totals(groups, vms);
        },
        Grouping::Site => {
            let totals = site_totals(groups);
            let entries = site_entries(vms);
            lemma_site_rollup_is_tally(groups, vms);
            lemma_tally_sums(totals, entries);
            lemma_sum_by_pointwise(groups, vm_count_weight(), totals, count_weight());
            lemma_sum_by_pointwise(groups, group_capacity_weight(), totals, sum_weight());
            lemma_sum_by_pointwise(entries, amount_weight(), vms, capacity_weight());
        },
        Grouping::Global => {
            assert(groups.drop_last() =~= Seq::<DatacenterView>::empty());
            assert(groups.last() == groups[0]);
            assert(sum_by(groups.drop_last(), vm_count_weight()) == 0);
            assert(sum_by(groups.drop_last(), group_capacity_weight()) == 0);
        },
    }
}

/// Rolling everything into one group gives the sums over the groups of the
/// rollup by cluster.
pub proof fn lemma_global_rollup_merges_clusters(
    flat: Seq<DatacenterView>,
    clusters: Seq<DatacenterView>,
    vms: Seq<VinfoView>,
)
    requires
        is_global_rollup(flat, vms),
        is_cluster_rollup(clusters, vms),
    ensures
        flat.len() == 1,
        is_merge_of(flat[0], clusters),
{
    lemma_cluster_rollup_totals(clusters, vms);
}

/// The groups of a rollup by site, seen as totals by key.
pub open spec fn site_totals(groups: Seq<DatacenterView>) -> Seq<TotalView> {
    Seq::new(
        groups.len(),
        |i: int|
            TotalView {
                key: (groups[i].name, Seq::empty()),
                count: groups[i].vm_count,
                amount: groups[i].capacity,
            },
    )
}

/// A rollup by site is a tally of the machines keyed by site.
proof fn lemma_site_rollup_is_tally(groups: Seq<DatacenterView>, vms: Seq<VinfoView>)
    requires
        is_site_rollup(groups, vms),
    ensures
        is_tally_of(site_totals(groups), site_entries(vms)),
{
    let totals = site_totals(groups);
    let entries = site_entries(vms);
    assert forall|i: int| 0 <= i < totals.len() implies {
        &&& (#[trigger] totals[i]).count > 0
        &&& totals[i].count == sum_by(entries, one_if_key(totals[i].key))
        &&& totals[i].amount == sum_by(entries, amount_if_key(totals[i].key))
    } by {
        assert(groups[i].vm_count > 0);
        lemma_site_entries_sums(vms, groups[i].name);
    }
    assert forall|i: int, j: int|
        #![trigger totals[i], totals[j]]
        0 <= i < j < totals.len() implies key_lt(totals[i].key, totals[j].key) by {
        assert(text_lt(groups[i].name, groups[j].name));
    }
    assert forall|k: int| 0 <= k < entries.len() implies has_key(
        totals,
        (#[trigger] entries[k]).key,
    ) by {
        assert(has_site_group(groups, vms[k].datacenter));
        let i = choose|i: int|
            0 <= i < groups.len() && (#[trigger] groups[i]).name == vms[k].datacenter;
        assert(totals[i].key == entries[k].key);
    }
}

/// Machines have one rollup only under a grouping.
pub proof fn lemma_rollup_unique(
    first: Seq<DatacenterView>,
    second: Seq<DatacenterView>,
    vms: Seq<VinfoView>,
    grouping: Grouping,
)
    requires
        is_rollup(first, vms, grouping),
        is_rollup(second, vms, grouping),
    ensures
        first == second,
{
    match grouping {
        Grouping::Cluster => {
            lemma_cluster_rollup_is_tally(first, vms);
            lemma_cluster_rollup_is_tally(second, vms);
            lemma_tally_unique(cluster_totals(first), cluster_totals(second), cluster_entries(vms));
            assert(first.len() == cluster_totals(first).len());
            assert(second.len() == cluster_totals(second).len());
            assert forall|i: int| 0 <= i < first.len() implies first[i] == second[i] by {
                assert(cluster_totals(first)[i] == cluster_totals(second)[i]);
            }
        },
        Grouping::Site => {
            lemma_site_rollup_is_tally(first, vms);
            lemma_site_rollup_is_tally(second, vms);
            lemma_tally_unique(site_totals(first), site_totals(second), site_entries(vms));
            assert(first.len() == site_totals(first).len());
            assert(second.len() == site_totals(second).len());
            assert forall|i: int| 0 <= i < first.len() implies first[i] == second[i] by {
                assert(site_totals(first)[i] == site_totals(second)[i]);
            }
        },
        Grouping::Global => {},
    }
    assert(first =~= second);
}

/// A rollup is determined by which machines there are, whatever their
/// order: machines that differ in order alone have the same rollup.
pub proof fn lemma_rollup_deterministic(
    first_groups: Seq<DatacenterView>,
    first: Seq<VinfoView>,
    second_groups: Seq<DatacenterView>,
    second: Seq<VinfoView>,
    grouping: Grouping,
)
    requires
        first.to_multiset() == second.to_multiset(),
        is_rollup(first_groups, first, grouping),
        is_rollup(second_groups, second, grouping),
    ensures
        first_groups == second_groups,
{
    lemma_rollup_ignores_order(first_groups, first, second, grouping);
    lemma_rollup_unique(first_groups, second_groups, second, grouping);
}

/// A rollup does not depend on the order of the machines: the rollup of
/// some machines is the rollup of the same machines in any other order.
pub proof fn lemma_rollup_ignores_order(
    groups: Seq<DatacenterView>,
    first: Seq<VinfoView>,
    second: Seq<VinfoView>,
    grouping: Grouping,
)
    requires
        first.to_multiset() == second.to_multiset(),
        is_rollup(groups, first, grouping),
    ensures
        is_rollup(groups, second, grouping),
{
    assert forall|k: int| 0 <= k < second.len() implies first.contains(#[trigger] second[k]) by {
        to_multiset_contains(first, second[k]);
        to_multiset_contains(second, second[k]);
    }
    match grouping {
        Grouping::Cluster => {
            assert forall|i: int| 0 <= i < groups.len() implies {
                &&& (#[trigger] groups[i]).vm_count == vm_count_where(
                    second,
                    in_cluster(groups[i].name, groups[i].cluster),
                )
                &&& groups[i].capacity == capacity_where(
                    second,
                    in_cluster(groups[i].name, groups[i].cluster),
                )
            } by {
                let here = in_cluster(groups[i].name, groups[i].cluster);
                lemma_sum_by_permutation(first, second, count_if(here));
                lemma_sum_by_permutation(first, second, weight_if(here, capacity_weight()));
            }
            assert forall|k: int| 0 <= k < second.len() implies has_cluster_group(
                groups,
                (#[trigger] second[k]).datacenter,
                second[k].cluster,
            ) by {
                let m = choose|m: int| 0 <= m < first.len() && first[m] == second[k];
                assert(has_cluster_group(groups, first[m].datacenter, first[m].cluster));
            }
        },
        Grouping::Site => {
            assert forall|i: int| 0 <= i < groups.len() implies {
                &&& (#[trigger] groups[i]).vm_count == vm_count_where(
                    second,
                    in_site(groups[i].name),
                )
                &&& groups[i].capacity == capacity_where(second, in_site(groups[i].name))
            } by {
                let here = in_site(groups[i].name);
                lemma_sum_by_permutation(first, second, count_if(here));
                lemma_sum_by_permutation(first, second, weight_if(here, capacity_weight()));
            }
            assert forall|k: int| 0 <= k < second.len() implies has_site_group(
                groups,
                (#[trigger] second[k]).datacenter,
            ) by {
                let m = choose|m: int| 0 <= m < first.len() && first[m] == second[k];
                assert(has_site_group(groups, first[m].datacenter));
            }
        },
        Grouping::Global => {
            to_multiset_len(first);
            to_multiset_len(second);
            lemma_sum_by_permutation(first, second, capacity_weight());
        },
    }
}

/// The capacity of any machines fits the integer that holds group
/// capacities.
pub proof fn lemma_total_capacity_fits(vms: Seq<VinfoView>)
    requires
        vms.len() <= usize::MAX,
    ensures
        total_capacity(vms) <= u128::MAX,
{
    lemma_sum_by_bound(vms, capacity_weight(), 0xffff_ffff_ffff_ffff);
    assert(vms.len() * 0xffff_ffff_ffff_ffff <= u128::MAX) by (nonlinear_arith)
        requires
            vms.len() <= 0xffff_ffff_ffff_ffff,
    ;
}

/// The machines as keyed amounts: keyed by site and cluster, or by site
/// alone.
fn keyed_amounts(vms: &Vec<Vinfo>, with_cluster: bool) -> (entries: Vec<Entry>)
    ensures
        with_cluster ==> entries.deep_view() == cluster_entries(vms.deep_view()),
        !with_cluster ==> entries.deep_view() == site_entries(vms.deep_view()),
{
    let mut entries: Vec<Entry> = Vec::new();
    let mut k: usize = 0;
    while k < vms.len()
        invariant
            k <= vms.len(),
            entries.len() == k,
            forall|m: int|
                0 <= m < k ==> (#[trigger] entries.deep_view()[m]) == (EntryView {
                    key: (
                        vms.deep_view()[m].datacenter,
                        if with_cluster {
                            vms.deep_view()[m].cluster
                        } else {
                            Seq::empty()
                        },
                    ),
                    amount: vms.deep_view()[m].capacity,
                }),
        decreases vms.len() - k,
    {
        let vm = &vms[k];
        let second = if with_cluster {
            vm.cluster.clone()
        } else {
            String::new()
        };
        let entry = Entry { key: (vm.datacenter.clone(), second), amount: vm.capacity };
        let ghost before = entries.deep_view();
        entries.push(entry);
        proof {
            assert(entries.deep_view() =~= before.push(entry.deep_view()));
            assert(vm.deep_view() == vms.deep_view()[k as int]);
        }
        k = k + 1;
    }
    proof {
        if with_cluster {
            assert(entries.deep_view() =~= cluster_entries(vms.deep_view()));
        } else {
            assert(entries.deep_view() =~= site_entries(vms.deep_view()));
        }
    }
    entries
}

/// Rolls the machines up by cluster: one group per pair of site and cluster
/// that occurs, in ascending order.
pub fn rollup_by_cluster(vms: &Vec<Vinfo>) -> (groups: Vec<Datacenter>)
    ensures
        is_cluster_rollup(groups.deep_view(), vms.deep_view()),
        total_vm_count(groups.deep_view()) == vms.len(),
        total_group_capacity(groups.deep_view()) == total_capacity(vms.deep_view()),
{
    let entries = keyed_amounts(vms, true);
    let totals = tally(entries);
    let mut groups: Vec<Datacenter> = Vec::new();
    let mut i: usize = 0;
    while i < totals.len()
        invariant
            i <= totals.len(),
            groups.len() == i,
            forall|m: int|
                0 <= m < i ==> (#[trigger] groups.deep_view()[m]) == (DatacenterView {
                    name: totals.deep_view()[m].key.0,
                    cluster: totals.deep_view()[m].key.1,
                    vm_count: totals.deep_view()[m].count,
                    capacity: totals.deep_view()[m].amount,
                }),
        decreases totals.len() - i,
    {
        let total = &totals[i];
        let group = Datacenter {
            name: total.key.0.clone(),
            cluster: total.key.1.clone(),
            vm_count: total.count,
            capacity: total.amount,
        };
        let ghost before = groups.deep_view();
        groups.push(group);
        proof {
            assert(groups.deep_view() =~= before.push(group.deep_view()));
            assert(total.deep_view() == totals.deep_view()[i as int]);
        }
        i = i + 1;
    }
    proof {
        assert(cluster_totals(groups.deep_view()) =~= totals.deep_view());
        lemma_cluster_rollup_is_tally(groups.deep_view(), vms.deep_view());
        lemma_cluster_rollup_totals(groups.deep_view(), vms.deep_view());
    }
    groups
}

/// Rolls the machines up by site: one group per site that occurs, in
/// ascending order, each with the site's stand-in cluster.
pub fn rollup_by_site(vms: &Vec<Vinfo>) -> (groups: Vec<Datacenter>)
    ensures
        is_site_rollup(groups.deep_view(), vms.deep_view()),
{
    let entries = keyed_amounts(vms, false);
    let totals = tally(entries);
    let ghost vms_view = vms.deep_view();
    let ghost totals_view = totals.deep_view();
    let mut groups: Vec<Datacenter> = Vec::new();
    let mut i: usize = 0;
    while i < totals.len()
        invariant
            i <= totals.len(),
            groups.len() == i,
            totals_view == totals.deep_view(),
            forall|m: int|
                0 <= m < i ==> (#[trigger] groups.deep_view()[m]) == (DatacenterView {
                    name: totals_view[m].key.0,
                    cluster: site_cluster_name(totals_view[m].key.0),
                    vm_count: totals_view[m].count,
                    capacity: totals_view[m].amount,
                }),
        decreases totals.len() - i,
    {
        let total = &totals[i];
        let group = Datacenter {
            name: total.key.0.clone(),
            cluster: with_suffix(&total.key.0, "_cluster"),
            vm_count: total.count,
            capacity: total.amount,
        };
        let ghost before = groups.deep_view();
        groups.push(group);
        proof {
            assert(groups.deep_view() =~= before.push(group.deep_view()));
            assert(total.deep_view() == totals_view[i as int]);
        }
        i = i + 1;
    }
    proof {
        let entries_view = site_entries(vms_view);
        let groups_view = groups.deep_view();
        assert forall|m: int| 0 <= m < totals_view.len() implies (#[trigger] totals_view[m]).key.1
            == Seq::<char>::empty() by {
            let key = totals_view[m].key;
            assert(totals_view[m].count > 0);
            if key.1 != Seq::<char>::empty() {
                lemma_sum_by_bound(entries_view, one_if_key(key), 0);
            }
        }
        assert forall|m: int| 0 <= m < groups_view.len() implies {
            &&& (#[trigger] groups_view[m]).cluster == site_cluster_name(groups_view[m].name)
            &&& groups_view[m].vm_count > 0
            &&& groups_view[m].vm_count == vm_count_where(vms_view, in_site(groups_view[m].name))
            &&& groups_view[m].capacity == capacity_where(vms_view, in_site(groups_view[m].name))
        } by {
            assert(totals_view[m].count > 0);
            lemma_site_entries_sums(vms_view, groups_view[m].name);
        }
        assert forall|m: int, n: int|
            #![trigger groups_view[m], groups_view[n]]
            0 <= m < n < groups_view.len() implies text_lt(
            groups_view[m].name,
            groups_view[n].name,
        ) by {
            assert(key_lt(totals_view[m].key, totals_view[n].key));
        }
        assert forall|k: int| 0 <= k < vms_view.len() implies has_site_group(
            groups_view,
            (#[trigger] vms_view[k]).datacenter,
        ) by {
            assert(has_key(totals_view, entries_view[k].key));
            let m = choose|m: int|
                0 <= m < totals_view.len() && (#[trigger] totals_view[m]).key
                    == entries_view[k].key;
            assert(groups_view[m].name == vms_view[k].datacenter);
        }
    }
    groups
}

/// Merges the groups into one, named with the placeholders, that carries
/// the sums of their counts and capacities. There is no such group where a
/// sum exceeds its integer.
pub fn flatten_groups(groups: &Vec<Datacenter>) -> (merged: Option<Datacenter>)
    ensures
        match merged {
            Some(group) => is_merge_of(group.deep_view(), groups.deep_view()),
            None => total_vm_count(groups.deep_view()) > usize::MAX || total_group_capacity(
                groups.deep_view(),
            ) > u128::MAX,
        },
{
    let ghost view = groups.deep_view();
    let mut vm_count: usize = 0;
    let mut capacity: u128 = 0;
    let mut i: usize = 0;
    while i < groups.len()
        invariant
            i <= groups.len(),
            view == groups.deep_view(),
            vm_count == total_vm_count(view.take(i as int)),
            capacity == total_group_capacity(view.take(i as int)),
        decreases groups.len() - i,
    {
        proof {
            assert(view.take(i + 1) =~= view.take(i as int).push(view[i as int]));
            lemma_sum_by_push(view.take(i as int), view[i as int], vm_count_weight());
            lemma_sum_by_push(view.take(i as int), view[i as int], group_capacity_weight());
            lemma_sum_by_prefix(view, vm_count_weight(), i + 1);
            lemma_sum_by_prefix(view, group_capacity_weight(), i + 1);
        }
        let group = &groups[i];
        if group.vm_count > usize::MAX - vm_count || group.capacity > u128::MAX - capacity {
            return None;
        }
        vm_count = vm_count + group.vm_count;
        capacity = capacity + group.capacity;
        i = i + 1;
    }
    proof {
        assert(view.take(i as int) =~= view);
    }
    Some(
        Datacenter {
            name: String::from_str("DC1"),
            cluster: String::from_str("Cluster1"),
            vm_count,
            capacity,
        },
    )
}

/// Rolls the machines up under the given grouping.
pub fn rollup(vms: &Vec<Vinfo>, grouping: Grouping) -> (groups: Vec<Datacenter>)
    ensures
        is_rollup(groups.deep_view(), vms.deep_view(), grouping),
{
    match grouping {
        Grouping::Cluster => rollup_by_cluster(vms),
        Grouping::Site => rollup_by_site(vms),
        Grouping::Global => {
            let clusters = rollup_by_cluster(vms);
            proof {
                lemma_total_capacity_fits(vms.deep_view());
            }
            let merged = flatten_groups(&clusters);
            let mut groups: Vec<Datacenter> = Vec::new();
            match merged {
                Some(group) => {
                    groups.push(group);
                    proof {
                        assert(groups.deep_view()[0] == group.deep_view());
                    }
                },
                None => {
                    proof {
                        assert(false);
                    }
                },
            }
            groups
        },
    }
}

/// The names of the groups' sites, each once, in ascending order.
pub fn site_names(groups: &Vec<Datacenter>) -> (names: Vec<String>)
    ensures
        texts_ascend_strictly(names.deep_view()),
        forall|site: Seq<char>|
            names.deep_view().contains(site) <==> has_site_group(groups.deep_view(), site),
{
    let mut all: Vec<String> = Vec::new();
    let mut i: usize = 0;
    while i < groups.len()
        invariant
            i <= groups.len(),
            all.len() == i,
            forall|k: int| 0 <= k < i ==> (#[trigger] all[k])@ == groups[k].name@,
        decreases groups.len() - i,
    {
        all.push(groups[i].name.clone());
        i = i + 1;
    }
    let ghost all_view = all.deep_view();
    let names = sorted_distinct(all);
    proof {
        let view = groups.deep_view();
        assert forall|site: Seq<char>| all_view.contains(site) <==> has_site_group(
            view,
            site,
        ) by {
            if all_view.contains(site) {
                let k = choose|k: int| 0 <= k < all_view.len() && all_view[k] == site;
                assert(view[k].name == site);
            }
            if has_site_group(view, site) {
                let k = choose|k: int| 0 <= k < view.len() && (#[trigger] view[k]).name == site;
                assert(all_view[k] == site);
            }
        }
    }
    names
}

} // verus!
