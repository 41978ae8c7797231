//! Merging rollup groups into logical sites by a mapping.
//!
//! A rule merges every group whose site name contains one of the rule's
//! names. The mapped groups replace the given ones: one per rule, in the
//! order of the rules; a group that no rule merges is left out.

use crate::models::new_model::{Mapper, MapperView};
use crate::models::rvtools::{Datacenter, DatacenterView, Vinfo, VinfoView};
use crate::rollup::{
    capacity_weight, capacity_where, group_capacity_weight, has_cluster_group, in_cluster,
    is_cluster_rollup, rollup_by_cluster, site_cluster_name, total_group_capacity,
    total_vm_count, vm_count_weight, vm_count_where,
};
use crate::sums::{
    class_sum, classes_partition, count_if, in_one_class, lemma_sum_by_bound,
    lemma_sum_by_classes, lemma_sum_by_pointwise, lemma_sum_by_prefix, lemma_sum_by_push,
    member_weight, only_class, sum_by, weight_if,
};
use crate::tally::key_lt;
use crate::text::{contains_text, occurs_in, with_suffix};
use vstd::prelude::*;

verus! {

/// The site's name contains one of the given names.
pub open spec fn names_site(names: Seq<Seq<char>>, site: Seq<char>) -> bool {
    exists|n: int| 0 <= n < names.len() && occurs_in(#[trigger] names[n], site)
}

/// The rule merges the group.
pub open spec fn merges() -> spec_fn(MapperView, DatacenterView) -> bool {
    |rule: MapperView, group: DatacenterView| names_site(rule.dc_names, group.name)
}

/// The machines of the groups that the rule merges.
pub open spec fn mapped_vm_count(groups: Seq<DatacenterView>, rule: MapperView) -> nat {
    sum_by(groups, member_weight(merges(), rule, vm_count_weight()))
}

/// The capacity, in MiB, of the groups that the rule merges.
pub open spec fn mapped_capacity(groups: Seq<DatacenterView>, rule: MapperView) -> nat {
    sum_by(groups, member_weight(merges(), rule, group_capacity_weight()))
}

/// What the rule merges fits the integers of a group.
pub open spec fn rule_fits(groups: Seq<DatacenterView>, rule: MapperView) -> bool {
    mapped_vm_count(groups, rule) <= usize::MAX && mapped_capacity(groups, rule) <= u128::MAX
}

/// What each of the first `n` rules merges fits the integers of a group.
pub open spec fn rules_fit(groups: Seq<DatacenterView>, mapping: Seq<MapperView>, n: int) -> bool {
    forall|i: int| 0 <= i < n ==> rule_fits(groups, #[trigger] mapping[i])
}

/// `mapped` is what the mapping makes of `groups`: one group per rule, in
/// order, named after the rule with the stand-in cluster of that name, which
/// counts and totals the groups that the rule merges.
pub open spec fn is_site_mapping(
    mapped: Seq<DatacenterView>,
    groups: Seq<DatacenterView>,
    mapping: Seq<MapperView>,
) -> bool {
    &&& mapped.len() == mapping.len()
    &&& forall|i: int|
        0 <= i < mapping.len() ==> {
            &&& (#[trigger] mapped[i]).name == mapping[i].group_name
            &&& mapped[i].cluster == site_cluster_name(mapping[i].group_name)
            &&& mapped[i].vm_count == mapped_vm_count(groups, mapping[i])
            &&& mapped[i].capacity == mapped_capacity(groups, mapping[i])
        }
}

/// The rules partition the groups: every group is merged by exactly one
/// rule.
pub open spec fn rules_partition(groups: Seq<DatacenterView>, mapping: Seq<MapperView>) -> bool {
    classes_partition(groups, mapping, merges())
}

/// Where every group is merged by exactly one rule, mapping loses and
/// doubles nothing: the mapped groups count as many machines and total as
/// much capacity as the given groups.
pub proof fn lemma_site_mapping_keeps_totals(
    mapped: Seq<DatacenterView>,
    groups: Seq<DatacenterView>,
    mapping: Seq<MapperView>,
)
    requires
        is_site_mapping(mapped, groups, mapping),
        rules_partition(groups, mapping),
    ensures
        total_vm_count(mapped) == total_vm_count(groups),
        total_group_capacity(mapped) == total_group_capacity(groups),
{
    lemma_sum_by_classes(groups, mapping, merges(), vm_count_weight());
    lemma_sum_by_classes(groups, mapping, merges(), group_capacity_weight());
    lemma_sum_by_pointwise(
        mapped,
        vm_count_weight(),
        mapping,
        class_sum(groups, merges(), vm_count_weight()),
    );
    lemma_sum_by_pointwise(
        mapped,
        group_capacity_weight(),
        mapping,
        class_sum(groups, merges(), group_capacity_weight()),
    );
}

/// The test by which a rule's name picks a site: the name occurs somewhere
/// in the site's name.
pub fn site_matches(site: &String, name: &String) -> (matches: bool)
    ensures
        matches == occurs_in(name@, site@),
{
    contains_text(site.as_str(), name.as_str())
}

/// Whether one of the names picks the site.
pub fn any_name_matches(names: &Vec<String>, site: &String) -> (matches: bool)
    ensures
        matches == names_site(names.deep_view(), site@),
{
    let mut n: usize = 0;
    while n < names.len()
        invariant
            n <= names.len(),
            forall|m: int| 0 <= m < n ==> !occurs_in(#[trigger] names.deep_view()[m], site@),
        decreases names.len() - n,
    {
        assert(names.deep_view()[n as int] == names[n as int]@);
        if site_matches(site, &names[n]) {
            return true;
        }
        n = n + 1;
    }
    false
}

/// Merges the groups that the rule picks into one group named after the
/// rule. There is no such group where a sum exceeds its integer.
pub fn map_site(groups: &Vec<Datacenter>, rule: &Mapper) -> (merged: Option<Datacenter>)
    ensures
        match merged {
            Some(group) => {
                &&& rule_fits(groups.deep_view(), rule.deep_view())
                &&& group.name@ == rule.group_name@
                &&& group.cluster@ == site_cluster_name(rule.group_name@)
                &&& group.vm_count == mapped_vm_count(groups.deep_view(), rule.deep_view())
                &&& group.capacity == mapped_capacity(groups.deep_view(), rule.deep_view())
            },
            None => !rule_fits(groups.deep_view(), rule.deep_view()),
        },
{
    let ghost view = groups.deep_view();
    let ghost counts = member_weight(merges(), rule.deep_view(), vm_count_weight());
    let ghost capacities = member_weight(merges(), rule.deep_view(), group_capacity_weight());
    let mut vm_count: usize = 0;
    let mut capacity: u128 = 0;
    let mut i: usize = 0;
    while i < groups.len()
        invariant
            i <= groups.len(),
            view == groups.deep_view(),
            counts == member_weight(merges(), rule.deep_view(), vm_count_weight()),
            capacities == member_weight(merges(), rule.deep_view(), group_capacity_weight()),
            vm_count == sum_by(view.take(i as int), counts),
            capacity == sum_by(view.take(i as int), capacities),
        decreases groups.len() - i,
    {
        proof {
            assert(view.take(i + 1) =~= view.take(i as int).push(view[i as int]));
            lemma_sum_by_push(view.take(i as int), view[i as int], counts);
            lemma_sum_by_push(view.take(i as int), view[i as int], capacities);
            lemma_sum_by_prefix(view, counts, i + 1);
            lemma_sum_by_prefix(view, capacities, i + 1);
        }
        let group = &groups[i];
        if any_name_matches(&rule.dc_names, &group.name) {
            if group.vm_count > usize::MAX - vm_count || group.capacity > u128::MAX - capacity {
                return None;
            }
            vm_count = vm_count + group.vm_count;
            capacity = capacity + group.capacity;
        }
        i = i + 1;
    }
    proof {
        assert(view.take(i as int) =~= view);
    }
    Some(
        Datacenter {
            name: rule.group_name.clone(),
            cluster: with_suffix(&rule.group_name, "_cluster"),
            vm_count,
            capacity,
        },
    )
}

/// Applies the mapping to the groups: one mapped group per rule, in the
/// order of the rules. There is no result where what some rule merges
/// exceeds the integers of a group.
pub fn map_sites(groups: &Vec<Datacenter>, mapping: &Vec<Mapper>) -> (mapped: Option<
    Vec<Datacenter>,
>)
    ensures
        match mapped {
            Some(mapped) => {
                &&& rules_fit(groups.deep_view(), mapping.deep_view(), mapping.len() as int)
                &&& is_site_mapping(mapped.deep_view(), groups.deep_view(), mapping.deep_view())
            },
            None => !rules_fit(groups.deep_view(), mapping.deep_view(), mapping.len() as int),
        },
{
    let mut mapped: Vec<Datacenter> = Vec::new();
    let mut r: usize = 0;
    while r < mapping.len()
        invariant
            r <= mapping.len(),
            mapped.len() == r,
            rules_fit(groups.deep_view(), mapping.deep_view(), r as int),
            forall|i: int|
                0 <= i < r ==> {
                    &&& (#[trigger] mapped.deep_view()[i]).name == mapping.deep_view()[i].group_name
                    &&& mapped.deep_view()[i].cluster == site_cluster_name(
                        mapping.deep_view()[i].group_name,
                    )
                    &&& mapped.deep_view()[i].vm_count == mapped_vm_count(
                        groups.deep_view(),
                        mapping.deep_view()[i],
                    )
                    &&& mapped.deep_view()[i].capacity == mapped_capacity(
                        groups.deep_view(),
                        mapping.deep_view()[i],
                    )
                },
        decreases mapping.len() - r,
    {
        let rule = &mapping[r];
        assert(rule.deep_view() == mapping.deep_view()[r as int]);
        match map_site(groups, rule) {
            Some(group) => {
                let ghost before = mapped.deep_view();
                mapped.push(group);
                proof {
                    assert(mapped.deep_view() =~= before.push(group.deep_view()));
                }
            },
            None => {
                return None;
            },
        }
        r = r + 1;
    }
    Some(mapped)
}

/// The machine's site has one of the given names in its name.
pub open spec fn in_sites_named(names: Seq<Seq<char>>) -> spec_fn(VinfoView) -> bool {
    |vm: VinfoView| names_site(names, vm.datacenter)
}

/// `mapped` is the rollup of `vms` by the mapping: one group per rule, in
/// order, named after the rule with the stand-in cluster of that name, which
/// counts and totals the machines whose site the rule picks.
pub open spec fn is_mapped_rollup(
    mapped: Seq<DatacenterView>,
    vms: Seq<VinfoView>,
    mapping: Seq<MapperView>,
) -> bool {
    &&& mapped.len() == mapping.len()
    &&& forall|i: int|
        0 <= i < mapping.len() ==> {
            &&& (#[trigger] mapped[i]).name == mapping[i].group_name
            &&& mapped[i].cluster == site_cluster_name(mapping[i].group_name)
            &&& mapped[i].vm_count == vm_count_where(vms, in_sites_named(mapping[i].dc_names))
            &&& mapped[i].capacity == capacity_where(vms, in_sites_named(mapping[i].dc_names))
        }
}

/// The machine is one of the group's: it is in the group's site and
/// cluster.
pub open spec fn groups_vm() -> spec_fn(DatacenterView, VinfoView) -> bool {
    |group: DatacenterView, vm: VinfoView|
        vm.datacenter == group.name && vm.cluster == group.cluster
}

/// What a rule merges of a rollup by cluster are the machines whose site it
/// picks: the groups stand for exactly their machines.
pub proof fn lemma_mapping_counts_machines(
    groups: Seq<DatacenterView>,
    vms: Seq<VinfoView>,
    rule: MapperView,
)
    requires
        is_cluster_rollup(groups, vms),
    ensures
        mapped_vm_count(groups, rule) == vm_count_where(vms, in_sites_named(rule.dc_names)),
        mapped_capacity(groups, rule) == capacity_where(vms, in_sites_named(rule.dc_names)),
{
    let picked = in_sites_named(rule.dc_names);
    let ones = count_if(picked);
    let amounts = weight_if(picked, capacity_weight());
    assert forall|k: int| 0 <= k < vms.len() implies in_one_class(
        groups,
        groups_vm(),
        #[trigger] vms[k],
    ) by {
        assert(has_cluster_group(groups, vms[k].datacenter, vms[k].cluster));
        let i = choose|i: int|
            0 <= i < groups.len() && (#[trigger] groups[i]).name == vms[k].datacenter
                && groups[i].cluster == vms[k].cluster;
        assert forall|j: int| 0 <= j < groups.len() && j != i implies !groups_vm()(
            #[trigger] groups[j],
            vms[k],
        ) by {
            if j < i {
                assert(key_lt(
                    (groups[j].name, groups[j].cluster),
                    (groups[i].name, groups[i].cluster),
                ));
            } else {
                assert(key_lt(
                    (groups[i].name, groups[i].cluster),
                    (groups[j].name, groups[j].cluster),
                ));
            }
        }
        assert(only_class(groups, groups_vm(), vms[k], i));
    }
    lemma_sum_by_classes(vms, groups, groups_vm(), ones);
    lemma_sum_by_classes(vms, groups, groups_vm(), amounts);
    assert forall|i: int| 0 <= i < groups.len() implies {
        &&& class_sum(vms, groups_vm(), ones)(#[trigger] groups[i]) == member_weight(
            merges(),
            rule,
            vm_count_weight(),
        )(groups[i])
        &&& class_sum(vms, groups_vm(), amounts)(groups[i]) == member_weight(
            merges(),
            rule,
            group_capacity_weight(),
        )(groups[i])
    } by {
        let group = groups[i];
        let here = in_cluster(group.name, group.cluster);
        if names_site(rule.dc_names, group.name) {
            lemma_sum_by_pointwise(
                vms,
                member_weight(groups_vm(), group, ones),
                vms,
                count_if(here),
            );
            lemma_sum_by_pointwise(
                vms,
                member_weight(groups_vm(), group, amounts),
                vms,
                weight_if(here, capacity_weight()),
            );
        } else {
            lemma_sum_by_bound(vms, member_weight(groups_vm(), group, ones), 0);
            lemma_sum_by_bound(vms, member_weight(groups_vm(), group, amounts), 0);
        }
    }
    lemma_sum_by_pointwise(
        groups,
        class_sum(vms, groups_vm(), ones),
        groups,
        member_weight(merges(), rule, vm_count_weight()),
    );
    lemma_sum_by_pointwise(
        groups,
        class_sum(vms, groups_vm(), amounts),
        groups,
        member_weight(merges(), rule, group_capacity_weight()),
    );
}

/// Rolls the machines up by the mapping: they are rolled up by cluster, and
/// the mapping is applied to those groups.
pub fn rollup_by_mapping(vms: &Vec<Vinfo>, mapping: &Vec<Mapper>) -> (mapped: Vec<Datacenter>)
    ensures
        is_mapped_rollup(mapped.deep_view(), vms.deep_view(), mapping.deep_view()),
{
    let clusters = rollup_by_cluster(vms);
    proof {
        let vms_view = vms.deep_view();
        assert forall|i: int| 0 <= i < mapping.len() implies rule_fits(
            clusters.deep_view(),
            #[trigger] mapping.deep_view()[i],
        ) by {
            let rule = mapping.deep_view()[i];
            let picked = in_sites_named(rule.dc_names);
            lemma_mapping_counts_machines(clusters.deep_view(), vms_view, rule);
            lemma_sum_by_bound(vms_view, count_if(picked), 1);
            lemma_sum_by_bound(
                vms_view,
                weight_if(picked, capacity_weight()),
                0xffff_ffff_ffff_ffff,
            );
            assert(vms_view.len() * 0xffff_ffff_ffff_ffff <= u128::MAX) by (nonlinear_arith)
                requires
                    vms_view.len() <= 0xffff_ffff_ffff_ffff,
            ;
        }
    }
    match map_sites(&clusters, mapping) {
        Some(mapped) => {
            proof {
                assert forall|i: int| 0 <= i < mapping.len() implies {
                    &&& (#[trigger] mapped.deep_view()[i]).vm_count == vm_count_where(
                        vms.deep_view(),
                        in_sites_named(mapping.deep_view()[i].dc_names),
                    )
                    &&& mapped.deep_view()[i].capacity == capacity_where(
                        vms.deep_view(),
                        in_sites_named(mapping.deep_view()[i].dc_names),
                    )
                } by {
                    lemma_mapping_counts_machines(
                        clusters.deep_view(),
                        vms.deep_view(),
                        mapping.deep_view()[i],
                    );
                }
            }
            mapped
        },
        None => {
            proof {
                assert(false);
            }
            Vec::new()
        },
    }
}

} // verus!
