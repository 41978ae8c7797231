//! The filters on the inventory: which machines a run keeps.
//!
//! There are five, each optional: keep only the listed datacenters, keep
//! only the listed clusters, drop the listed datacenters, drop the listed
//! clusters, drop the listed machine names. A machine is kept when it
//! passes every filter that is set.

use crate::models::cli::Cli;
use crate::models::rvtools::{Vinfo, VinfoView};
use vstd::prelude::*;

verus! {

/// The five filters as mathematical values: a filter that is not set is
/// `None`.
pub struct Policy {
    pub dc_include: Option<Seq<Seq<char>>>,
    pub cluster_include: Option<Seq<Seq<char>>>,
    pub dc_exclude: Option<Seq<Seq<char>>>,
    pub cluster_exclude: Option<Seq<Seq<char>>>,
    pub vm_exclude: Option<Seq<Seq<char>>>,
}

/// An include filter keeps the name: it is not set, or it lists the name.
pub open spec fn passes_include(filter: Option<Seq<Seq<char>>>, name: Seq<char>) -> bool {
    filter matches Some(names) ==> names.contains(name)
}

/// An exclude filter keeps the name: it is not set, or it does not list the
/// name.
pub open spec fn passes_exclude(filter: Option<Seq<Seq<char>>>, name: Seq<char>) -> bool {
    filter matches Some(names) ==> !names.contains(name)
}

/// The machine passes every filter of the policy.
pub open spec fn retained(vm: VinfoView, policy: Policy) -> bool {
    &&& passes_include(policy.dc_include, vm.datacenter)
    &&& passes_include(policy.cluster_include, vm.cluster)
    &&& passes_exclude(policy.dc_exclude, vm.datacenter)
    &&& passes_exclude(policy.cluster_exclude, vm.cluster)
    &&& passes_exclude(policy.vm_exclude, vm.vm_name)
}

/// The test that a policy puts to each machine.
pub open spec fn retained_by(policy: Policy) -> spec_fn(VinfoView) -> bool {
    |vm: VinfoView| retained(vm, policy)
}

/// The machines that the policy keeps, in their given order.
pub open spec fn kept(vms: Seq<VinfoView>, policy: Policy) -> Seq<VinfoView> {
    vms.filter(retained_by(policy))
}

/// The policy without filters.
pub open spec fn no_filters() -> Policy {
    Policy {
        dc_include: None,
        cluster_include: None,
        dc_exclude: None,
        cluster_exclude: None,
        vm_exclude: None,
    }
}

/// The datacenter filters of the policy, alone.
pub open spec fn datacenter_part(policy: Policy) -> Policy {
    Policy {
        dc_include: policy.dc_include,
        cluster_include: None,
        dc_exclude: policy.dc_exclude,
        cluster_exclude: None,
        vm_exclude: None,
    }
}

/// The cluster filters of the policy, alone.
pub open spec fn cluster_part(policy: Policy) -> Policy {
    Policy {
        dc_include: None,
        cluster_include: policy.cluster_include,
        dc_exclude: None,
        cluster_exclude: policy.cluster_exclude,
        vm_exclude: None,
    }
}

/// The machine-name filter of the policy, alone.
pub open spec fn name_part(policy: Policy) -> Policy {
    Policy {
        dc_include: None,
        cluster_include: None,
        dc_exclude: None,
        cluster_exclude: None,
        vm_exclude: policy.vm_exclude,
    }
}

/// Two tests that agree on every item keep the same items.
pub proof fn lemma_filter_agree<A>(s: Seq<A>, first: spec_fn(A) -> bool, second: spec_fn(A) -> bool)
    requires
        forall|i: int| 0 <= i < s.len() ==> first(#[trigger] s[i]) == second(s[i]),
    ensures
        s.filter(first) == s.filter(second),
    decreases s.len(),
{
    reveal(Seq::filter);
    if s.len() > 0 {
        assert forall|i: int| 0 <= i < s.drop_last().len() implies first(
            #[trigger] s.drop_last()[i],
        ) == second(s.drop_last()[i]) by {
            assert(s.drop_last()[i] == s[i]);
        }
        lemma_filter_agree(s.drop_last(), first, second);
        assert(s.last() == s[s.len() - 1]);
    }
}

/// Filtering twice keeps what passes both tests.
pub proof fn lemma_filter_twice<A>(
    s: Seq<A>,
    first: spec_fn(A) -> bool,
    second: spec_fn(A) -> bool,
    both: spec_fn(A) -> bool,
)
    requires
        forall|i: int|
            0 <= i < s.len() ==> both(#[trigger] s[i]) == (first(s[i]) && second(s[i])),
    ensures
        s.filter(first).filter(second) == s.filter(both),
    decreases s.len(),
{
    reveal(Seq::filter);
    if s.len() > 0 {
        let front = s.drop_last();
        assert forall|i: int| 0 <= i < front.len() implies both(#[trigger] front[i]) == (first(
            front[i],
        ) && second(front[i])) by {
            assert(front[i] == s[i]);
        }
        lemma_filter_twice(front, first, second, both);
        assert(s.last() == s[s.len() - 1]);
        if first(s.last()) {
            front.filter(first).lemma_filter_push(s.last(), second);
        }
    }
}

/// Without filters every machine is kept.
pub proof fn lemma_no_filters_keep_all(vms: Seq<VinfoView>)
    ensures
        kept(vms, no_filters()) == vms,
    decreases vms.len(),
{
    reveal(Seq::filter);
    if vms.len() > 0 {
        lemma_no_filters_keep_all(vms.drop_last());
        assert(vms.drop_last().push(vms.last()) =~= vms);
    }
}

/// Filtering what a policy has kept by the same policy changes nothing.
pub proof fn lemma_filter_idempotent(vms: Seq<VinfoView>, policy: Policy)
    ensures
        kept(kept(vms, policy), policy) == kept(vms, policy),
{
    lemma_filter_twice(vms, retained_by(policy), retained_by(policy), retained_by(policy));
}

/// Machines from several sources may be filtered source by source or all
/// together.
pub proof fn lemma_filter_spreads(first: Seq<VinfoView>, second: Seq<VinfoView>, policy: Policy)
    ensures
        kept(first + second, policy) == kept(first, policy) + kept(second, policy),
{
    Seq::filter_distributes_over_add(first, second, retained_by(policy));
}

/// The order of two policies does not matter: filtering by one and then by
/// the other keeps the same machines either way round.
pub proof fn lemma_filters_commute(vms: Seq<VinfoView>, first: Policy, second: Policy)
    ensures
        kept(kept(vms, first), second) == kept(kept(vms, second), first),
{
    let both = |vm: VinfoView| retained(vm, first) && retained(vm, second);
    lemma_filter_twice(vms, retained_by(first), retained_by(second), both);
    lemma_filter_twice(vms, retained_by(second), retained_by(first), both);
}

/// The filters on datacenters, on clusters and on machine names are
/// independent: a policy keeps what its three parts keep one after the
/// other.
pub proof fn lemma_filter_by_parts(vms: Seq<VinfoView>, policy: Policy)
    ensures
        kept(vms, policy) == kept(
            kept(kept(vms, datacenter_part(policy)), cluster_part(policy)),
            name_part(policy),
        ),
{
    let two = |vm: VinfoView|
        retained(vm, datacenter_part(policy)) && retained(vm, cluster_part(policy));
    lemma_filter_twice(
        vms,
        retained_by(datacenter_part(policy)),
        retained_by(cluster_part(policy)),
        two,
    );
    lemma_filter_twice(vms, two, retained_by(name_part(policy)), retained_by(policy));
}

/// The policy with its datacenter filters replaced.
pub open spec fn with_datacenters(
    policy: Policy,
    dc_include: Option<Seq<Seq<char>>>,
    dc_exclude: Option<Seq<Seq<char>>>,
) -> Policy {
    Policy {
        dc_include,
        cluster_include: policy.cluster_include,
        dc_exclude,
        cluster_exclude: policy.cluster_exclude,
        vm_exclude: policy.vm_exclude,
    }
}

/// The policy with its cluster filters replaced.
pub open spec fn with_clusters(
    policy: Policy,
    cluster_include: Option<Seq<Seq<char>>>,
    cluster_exclude: Option<Seq<Seq<char>>>,
) -> Policy {
    Policy {
        dc_include: policy.dc_include,
        cluster_include,
        dc_exclude: policy.dc_exclude,
        cluster_exclude,
        vm_exclude: policy.vm_exclude,
    }
}

/// Where every machine's datacenter is either included or excluded, never
/// both, the include filter alone, the exclude filter alone and the two
/// together keep the same machines.
pub proof fn lemma_complementary_datacenter_filters(
    vms: Seq<VinfoView>,
    policy: Policy,
    included: Seq<Seq<char>>,
    excluded: Seq<Seq<char>>,
)
    requires
        forall|k: int|
            0 <= k < vms.len() ==> included.contains((#[trigger] vms[k]).datacenter)
                != excluded.contains(vms[k].datacenter),
    ensures
        kept(vms, with_datacenters(policy, Some(included), Some(excluded))) == kept(
            vms,
            with_datacenters(policy, Some(included), None),
        ),
        kept(vms, with_datacenters(policy, None, Some(excluded))) == kept(
            vms,
            with_datacenters(policy, Some(included), None),
        ),
{
    lemma_filter_agree(
        vms,
        retained_by(with_datacenters(policy, Some(included), Some(excluded))),
        retained_by(with_datacenters(policy, Some(included), None)),
    );
    lemma_filter_agree(
        vms,
        retained_by(with_datacenters(policy, None, Some(excluded))),
        retained_by(with_datacenters(policy, Some(included), None)),
    );
}

/// Where every machine's cluster is either included or excluded, never
/// both, the include filter alone, the exclude filter alone and the two
/// together keep the same machines.
pub proof fn lemma_complementary_cluster_filters(
    vms: Seq<VinfoView>,
    policy: Policy,
    included: Seq<Seq<char>>,
    excluded: Seq<Seq<char>>,
)
    requires
        forall|k: int|
            0 <= k < vms.len() ==> included.contains((#[trigger] vms[k]).cluster)
                != excluded.contains(vms[k].cluster),
    ensures
        kept(vms, with_clusters(policy, Some(included), Some(excluded))) == kept(
            vms,
            with_clusters(policy, Some(included), None),
        ),
        kept(vms, with_clusters(policy, None, Some(excluded))) == kept(
            vms,
            with_clusters(policy, Some(included), None),
        ),
{
    lemma_filter_agree(
        vms,
        retained_by(with_clusters(policy, Some(included), Some(excluded))),
        retained_by(with_clusters(policy, Some(included), None)),
    );
    lemma_filter_agree(
        vms,
        retained_by(with_clusters(policy, None, Some(excluded))),
        retained_by(with_clusters(policy, Some(included), None)),
    );
}

/// Whether the list holds the name.
pub fn is_listed(names: &Vec<String>, name: &String) -> (listed: bool)
    ensures
        listed == names.deep_view().contains(name@),
{
    let mut n: usize = 0;
    while n < names.len()
        invariant
            n <= names.len(),
            forall|m: int| 0 <= m < n ==> (#[trigger] names.deep_view()[m]) != name@,
        decreases names.len() - n,
    {
        assert(names.deep_view()[n as int] == names[n as int]@);
        if names[n] == *name {
            return true;
        }
        n = n + 1;
    }
    false
}

/// Whether an include filter keeps the name.
pub fn include_allows(filter: &Option<Vec<String>>, name: &String) -> (allowed: bool)
    ensures
        allowed == passes_include(filter.deep_view(), name@),
{
    match filter {
        Some(names) => is_listed(names, name),
        None => true,
    }
}

/// Whether an exclude filter keeps the name.
pub fn exclude_allows(filter: &Option<Vec<String>>, name: &String) -> (allowed: bool)
    ensures
        allowed == passes_exclude(filter.deep_view(), name@),
{
    match filter {
        Some(names) => !is_listed(names, name),
        None => true,
    }
}

/// Whether the run's filters keep the machine.
pub fn is_retained(vm: &Vinfo, cli: &Cli) -> (keep: bool)
    ensures
        keep == retained(vm.deep_view(), cli.deep_view().policy()),
{
    include_allows(&cli.dc_include, &vm.datacenter) && include_allows(
        &cli.cluster_include,
        &vm.cluster,
    ) && exclude_allows(&cli.dc_exclude, &vm.datacenter) && exclude_allows(
        &cli.cluster_exclude,
        &vm.cluster,
    ) && exclude_allows(&cli.vm_exclude, &vm.vm_name)
}

/// The machines that the run's filters keep, in their given order.
pub fn filter_inventory(vms: &Vec<Vinfo>, cli: &Cli) -> (survivors: Vec<Vinfo>)
    ensures
        survivors.deep_view() == kept(vms.deep_view(), cli.deep_view().policy()),
{
    let ghost view = vms.deep_view();
    let ghost test = retained_by(cli.deep_view().policy());
    let mut survivors: Vec<Vinfo> = Vec::new();
    let mut k: usize = 0;
    proof {
        reveal(Seq::filter);
        assert(view.take(0).filter(test) =~= Seq::<VinfoView>::empty());
    }
    while k < vms.len()
        invariant
            k <= vms.len(),
            view == vms.deep_view(),
            test == retained_by(cli.deep_view().policy()),
            survivors.deep_view() == view.take(k as int).filter(test),
        decreases vms.len() - k,
    {
        let vm = &vms[k];
        proof {
            assert(vm.deep_view() == view[k as int]);
            assert(view.take(k + 1) =~= view.take(k as int).push(view[k as int]));
            view.take(k as int).lemma_filter_push(view[k as int], test);
        }
        if is_retained(vm, cli) {
            let ghost before = survivors.deep_view();
            let copy = vm.clone();
            survivors.push(copy);
            proof {
                assert(survivors.deep_view() =~= before.push(copy.deep_view()));
            }
        }
        k = k + 1;
    }
    proof {
        assert(view.take(k as int) =~= view);
    }
    survivors
}

} // verus!
