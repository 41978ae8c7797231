//! Projecting rollup groups into the sizing document.
//!
//! The document holds one site and one repository per site name, two
//! storage tiers, one data-change-rate profile, one backup window and one
//! retention policy that every workload shares, and one workload per group.

use crate::models::new_model::{
    Backup, BackupView, CapArchTier, CapArchTierView, DataProperty, DataPropertyView, NewVse,
    NewVseView, PerfTierRepo, PerfTierRepoView, Retentions, RetentionsView, Site, SiteView,
    Window, WindowView, Workload, WorkloadView,
};
use crate::models::rvtools::{Datacenter, DatacenterView};
use crate::text::with_suffix;
use vstd::prelude::*;
use vstd::string::*;

verus! {

/// The name of a site's repository.
pub open spec fn repository_name(site: Seq<char>) -> Seq<char> {
    site + "_repo"@
}

/// The name of the workload of a group's cluster.
pub open spec fn workload_name(cluster: Seq<char>) -> Seq<char> {
    cluster + "_workload"@
}

/// The site of the given name.
pub open spec fn site_of(name: Seq<char>) -> SiteView {
    SiteView { id: name, name }
}

/// The repository of the site of the given name: it refers to the two
/// tiers, with tiering and immutability switched off.
pub open spec fn repository_of(site: Seq<char>) -> PerfTierRepoView {
    PerfTierRepoView {
        repo_id: repository_name(site),
        repo_name: repository_name(site),
        site_id: site,
        copy_capacity_tier_enabled: false,
        move_capacity_tier_enabled: false,
        archive_tier_enabled: false,
        capacity_tier_days: 0,
        archive_tier_days: 0,
        capacity_tier_repo_id: "general-s3compatible-capacity"@,
        archive_tier_repo_id: "general-glacier-archive"@,
        storage_type: "xfsRefs"@,
        immutable_perf: false,
        immutable_cap: false,
    }
}

/// The capacity tier.
pub open spec fn capacity_tier() -> CapArchTierView {
    CapArchTierView {
        id: "general-s3compatible-capacity"@,
        tier_type: "Capacity"@,
        name: "General S3 compatible"@,
        default: true,
    }
}

/// The archive tier.
pub open spec fn archive_tier() -> CapArchTierView {
    CapArchTierView {
        id: "general-glacier-archive"@,
        tier_type: "Archive"@,
        name: "General Amazon S3 Glacier"@,
        default: true,
    }
}

/// The data-change-rate profile.
pub open spec fn data_property() -> DataPropertyView {
    DataPropertyView {
        data_property_id: "dpopt"@,
        data_property_name: "Generic Optimistic"@,
        change_rate: 5,
        compression: 50,
        growth_factor: 10,
        default: true,
    }
}

/// The backup window.
pub open spec fn backup_window() -> WindowView {
    WindowView {
        backup_window_id: "bw12"@,
        backup_window_name: "backup_window1"@,
        full_window: 24,
        incremental_window: 12,
        default: true,
    }
}

/// The retention policy: thirty daily restore points, under the given name
/// or, without one, the name `30D`.
pub open spec fn retention_policy(name: Option<Seq<char>>) -> RetentionsView {
    RetentionsView {
        retention_id: "rt1"@,
        retention_name: match name {
            Some(name) => name,
            None => "30D"@,
        },
        simple: 30,
        weekly: 0,
        monthly: 0,
        yearly: 0,
        default: true,
    }
}

/// The workload of a group: named after the group's cluster, sized by the
/// group's capacity and number of machines, and backed up to the repository
/// of the group's site under the shared policies. The number of machines is
/// the group's count as a 64-bit signed integer.
pub open spec fn workload_of(group: DatacenterView) -> WorkloadView {
    WorkloadView {
        workload_id: workload_name(group.cluster),
        enabled: true,
        workload_name: workload_name(group.cluster),
        site_id: group.name,
        large_block: false,
        source_mib: group.capacity,
        units: group.vm_count as i64,
        workload_type: "VM"@,
        data_property_id: "dpopt"@,
        backup: BackupView {
            retention_id: "rt1"@,
            repo_id: repository_name(group.name),
            backup_window_id: "bw12"@,
        },
        copies_enabled: false,
        copies: BackupView {
            retention_id: Seq::empty(),
            repo_id: Seq::empty(),
            backup_window_id: Seq::empty(),
        },
    }
}

/// The sizing document for the given site names and groups.
pub open spec fn sizing_document(
    sites: Seq<Seq<char>>,
    groups: Seq<DatacenterView>,
    retention: Option<Seq<char>>,
) -> NewVseView {
    NewVseView {
        project_length: 3,
        sites: Seq::new(sites.len(), |i: int| site_of(sites[i])),
        repositories: Seq::new(sites.len(), |i: int| repository_of(sites[i])),
        cap_arch_tiers: seq![capacity_tier(), archive_tier()],
        data_properties: seq![data_property()],
        windows: seq![backup_window()],
        retentions: seq![retention_policy(retention)],
        workloads: Seq::new(groups.len(), |i: int| workload_of(groups[i])),
    }
}

/// Builds the repository of a site.
fn make_repository(site: &String) -> (repository: PerfTierRepo)
    ensures
        repository.deep_view() == repository_of(site@),
{
    PerfTierRepo::new(
        with_suffix(site, "_repo"),
        with_suffix(site, "_repo"),
        site.clone(),
        false,
        false,
        false,
        0,
        0,
        String::from_str("general-s3compatible-capacity"),
        String::from_str("general-glacier-archive"),
        String::from_str("xfsRefs"),
        false,
        false,
    )
}

/// Builds the workload of a group.
fn make_workload(group: &Datacenter) -> (workload: Workload)
    ensures
        workload.deep_view() == workload_of(group.deep_view()),
{
    let backup = Backup::new(
        String::from_str("rt1"),
        with_suffix(&group.name, "_repo"),
        String::from_str("bw12"),
    );
    let copies = Backup::new(String::new(), String::new(), String::new());
    Workload::new(
        with_suffix(&group.cluster, "_workload"),
        true,
        with_suffix(&group.cluster, "_workload"),
        group.name.clone(),
        false,
        group.capacity,
        #[verifier::truncate]
        (group.vm_count as i64),
        String::from_str("VM"),
        String::from_str("dpopt"),
        backup,
        false,
        copies,
    )
}

/// Builds the retention policy.
fn make_retention(name: Option<String>) -> (retention: Retentions)
    ensures
        retention.deep_view() == retention_policy(name.deep_view()),
{
    let retention_name = match name {
        Some(name) => name,
        None => String::from_str("30D"),
    };
    Retentions::new(String::from_str("rt1"), retention_name, 30, 0, 0, 0, true)
}

/// Builds the sizing document: a site and a repository for each of the
/// given site names, the shared tiers and policies, and a workload for each
/// of the given groups. A retention name, where one is given, becomes the
/// name of the retention policy as it is.
pub fn vse_construct(
    datacenter_strings: Vec<String>,
    datacenters: &Vec<Datacenter>,
    retention: Option<String>,
) -> (vse: NewVse)
    ensures
        vse.deep_view() == sizing_document(
            datacenter_strings.deep_view(),
            datacenters.deep_view(),
            retention.deep_view(),
        ),
{
    let mut sites: Vec<Site> = Vec::new();
    let mut repos: Vec<PerfTierRepo> = Vec::new();
    let mut i: usize = 0;
    while i < datacenter_strings.len()
        invariant
            i <= datacenter_strings.len(),
            sites.len() == i,
            repos.len() == i,
            forall|k: int|
                0 <= k < i ==> (#[trigger] sites[k]).deep_view() == site_of(
                    datacenter_strings[k]@,
                ),
            forall|k: int|
                0 <= k < i ==> (#[trigger] repos[k]).deep_view() == repository_of(
                    datacenter_strings[k]@,
                ),
        decreases datacenter_strings.len() - i,
    {
        let name = &datacenter_strings[i];
        sites.push(Site::new(name.clone(), name.clone()));
        repos.push(make_repository(name));
        i = i + 1;
    }
    let cap_tier = CapArchTier::new(
        String::from_str("general-s3compatible-capacity"),
        String::from_str("Capacity"),
        String::from_str("General S3 compatible"),
        true,
    );
    let arch_tier = CapArchTier::new(
        String::from_str("general-glacier-archive"),
        String::from_str("Archive"),
        String::from_str("General Amazon S3 Glacier"),
        true,
    );
    let data_property = DataProperty::new(
        String::from_str("dpopt"),
        String::from_str("Generic Optimistic"),
        5,
        50,
        10,
        true,
    );
    let window = Window::new(
        String::from_str("bw12"),
        String::from_str("backup_window1"),
        24,
        12,
        true,
    );
    let ghost retention_name = retention.deep_view();
    let retention_policy = make_retention(retention);
    let mut workloads: Vec<Workload> = Vec::new();
    let mut j: usize = 0;
    while j < datacenters.len()
        invariant
            j <= datacenters.len(),
            workloads.len() == j,
            forall|k: int|
                0 <= k < j ==> (#[trigger] workloads[k]).deep_view() == workload_of(
                    datacenters[k].deep_view(),
                ),
        decreases datacenters.len() - j,
    {
        workloads.push(make_workload(&datacenters[j]));
        j = j + 1;
    }
    let mut tiers: Vec<CapArchTier> = Vec::new();
    tiers.push(cap_tier);
    tiers.push(arch_tier);
    let mut data_properties: Vec<DataProperty> = Vec::new();
    data_properties.push(data_property);
    let mut windows: Vec<Window> = Vec::new();
    windows.push(window);
    let mut retentions: Vec<Retentions> = Vec::new();
    retentions.push(retention_policy);
    let vse = NewVse::new(
        3,
        sites,
        repos,
        tiers,
        data_properties,
        windows,
        retentions,
        workloads,
    );
    proof {
        let document = sizing_document(
            datacenter_strings.deep_view(),
            datacenters.deep_view(),
            retention_name,
        );
        assert(vse.deep_view().sites =~= document.sites);
        assert(vse.deep_view().repositories =~= document.repositories);
        assert(vse.deep_view().cap_arch_tiers =~= document.cap_arch_tiers);
        assert(vse.deep_view().data_properties =~= document.data_properties);
        assert(vse.deep_view().windows =~= document.windows);
        assert(vse.deep_view().retentions =~= document.retentions);
        assert(vse.deep_view().workloads =~= document.workloads);
    }
    vse
}

} // verus!
