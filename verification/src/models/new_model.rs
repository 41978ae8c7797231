//! The sizing document and the rules of a site mapping.

use crate::vecs::{clone_records, clone_texts};
use vstd::prelude::*;

verus! {

/// A site: a logical grouping of datacenters.
#[derive(Debug, Default, PartialEq, Eq)]
pub struct Site {
    pub id: String,
    pub name: String,
}

/// The mathematical value of a [`Site`].
pub struct SiteView {
    pub id: Seq<char>,
    pub name: Seq<char>,
}

impl DeepView for Site {
    type V = SiteView;

    open spec fn deep_view(&self) -> SiteView {
        SiteView { id: self.id@, name: self.name@ }
    }
}

impl View for Site {
    type V = SiteView;

    open spec fn view(&self) -> SiteView {
        self.deep_view()
    }
}

impl Clone for Site {
    fn clone(&self) -> (copy: Self)
        ensures
            copy.deep_view() == self.deep_view(),
    {
        Site { id: self.id.clone(), name: self.name.clone() }
    }
}

impl Site {
    /// Builds the record from its fields, in the order of their declaration.
    pub fn new(id: String, name: String) -> (made: Self)
        ensures
            made == (Site { id, name }),
    {
        Site { id, name }
    }
}

/// The performance-tier repository of a site.
#[derive(Debug, Default, PartialEq, Eq)]
pub struct PerfTierRepo {
    pub repo_id: String,
    pub repo_name: String,
    pub site_id: String,
    pub copy_capacity_tier_enabled: bool,
    pub move_capacity_tier_enabled: bool,
    pub archive_tier_enabled: bool,
    pub capacity_tier_days: i64,
    pub archive_tier_days: i64,
    pub capacity_tier_repo_id: String,
    pub archive_tier_repo_id: String,
    pub storage_type: String,
    pub immutable_perf: bool,
    pub immutable_cap: bool,
}

/// The mathematical value of a [`PerfTierRepo`].
pub struct PerfTierRepoView {
    pub repo_id: Seq<char>,
    pub repo_name: Seq<char>,
    pub site_id: Seq<char>,
    pub copy_capacity_tier_enabled: bool,
    pub move_capacity_tier_enabled: bool,
    pub archive_tier_enabled: bool,
    pub capacity_tier_days: i64,
    pub archive_tier_days: i64,
    pub capacity_tier_repo_id: Seq<char>,
    pub archive_tier_repo_id: Seq<char>,
    pub storage_type: Seq<char>,
    pub immutable_perf: bool,
    pub immutable_cap: bool,
}

impl DeepView for PerfTierRepo {
    type V = PerfTierRepoView;

    open spec fn deep_view(&self) -> PerfTierRepoView {
        PerfTierRepoView {
            repo_id: self.repo_id@,
            repo_name: self.repo_name@,
            site_id: self.site_id@,
            copy_capacity_tier_enabled: self.copy_capacity_tier_enabled,
            move_capacity_tier_enabled: self.move_capacity_tier_enabled,
            archive_tier_enabled: self.archive_tier_enabled,
            capacity_tier_days: self.capacity_tier_days,
            archive_tier_days: self.archive_tier_days,
            capacity_tier_repo_id: self.capacity_tier_repo_id@,
            archive_tier_repo_id: self.archive_tier_repo_id@,
            storage_type: self.storage_type@,
            immutable_perf: self.immutable_perf,
            immutable_cap: self.immutable_cap,
        }
    }
}

impl View for PerfTierRepo {
    type V = PerfTierRepoView;

    open spec fn view(&self) -> PerfTierRepoView {
        self.deep_view()
    }
}

impl Clone for PerfTierRepo {
    fn clone(&self) -> (copy: Self)
        ensures
            copy.deep_view() == self.deep_view(),
    {
        PerfTierRepo {
            repo_id: self.repo_id.clone(),
            repo_name: self.repo_name.clone(),
            site_id: self.site_id.clone(),
            copy_capacity_tier_enabled: self.copy_capacity_tier_enabled,
            move_capacity_tier_enabled: self.move_capacity_tier_enabled,
            archive_tier_enabled: self.archive_tier_enabled,
            capacity_tier_days: self.capacity_tier_days,
            archive_tier_days: self.archive_tier_days,
            capacity_tier_repo_id: self.capacity_tier_repo_id.clone(),
            archive_tier_repo_id: self.archive_tier_repo_id.clone(),
            storage_type: self.storage_type.clone(),
            immutable_perf: self.immutable_perf,
            immutable_cap: self.immutable_cap,
        }
    }
}

impl PerfTierRepo {
    /// Builds the record from its fields, in the order of their declaration.
    pub fn new(
        repo_id: String,
        repo_name: String,
        site_id: String,
        copy_capacity_tier_enabled: bool,
        move_capacity_tier_enabled: bool,
        archive_tier_enabled: bool,
        capacity_tier_days: i64,
        archive_tier_days: i64,
        capacity_tier_repo_id: String,
        archive_tier_repo_id: String,
        storage_type: String,
        immutable_perf: bool,
        immutable_cap: bool,
    ) -> (made: Self)
        ensures
            made == (PerfTierRepo {
                repo_id,
                repo_name,
                site_id,
                copy_capacity_tier_enabled,
                move_capacity_tier_enabled,
                archive_tier_enabled,
                capacity_tier_days,
                archive_tier_days,
                capacity_tier_repo_id,
                archive_tier_repo_id,
                storage_type,
                immutable_perf,
                immutable_cap,
            }),
    {
        PerfTierRepo {
            repo_id,
            repo_name,
            site_id,
            copy_capacity_tier_enabled,
            move_capacity_tier_enabled,
            archive_tier_enabled,
            capacity_tier_days,
            archive_tier_days,
            capacity_tier_repo_id,
            archive_tier_repo_id,
            storage_type,
            immutable_perf,
            immutable_cap,
        }
    }
}

/// A capacity or archive tier that repositories may refer to.
#[derive(Debug, Default, PartialEq, Eq)]
pub struct CapArchTier {
    pub id: String,
    pub tier_type: String,
    pub name: String,
    pub default: bool,
}

/// The mathematical value of a [`CapArchTier`].
pub struct CapArchTierView {
    pub id: Seq<char>,
    pub tier_type: Seq<char>,
    pub name: Seq<char>,
    pub default: bool,
}

impl DeepView for CapArchTier {
    type V = CapArchTierView;

    open spec fn deep_view(&self) -> CapArchTierView {
        CapArchTierView {
            id: self.id@,
            tier_type: self.tier_type@,
            name: self.name@,
            default: self.default,
        }
    }
}

impl View for CapArchTier {
    type V = CapArchTierView;

    open spec fn view(&self) -> CapArchTierView {
        self.deep_view()
    }
}

impl Clone for CapArchTier {
    fn clone(&self) -> (copy: Self)
        ensures
            copy.deep_view() == self.deep_view(),
    {
        CapArchTier {
            id: self.id.clone(),
            tier_type: self.tier_type.clone(),
            name: self.name.clone(),
            default: self.default,
        }
    }
}

impl CapArchTier {
    /// Builds the record from its fields, in the order of their declaration.
    pub fn new(id: String, tier_type: String, name: String, default: bool) -> (made: Self)
        ensures
            made == (CapArchTier { id, tier_type, name, default }),
    {
        CapArchTier { id, tier_type, name, default }
    }
}

/// A data-change-rate profile.
#[derive(Debug, Default, PartialEq, Eq)]
pub struct DataProperty {
    pub data_property_id: String,
    pub data_property_name: String,
    pub change_rate: i64,
    pub compression: i64,
    pub growth_factor: i64,
    pub default: bool,
}

/// The mathematical value of a [`DataProperty`].
pub struct DataPropertyView {
    pub data_property_id: Seq<char>,
    pub data_property_name: Seq<char>,
    pub change_rate: i64,
    pub compression: i64,
    pub growth_factor: i64,
    pub default: bool,
}

impl DeepView for DataProperty {
    type V = DataPropertyView;

    open spec fn deep_view(&self) -> DataPropertyView {
        DataPropertyView {
            data_property_id: self.data_property_id@,
            data_property_name: self.data_property_name@,
            change_rate: self.change_rate,
            compression: self.compression,
            growth_factor: self.growth_factor,
            default: self.default,
        }
    }
}

impl View for DataProperty {
    type V = DataPropertyView;

    open spec fn view(&self) -> DataPropertyView {
        self.deep_view()
    }
}

impl Clone for DataProperty {
    fn clone(&self) -> (copy: Self)
        ensures
            copy.deep_view() == self.deep_view(),
    {
        DataProperty {
            data_property_id: self.data_property_id.clone(),
            data_property_name: self.data_property_name.clone(),
            change_rate: self.change_rate,
            compression: self.compression,
            growth_factor: self.growth_factor,
            default: self.default,
        }
    }
}

impl DataProperty {
    /// Builds the record from its fields, in the order of their declaration.
    pub fn new(
        data_property_id: String,
        data_property_name: String,
        change_rate: i64,
        compression: i64,
        growth_factor: i64,
        default: bool,
    ) -> (made: Self)
        ensures
            made == (DataProperty {
                data_property_id,
                data_property_name,
                change_rate,
                compression,
                growth_factor,
                default,
            }),
    {
        DataProperty {
            data_property_id,
            data_property_name,
            change_rate,
            compression,
            growth_factor,
            default,
        }
    }
}

/// A backup window.
#[derive(Debug, Default, PartialEq, Eq)]
pub struct Window {
    pub backup_window_id: String,
    pub backup_window_name: String,
    pub full_window: i64,
    pub incremental_window: i64,
    pub default: bool,
}

/// The mathematical value of a [`Window`].
pub struct WindowView {
    pub backup_window_id: Seq<char>,
    pub backup_window_name: Seq<char>,
    pub full_window: i64,
    pub incremental_window: i64,
    pub default: bool,
}

impl DeepView for Window {
    type V = WindowView;

    open spec fn deep_view(&self) -> WindowView {
        WindowView {
            backup_window_id: self.backup_window_id@,
            backup_window_name: self.backup_window_name@,
            full_window: self.full_window,
            incremental_window: self.incremental_window,
            default: self.default,
        }
    }
}

impl View for Window {
    type V = WindowView;

    open spec fn view(&self) -> WindowView {
        self.deep_view()
    }
}

impl Clone for Window {
    fn clone(&self) -> (copy: Self)
        ensures
            copy.deep_view() == self.deep_view(),
    {
        Window {
            backup_window_id: self.backup_window_id.clone(),
            backup_window_name: self.backup_window_name.clone(),
            full_window: self.full_window,
            incremental_window: self.incremental_window,
            default: self.default,
        }
    }
}

impl Window {
    /// Builds the record from its fields, in the order of their declaration.
    pub fn new(
        backup_window_id: String,
        backup_window_name: String,
        full_window: i64,
        incremental_window: i64,
        default: bool,
    ) -> (made: Self)
        ensures
            made == (Window {
                backup_window_id,
                backup_window_name,
                full_window,
                incremental_window,
                default,
            }),
    {
        Window { backup_window_id, backup_window_name, full_window, incremental_window, default }
    }
}

/// A retention policy.
#[derive(Debug, Default, PartialEq, Eq)]
pub struct Retentions {
    pub retention_id: String,
    pub retention_name: String,
    pub simple: i64,
    pub weekly: i64,
    pub monthly: i64,
    pub yearly: i64,
    pub default: bool,
}

/// The mathematical value of a [`Retentions`].
pub struct RetentionsView {
    pub retention_id: Seq<char>,
    pub retention_name: Seq<char>,
    pub simple: i64,
    pub weekly: i64,
    pub monthly: i64,
    pub yearly: i64,
    pub default: bool,
}

impl DeepView for Retentions {
    type V = RetentionsView;

    open spec fn deep_view(&self) -> RetentionsView {
        RetentionsView {
            retention_id: self.retention_id@,
            retention_name: self.retention_name@,
            simple: self.simple,
            weekly: self.weekly,
            monthly: self.monthly,
            yearly: self.yearly,
            default: self.default,
        }
    }
}

impl View for Retentions {
    type V = RetentionsView;

    open spec fn view(&self) -> RetentionsView {
        self.deep_view()
    }
}

impl Clone for Retentions {
    fn clone(&self) -> (copy: Self)
        ensures
            copy.deep_view() == self.deep_view(),
    {
        Retentions {
            retention_id: self.retention_id.clone(),
            retention_name: self.retention_name.clone(),
            simple: self.simple,
            weekly: self.weekly,
            monthly: self.monthly,
            yearly: self.yearly,
            default: self.default,
        }
    }
}

impl Retentions {
    /// Builds the record from its fields, in the order of their declaration.
    pub fn new(
        retention_id: String,
        retention_name: String,
        simple: i64,
        weekly: i64,
        monthly: i64,
        yearly: i64,
        default: bool,
    ) -> (made: Self)
        ensures
            made == (Retentions {
                retention_id,
                retention_name,
                simple,
                weekly,
                monthly,
                yearly,
                default,
            }),
    {
        Retentions { retention_id, retention_name, simple, weekly, monthly, yearly, default }
    }
}

/// The policies that a workload's backups follow.
#[derive(Debug, Default, PartialEq, Eq)]
pub struct Backup {
    pub retention_id: String,
    pub repo_id: String,
    pub backup_window_id: String,
}

/// The mathematical value of a [`Backup`].
pub struct BackupView {
    pub retention_id: Seq<char>,
    pub repo_id: Seq<char>,
    pub backup_window_id: Seq<char>,
}

impl DeepView for Backup {
    type V = BackupView;

    open spec fn deep_view(&self) -> BackupView {
        BackupView {
            retention_id: self.retention_id@,
            repo_id: self.repo_id@,
            backup_window_id: self.backup_window_id@,
        }
    }
}

impl View for Backup {
    type V = BackupView;

    open spec fn view(&self) -> BackupView {
        self.deep_view()
    }
}

impl Clone for Backup {
    fn clone(&self) -> (copy: Self)
        ensures
            copy.deep_view() == self.deep_view(),
    {
        Backup {
            retention_id: self.retention_id.clone(),
            repo_id: self.repo_id.clone(),
            backup_window_id: self.backup_window_id.clone(),
        }
    }
}

impl Backup {
    /// Builds the record from its fields, in the order of their declaration.
    pub fn new(retention_id: String, repo_id: String, backup_window_id: String) -> (made: Self)
        ensures
            made == (Backup { retention_id, repo_id, backup_window_id }),
    {
        Backup { retention_id, repo_id, backup_window_id }
    }
}

/// The policies that a workload's backup copies follow.
#[derive(Debug, Default, PartialEq, Eq)]
pub struct Copy {
    pub retention_id: String,
    pub repo_id: String,
    pub backup_window_id: String,
}

/// The mathematical value of a [`Copy`].
pub struct CopyView {
    pub retention_id: Seq<char>,
    pub repo_id: Seq<char>,
    pub backup_window_id: Seq<char>,
}

impl DeepView for Copy {
    type V = CopyView;

    open spec fn deep_view(&self) -> CopyView {
        CopyView {
            retention_id: self.retention_id@,
            repo_id: self.repo_id@,
            backup_window_id: self.backup_window_id@,
        }
    }
}

impl View for Copy {
    type V = CopyView;

    open spec fn view(&self) -> CopyView {
        self.deep_view()
    }
}

impl Clone for Copy {
    fn clone(&self) -> (copy: Self)
        ensures
            copy.deep_view() == self.deep_view(),
    {
        Copy {
            retention_id: self.retention_id.clone(),
            repo_id: self.repo_id.clone(),
            backup_window_id: self.backup_window_id.clone(),
        }
    }
}

impl Copy {
    /// Builds the record from its fields, in the order of their declaration.
    pub fn new(retention_id: String, repo_id: String, backup_window_id: String) -> (made: Self)
        ensures
            made == (Copy { retention_id, repo_id, backup_window_id }),
    {
        Copy { retention_id, repo_id, backup_window_id }
    }
}

/// One workload to size: the machines of one rollup group.
#[derive(Debug, Default, PartialEq, Eq)]
pub struct Workload {
    pub workload_id: String,
    pub enabled: bool,
    pub workload_name: String,
    pub site_id: String,
    pub large_block: bool,
    /// Source data to protect, in MiB.
    pub source_mib: u128,
    /// Number of machines.
    pub units: i64,
    pub workload_type: String,
    pub data_property_id: String,
    pub backup: Backup,
    pub copies_enabled: bool,
    pub copies: Backup,
}

/// The mathematical value of a [`Workload`].
pub struct WorkloadView {
    pub workload_id: Seq<char>,
    pub enabled: bool,
    pub workload_name: Seq<char>,
    pub site_id: Seq<char>,
    pub large_block: bool,
    pub source_mib: u128,
    pub units: i64,
    pub workload_type: Seq<char>,
    pub data_property_id: Seq<char>,
    pub backup: BackupView,
    pub copies_enabled: bool,
    pub copies: BackupView,
}

impl DeepView for Workload {
    type V = WorkloadView;

    open spec fn deep_view(&self) -> WorkloadView {
        WorkloadView {
            workload_id: self.workload_id@,
            enabled: self.enabled,
            workload_name: self.workload_name@,
            site_id: self.site_id@,
            large_block: self.large_block,
            source_mib: self.source_mib,
            units: self.units,
            workload_type: self.workload_type@,
            data_property_id: self.data_property_id@,
            backup: self.backup.deep_view(),
            copies_enabled: self.copies_enabled,
            copies: self.copies.deep_view(),
        }
    }
}

impl View for Workload {
    type V = WorkloadView;

    open spec fn view(&self) -> WorkloadView {
        self.deep_view()
    }
}

impl Clone for Workload {
    fn clone(&self) -> (copy: Self)
        ensures
            copy.deep_view() == self.deep_view(),
    {
        Workload {
            workload_id: self.workload_id.clone(),
            enabled: self.enabled,
            workload_name: self.workload_name.clone(),
            site_id: self.site_id.clone(),
            large_block: self.large_block,
            source_mib: self.source_mib,
            units: self.units,
            workload_type: self.workload_type.clone(),
            data_property_id: self.data_property_id.clone(),
            backup: self.backup.clone(),
            copies_enabled: self.copies_enabled,
            copies: self.copies.clone(),
        }
    }
}

impl Workload {
    /// Builds the record from its fields, in the order of their declaration.
    pub fn new(
        workload_id: String,
        enabled: bool,
        workload_name: String,
        site_id: String,
        large_block: bool,
        source_mib: u128,
        units: i64,
        workload_type: String,
        data_property_id: String,
        backup: Backup,
        copies_enabled: bool,
        copies: Backup,
    ) -> (made: Self)
        ensures
            made == (Workload {
                workload_id,
                enabled,
                workload_name,
                site_id,
                large_block,
                source_mib,
                units,
                workload_type,
                data_property_id,
                backup,
                copies_enabled,
                copies,
            }),
    {
        Workload {
            workload_id,
            enabled,
            workload_name,
            site_id,
            large_block,
            source_mib,
            units,
            workload_type,
            data_property_id,
            backup,
            copies_enabled,
            copies,
        }
    }
}

/// The sizing document.
#[derive(Debug, Default, PartialEq, Eq)]
pub struct NewVse {
    pub project_length: i64,
    pub sites: Vec<Site>,
    pub repositories: Vec<PerfTierRepo>,
    pub cap_arch_tiers: Vec<CapArchTier>,
    pub data_properties: Vec<DataProperty>,
    pub windows: Vec<Window>,
    pub retentions: Vec<Retentions>,
    pub workloads: Vec<Workload>,
}

/// The mathematical value of a [`NewVse`].
pub struct NewVseView {
    pub project_length: i64,
    pub sites: Seq<SiteView>,
    pub repositories: Seq<PerfTierRepoView>,
    pub cap_arch_tiers: Seq<CapArchTierView>,
    pub data_properties: Seq<DataPropertyView>,
    pub windows: Seq<WindowView>,
    pub retentions: Seq<RetentionsView>,
    pub workloads: Seq<WorkloadView>,
}

impl DeepView for NewVse {
    type V = NewVseView;

    open spec fn deep_view(&self) -> NewVseView {
        NewVseView {
            project_length: self.project_length,
            sites: self.sites.deep_view(),
            repositories: self.repositories.deep_view(),
            cap_arch_tiers: self.cap_arch_tiers.deep_view(),
            data_properties: self.data_properties.deep_view(),
            windows: self.windows.deep_view(),
            retentions: self.retentions.deep_view(),
            workloads: self.workloads.deep_view(),
        }
    }
}

impl View for NewVse {
    type V = NewVseView;

    open spec fn view(&self) -> NewVseView {
        self.deep_view()
    }
}

impl Clone for NewVse {
    fn clone(&self) -> (copy: Self)
        ensures
            copy.deep_view() == self.deep_view(),
    {
        NewVse {
            project_length: self.project_length,
            sites: clone_records(&self.sites),
            repositories: clone_records(&self.repositories),
            cap_arch_tiers: clone_records(&self.cap_arch_tiers),
            data_properties: clone_records(&self.data_properties),
            windows: clone_records(&self.windows),
            retentions: clone_records(&self.retentions),
            workloads: clone_records(&self.workloads),
        }
    }
}

impl NewVse {
    /// Builds the record from its fields, in the order of their declaration.
    pub fn new(
        project_length: i64,
        sites: Vec<Site>,
        repositories: Vec<PerfTierRepo>,
        cap_arch_tiers: Vec<CapArchTier>,
        data_properties: Vec<DataProperty>,
        windows: Vec<Window>,
        retentions: Vec<Retentions>,
        workloads: Vec<Workload>,
    ) -> (made: Self)
        ensures
            made == (NewVse {
                project_length,
                sites,
                repositories,
                cap_arch_tiers,
                data_properties,
                windows,
                retentions,
                workloads,
            }),
    {
        NewVse {
            project_length,
            sites,
            repositories,
            cap_arch_tiers,
            data_properties,
            windows,
            retentions,
            workloads,
        }
    }
}

/// One rule of a site mapping: the groups whose site name contains one of
/// `dc_names` are merged into one group named `group_name`.
#[derive(Debug, Default, PartialEq, Eq)]
pub struct Mapper {
    pub group_name: String,
    pub dc_names: Vec<String>,
}

/// The mathematical value of a [`Mapper`].
pub struct MapperView {
    pub group_name: Seq<char>,
    pub dc_names: Seq<Seq<char>>,
}

impl DeepView for Mapper {
    type V = MapperView;

    open spec fn deep_view(&self) -> MapperView {
        MapperView { group_name: self.group_name@, dc_names: self.dc_names.deep_view() }
    }
}

impl View for Mapper {
    type V = MapperView;

    open spec fn view(&self) -> MapperView {
        self.deep_view()
    }
}

impl Clone for Mapper {
    fn clone(&self) -> (copy: Self)
        ensures
            copy.deep_view() == self.deep_view(),
    {
        Mapper { group_name: self.group_name.clone(), dc_names: clone_texts(&self.dc_names) }
    }
}

impl Mapper {
    /// Builds the record from its fields, in the order of their declaration.
    pub fn new(group_name: String, dc_names: Vec<String>) -> (made: Self)
        ensures
            made == (Mapper { group_name, dc_names }),
    {
        Mapper { group_name, dc_names }
    }
}

} // verus!
