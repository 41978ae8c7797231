//! The options of one run.

use crate::policy::Policy;
use crate::rollup::Grouping;
use crate::vecs::{clone_optional_text, clone_optional_texts, clone_texts};
use vstd::prelude::*;

verus! {

/// The options of one run, as the command line gives them.
#[derive(Debug, Default, PartialEq, Eq)]
pub struct Cli {
    /// The inventory workbooks to read, by path.
    pub rvtools_files: Vec<String>,
    /// Keep machines that are powered off.
    pub include_powered_off: bool,
    /// A name for the retention policy, handed through as it is.
    pub retention: Option<String>,
    /// Where to write the sizing document.
    pub output_file: Option<String>,
    /// Print the sizing document.
    pub print: bool,
    /// Print the reconciled machines as JSON.
    pub print_json: bool,
    /// Print a summary by rollup group.
    pub show_info: bool,
    /// Keep only machines of these datacenters.
    pub dc_include: Option<Vec<String>>,
    /// Keep only machines of these clusters.
    pub cluster_include: Option<Vec<String>>,
    /// Drop machines of these datacenters.
    pub dc_exclude: Option<Vec<String>>,
    /// Drop machines of these clusters.
    pub cluster_exclude: Option<Vec<String>>,
    /// Drop machines of these names.
    pub vm_exclude: Option<Vec<String>>,
    /// Read the capacity columns under their older names.
    pub legacy: bool,
    /// The file that holds a site mapping.
    pub dc_site_map: Option<String>,
    /// Write a site mapping to start from, and do nothing else.
    pub dc_site_map_template: bool,
    /// Leave partition usage out of the capacities.
    pub do_not_use_vpartition: bool,
    /// Print the names of the sites.
    pub dc_print: bool,
    /// Print a table of the machines.
    pub vm_table_print: bool,
    /// Roll everything up into one site, repository and workload.
    pub flatten: bool,
    /// Roll each site up into one cluster.
    pub flatten_site: bool,
    /// Plot the capacities as a bar chart.
    pub plot: bool,
    /// Anonymize the data.
    pub anonymize: bool,
}

/// The mathematical value of a [`Cli`].
pub struct CliView {
    pub rvtools_files: Seq<Seq<char>>,
    pub include_powered_off: bool,
    pub retention: Option<Seq<char>>,
    pub output_file: Option<Seq<char>>,
    pub print: bool,
    pub print_json: bool,
    pub show_info: bool,
    pub dc_include: Option<Seq<Seq<char>>>,
    pub cluster_include: Option<Seq<Seq<char>>>,
    pub dc_exclude: Option<Seq<Seq<char>>>,
    pub cluster_exclude: Option<Seq<Seq<char>>>,
    pub vm_exclude: Option<Seq<Seq<char>>>,
    pub legacy: bool,
    pub dc_site_map: Option<Seq<char>>,
    pub dc_site_map_template: bool,
    pub do_not_use_vpartition: bool,
    pub dc_print: bool,
    pub vm_table_print: bool,
    pub flatten: bool,
    pub flatten_site: bool,
    pub plot: bool,
    pub anonymize: bool,
}

impl DeepView for Cli {
    type V = CliView;

    open spec fn deep_view(&self) -> CliView {
        CliView {
            rvtools_files: self.rvtools_files.deep_view(),
            include_powered_off: self.include_powered_off,
            retention: self.retention.deep_view(),
            output_file: self.output_file.deep_view(),
            print: self.print,
            print_json: self.print_json,
            show_info: self.show_info,
            dc_include: self.dc_include.deep_view(),
            cluster_include: self.cluster_include.deep_view(),
            dc_exclude: self.dc_exclude.deep_view(),
            cluster_exclude: self.cluster_exclude.deep_view(),
            vm_exclude: self.vm_exclude.deep_view(),
            legacy: self.legacy,
            dc_site_map: self.dc_site_map.deep_view(),
            dc_site_map_template: self.dc_site_map_template,
            do_not_use_vpartition: self.do_not_use_vpartition,
            dc_print: self.dc_print,
            vm_table_print: self.vm_table_print,
            flatten: self.flatten,
            flatten_site: self.flatten_site,
            plot: self.plot,
            anonymize: self.anonymize,
        }
    }
}

impl View for Cli {
    type V = CliView;

    open spec fn view(&self) -> CliView {
        self.deep_view()
    }
}

impl Clone for Cli {
    fn clone(&self) -> (copy: Self)
        ensures
            copy.deep_view() == self.deep_view(),
    {
        Cli {
            rvtools_files: clone_texts(&self.rvtools_files),
            include_powered_off: self.include_powered_off,
            retention: clone_optional_text(&self.retention),
            output_file: clone_optional_text(&self.output_file),
            print: self.print,
            print_json: self.print_json,
            show_info: self.show_info,
            dc_include: clone_optional_texts(&self.dc_include),
            cluster_include: clone_optional_texts(&self.cluster_include),
            dc_exclude: clone_optional_texts(&self.dc_exclude),
            cluster_exclude: clone_optional_texts(&self.cluster_exclude),
            vm_exclude: clone_optional_texts(&self.vm_exclude),
            legacy: self.legacy,
            dc_site_map: clone_optional_text(&self.dc_site_map),
            dc_site_map_template: self.dc_site_map_template,
            do_not_use_vpartition: self.do_not_use_vpartition,
            dc_print: self.dc_print,
            vm_table_print: self.vm_table_print,
            flatten: self.flatten,
            flatten_site: self.flatten_site,
            plot: self.plot,
            anonymize: self.anonymize,
        }
    }
}

impl CliView {
    /// The filters that the options set.
    pub open spec fn policy(self) -> Policy {
        Policy {
            dc_include: self.dc_include,
            cluster_include: self.cluster_include,
            dc_exclude: self.dc_exclude,
            cluster_exclude: self.cluster_exclude,
            vm_exclude: self.vm_exclude,
        }
    }

    /// The grouping that the flags select: by site or all in one where
    /// exactly that flag is set, else by cluster.
    pub open spec fn grouping(self) -> Grouping {
        if self.flatten_site && !self.flatten {
            Grouping::Site
        } else if self.flatten && !self.flatten_site {
            Grouping::Global
        } else {
            Grouping::Cluster
        }
    }
}

impl Cli {
    /// The grouping that the flags select. A site mapping, where the run
    /// has one, takes the place of the grouping.
    pub fn grouping(&self) -> (grouping: Grouping)
        ensures
            grouping == self.deep_view().grouping(),
    {
        if self.flatten_site && !self.flatten {
            Grouping::Site
        } else if self.flatten && !self.flatten_site {
            Grouping::Global
        } else {
            Grouping::Cluster
        }
    }
}

} // verus!
