//! One run, from the sheets of the workbooks to the sizing document.

use crate::excel::{excel_readings, get_excel, Workbook};
use crate::models::cli::{Cli, CliView};
use crate::models::errors::{MyError, MyErrorView};
use crate::models::new_model::{Mapper, MapperView, NewVse, NewVseView};
use crate::models::rvtools::{
    Datacenter, DatacenterView, Vinfo, VinfoView, Vpartition, VpartitionView,
};
use crate::reconcile::{is_reconciliation, reconcile};
use crate::rollup::{has_site_group, is_rollup, rollup, site_names};
use crate::sitemap::{is_mapped_rollup, rollup_by_mapping};
use crate::text::{contains_text, occurs_in, texts_ascend_strictly, with_suffix};
use crate::vecs::{clone_optional_text, clone_texts};
use crate::vse::{sizing_document, vse_construct};
use vstd::prelude::*;
use vstd::string::*;

verus! {

/// What a run works out.
#[derive(Debug, PartialEq, Eq)]
pub struct Report {
    /// The machines after reconciliation.
    pub combined: Vec<Vinfo>,
    /// The rollup groups.
    pub datacenters: Vec<Datacenter>,
    /// The names of the groups' sites, each once, in ascending order.
    pub datacenter_strings: Vec<String>,
    /// The sizing document.
    pub vse: NewVse,
}

/// The mathematical value of a [`Report`].
pub struct ReportView {
    pub combined: Seq<VinfoView>,
    pub datacenters: Seq<DatacenterView>,
    pub datacenter_strings: Seq<Seq<char>>,
    pub vse: NewVseView,
}

impl DeepView for Report {
    type V = ReportView;

    open spec fn deep_view(&self) -> ReportView {
        ReportView {
            combined: self.combined.deep_view(),
            datacenters: self.datacenters.deep_view(),
            datacenter_strings: self.datacenter_strings.deep_view(),
            vse: self.vse.deep_view(),
        }
    }
}

impl View for Report {
    type V = ReportView;

    open spec fn view(&self) -> ReportView {
        self.deep_view()
    }
}

/// `groups` is what the run makes of the machines: their rollup by the
/// site mapping where the run has one, else under the grouping that its
/// flags select.
pub open spec fn is_grouping(
    groups: Seq<DatacenterView>,
    vms: Seq<VinfoView>,
    cli: CliView,
    site_map: Option<Seq<MapperView>>,
) -> bool {
    match site_map {
        Some(mapping) => is_mapped_rollup(groups, vms, mapping),
        None => is_rollup(groups, vms, cli.grouping()),
    }
}

/// `report` is what the run works out from the machines and partitions
/// read: the machines reconciled, rolled up, and projected into the
/// document together with the names of the groups' sites.
pub open spec fn is_report_of(
    report: ReportView,
    inventory: Seq<VinfoView>,
    parts: Seq<VpartitionView>,
    cli: CliView,
    site_map: Option<Seq<MapperView>>,
) -> bool {
    &&& is_reconciliation(report.combined, inventory, parts, !cli.do_not_use_vpartition)
    &&& is_grouping(report.datacenters, report.combined, cli, site_map)
    &&& texts_ascend_strictly(report.datacenter_strings)
    &&& forall|site: Seq<char>|
        report.datacenter_strings.contains(site) <==> has_site_group(report.datacenters, site)
    &&& report.vse == sizing_document(report.datacenter_strings, report.datacenters, cli.retention)
}

/// Works the report out from the machines and partitions read.
pub fn size(
    cli: &Cli,
    info_vec: &Vec<Vinfo>,
    part_vec: &Vec<Vpartition>,
    site_map: &Option<Vec<Mapper>>,
) -> (report: Report)
    ensures
        is_report_of(
            report.deep_view(),
            info_vec.deep_view(),
            part_vec.deep_view(),
            cli.deep_view(),
            site_map.deep_view(),
        ),
{
    let combined = reconcile(info_vec, part_vec, !cli.do_not_use_vpartition);
    let datacenters = match site_map {
        Some(mapping) => rollup_by_mapping(&combined, mapping),
        None => rollup(&combined, cli.grouping()),
    };
    let datacenter_strings = site_names(&datacenters);
    let vse = vse_construct(
        clone_texts(&datacenter_strings),
        &datacenters,
        clone_optional_text(&cli.retention),
    );
    Report { combined, datacenters, datacenter_strings, vse }
}

/// Runs the pipeline on the sheets of the workbooks: reads the machines
/// and partitions, and works the report out from them. The run fails with
/// the first error of the reading, and only then.
pub fn run(cli: &Cli, workbooks: &Vec<Workbook>, site_map: &Option<Vec<Mapper>>) -> (outcome:
    Result<Report, MyError>)
    ensures
        match outcome {
            Ok(report) => {
                &&& excel_readings(workbooks.deep_view(), cli.deep_view()) matches Ok(readings)
                &&& is_report_of(
                    report.deep_view(),
                    readings.0,
                    readings.1,
                    cli.deep_view(),
                    site_map.deep_view(),
                )
            },
            Err(error) => excel_readings(workbooks.deep_view(), cli.deep_view()) == Err::<
                (Seq<VinfoView>, Seq<VpartitionView>),
                MyErrorView,
            >(error.deep_view()),
        },
{
    match get_excel(cli, workbooks) {
        Ok(readings) => Ok(size(cli, &readings.0, &readings.1, site_map)),
        Err(error) => Err(error),
    }
}

/// The site mapping that a run writes out to start from: one group that
/// merges two datacenters.
pub open spec fn template_mapping() -> Seq<MapperView> {
    seq![MapperView { group_name: "Group1"@, dc_names: seq!["DC1"@, "DC2"@] }]
}

/// The site mapping to start from.
pub fn mapper_template() -> (mapping: Vec<Mapper>)
    ensures
        mapping.deep_view() == template_mapping(),
{
    let mut dc_names: Vec<String> = Vec::new();
    dc_names.push(String::from_str("DC1"));
    dc_names.push(String::from_str("DC2"));
    let rule = Mapper::new(String::from_str("Group1"), dc_names);
    let mut mapping: Vec<Mapper> = Vec::new();
    mapping.push(rule);
    proof {
        assert(rule.deep_view().dc_names =~= seq!["DC1"@, "DC2"@]);
        assert(mapping.deep_view() =~= template_mapping());
    }
    mapping
}

/// The name of the file that the document is written to: the name given,
/// with `.json` added at its end unless `.json` occurs in it.
pub open spec fn json_file_name(name: Seq<char>) -> Seq<char> {
    if occurs_in(".json"@, name) {
        name
    } else {
        name + ".json"@
    }
}

/// The name of the file that the document is written to.
pub fn output_file_name(file_name: String) -> (name: String)
    ensures
        name@ == json_file_name(file_name@),
{
    if contains_text(file_name.as_str(), ".json") {
        file_name
    } else {
        with_suffix(&file_name, ".json")
    }
}

} // verus!
