use rvtools2vse::models::new_model::{
    Backup, CapArchTier, DataProperty, Mapper, NewVse, PerfTierRepo, Retentions, Site, Window,
    Workload,
};
use rvtools2vse::models::rvtools::Datacenter;
use rvtools2vse::plot::{plot_data, plot_series, Chart};
use rvtools2vse::text::join_texts;
use rvtools2vse::report::{mapper_template, output_file_name};
use rvtools2vse::vse_construct;

fn group(name: &str, cluster: &str, vm_count: usize, capacity: u128) -> Datacenter {
    Datacenter { name: name.to_string(), cluster: cluster.to_string(), vm_count, capacity }
}

fn s(text: &str) -> String {
    text.to_string()
}

fn repository(site: &str) -> PerfTierRepo {
    PerfTierRepo {
        repo_id: format!("{}_repo", site),
        repo_name: format!("{}_repo", site),
        site_id: s(site),
        copy_capacity_tier_enabled: false,
        move_capacity_tier_enabled: false,
        archive_tier_enabled: false,
        capacity_tier_days: 0,
        archive_tier_days: 0,
        capacity_tier_repo_id: s("general-s3compatible-capacity"),
        archive_tier_repo_id: s("general-glacier-archive"),
        storage_type: s("xfsRefs"),
        immutable_perf: false,
        immutable_cap: false,
    }
}

fn workload(site: &str, cluster: &str, units: i64, source_mib: u128) -> Workload {
    Workload {
        workload_id: format!("{}_workload", cluster),
        enabled: true,
        workload_name: format!("{}_workload", cluster),
        site_id: s(site),
        large_block: false,
        source_mib,
        units,
        workload_type: s("VM"),
        data_property_id: s("dpopt"),
        backup: Backup {
            retention_id: s("rt1"),
            repo_id: format!("{}_repo", site),
            backup_window_id: s("bw12"),
        },
        copies_enabled: false,
        copies: Backup { retention_id: s(""), repo_id: s(""), backup_window_id: s("") },
    }
}

fn shared(retention_name: &str) -> NewVse {
    NewVse {
        project_length: 3,
        sites: Vec::new(),
        repositories: Vec::new(),
        cap_arch_tiers: vec![
            CapArchTier {
                id: s("general-s3compatible-capacity"),
                tier_type: s("Capacity"),
                name: s("General S3 compatible"),
                default: true,
            },
            CapArchTier {
                id: s("general-glacier-archive"),
                tier_type: s("Archive"),
                name: s("General Amazon S3 Glacier"),
                default: true,
            },
        ],
        data_properties: vec![DataProperty {
            data_property_id: s("dpopt"),
            data_property_name: s("Generic Optimistic"),
            change_rate: 5,
            compression: 50,
            growth_factor: 10,
            default: true,
        }],
        windows: vec![Window {
            backup_window_id: s("bw12"),
            backup_window_name: s("backup_window1"),
            full_window: 24,
            incremental_window: 12,
            default: true,
        }],
        retentions: vec![Retentions {
            retention_id: s("rt1"),
            retention_name: s(retention_name),
            simple: 30,
            weekly: 0,
            monthly: 0,
            yearly: 0,
            default: true,
        }],
        workloads: Vec::new(),
    }
}

#[test]
fn the_document_of_nothing_holds_the_shared_parts_alone() {
    assert_eq!(vse_construct(Vec::new(), &Vec::new(), None), shared("30D"));
}

#[test]
fn the_document_holds_a_site_and_a_repository_per_name_and_a_workload_per_group() {
    let groups =
        vec![group("east", "a", 2, 2024), group("east", "b", 1, 7), group("west", "a", 3, 9)];
    let document = vse_construct(vec![s("east"), s("west")], &groups, None);
    let mut expected = shared("30D");
    expected.sites =
        vec![Site { id: s("east"), name: s("east") }, Site { id: s("west"), name: s("west") }];
    expected.repositories = vec![repository("east"), repository("west")];
    expected.workloads = vec![
        workload("east", "a", 2, 2024),
        workload("east", "b", 1, 7),
        workload("west", "a", 3, 9),
    ];
    assert_eq!(document, expected);
    assert_eq!(document.workloads[0].backup.repo_id, document.repositories[0].repo_id);
    assert_eq!(document.workloads[2].backup.repo_id, document.repositories[1].repo_id);
}

#[test]
fn a_retention_name_is_handed_through() {
    let document = vse_construct(Vec::new(), &Vec::new(), Some(s("30D1W1M1Y")));
    assert_eq!(document, shared("30D1W1M1Y"));
    assert_eq!(vse_construct(Vec::new(), &Vec::new(), Some(s(""))), shared(""));
}

#[test]
fn records_are_built_from_their_fields_in_order() {
    assert_eq!(Site::new(s("i"), s("n")), Site { id: s("i"), name: s("n") });
    assert_eq!(
        Backup::new(s("r"), s("p"), s("w")),
        Backup { retention_id: s("r"), repo_id: s("p"), backup_window_id: s("w") }
    );
    assert_eq!(
        rvtools2vse::models::new_model::Copy::new(s("r"), s("p"), s("w")),
        rvtools2vse::models::new_model::Copy {
            retention_id: s("r"),
            repo_id: s("p"),
            backup_window_id: s("w"),
        }
    );
    assert_eq!(
        Mapper::new(s("g"), vec![s("a"), s("b")]),
        Mapper { group_name: s("g"), dc_names: vec![s("a"), s("b")] }
    );
    assert_eq!(
        Retentions::new(s("rt1"), s("30D"), 30, 1, 2, 3, true),
        Retentions {
            retention_id: s("rt1"),
            retention_name: s("30D"),
            simple: 30,
            weekly: 1,
            monthly: 2,
            yearly: 3,
            default: true,
        }
    );
    assert_eq!(
        Window::new(s("bw"), s("name"), 24, 12, false),
        Window {
            backup_window_id: s("bw"),
            backup_window_name: s("name"),
            full_window: 24,
            incremental_window: 12,
            default: false,
        }
    );
}

#[test]
fn copies_of_records_equal_them() {
    let groups = vec![group("east", "a", 2, 2024)];
    let document = vse_construct(vec![s("east")], &groups, Some(s("x")));
    assert_eq!(document.clone(), document);
    let rule = Mapper::new(s("g"), vec![s("a"), s("b")]);
    assert_eq!(rule.clone(), rule);
    assert_eq!(groups[0].clone(), groups[0]);
}

#[test]
fn the_mapping_to_start_from_merges_two_datacenters() {
    assert_eq!(
        mapper_template(),
        vec![Mapper { group_name: s("Group1"), dc_names: vec![s("DC1"), s("DC2")] }]
    );
}

#[test]
fn the_output_file_gets_its_ending_unless_it_has_one() {
    assert_eq!(output_file_name(s("sizing")), "sizing.json");
    assert_eq!(output_file_name(s("sizing.json")), "sizing.json");
    assert_eq!(output_file_name(s("a.json.bak")), "a.json.bak");
    assert_eq!(output_file_name(s("a.JSON")), "a.JSON.json");
    assert_eq!(output_file_name(s("")), ".json");
}

#[test]
fn groups_of_more_than_one_tib_are_plotted() {
    let tib: u128 = 1024 * 1024;
    let groups = vec![
        group("small", "a", 1, tib - 1),
        group("big", "a", 1, 5 * tib),
        group("edge", "a", 1, tib),
        group("over", "a", 1, tib + 1),
    ];
    let (data, names) = plot_series(&groups);
    assert_eq!(data, vec![5 * tib, tib + 1]);
    assert_eq!(names, vec!["big", "over"]);
    let (data, names) = plot_series(&Vec::new());
    assert!(data.is_empty() && names.is_empty());
}

#[test]
fn the_chart_spans_the_bars() {
    assert_eq!(plot_data(Vec::new(), vec![s("a")]), None);
    assert_eq!(
        plot_data(vec![3, 9, 4], vec![s("a"), s("b"), s("c")]),
        Some(Chart { item_count: 3, max_value: 9, x_label: s("a, b, c"), bars: vec![3, 9, 4] })
    );
    assert_eq!(
        plot_data(vec![7], vec![s("only")]),
        Some(Chart { item_count: 1, max_value: 7, x_label: s("only"), bars: vec![7] })
    );
}

#[test]
fn texts_join_with_the_separator_between_them() {
    assert_eq!(join_texts(&Vec::new(), ", "), "");
    assert_eq!(join_texts(&vec![s("a")], ", "), "a");
    assert_eq!(join_texts(&vec![s("a"), s(""), s("b")], "-"), "a--b");
}
