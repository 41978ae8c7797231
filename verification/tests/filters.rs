use rvtools2vse::models::cli::Cli;
use rvtools2vse::models::rvtools::Vinfo;
use rvtools2vse::policy::{exclude_allows, filter_inventory, include_allows, is_listed, is_retained};
use rvtools2vse::rollup::Grouping;

fn vm(name: &str, datacenter: &str, cluster: &str) -> Vinfo {
    Vinfo {
        vm_name: name.to_string(),
        datacenter: datacenter.to_string(),
        cluster: cluster.to_string(),
        capacity: 1,
        powerstate: "poweredOn".to_string(),
    }
}

fn list(names: &[&str]) -> Option<Vec<String>> {
    Some(names.iter().map(|name| name.to_string()).collect())
}

fn names(vms: &[Vinfo]) -> Vec<&str> {
    vms.iter().map(|vm| vm.vm_name.as_str()).collect()
}

fn inventory() -> Vec<Vinfo> {
    vec![
        vm("a", "dc1", "c1"),
        vm("b", "dc1", "c2"),
        vm("c", "dc2", "c1"),
        vm("d", "dc2", "c3"),
        vm("e", "dc3", "c2"),
    ]
}

#[test]
fn without_filters_every_machine_stays() {
    let vms = inventory();
    assert_eq!(filter_inventory(&vms, &Cli::default()), vms);
}

#[test]
fn each_filter_works_on_its_own_dimension() {
    let vms = inventory();
    let cli = Cli { dc_include: list(&["dc1", "dc3"]), ..Cli::default() };
    assert_eq!(names(&filter_inventory(&vms, &cli)), vec!["a", "b", "e"]);
    let cli = Cli { cluster_include: list(&["c1"]), ..Cli::default() };
    assert_eq!(names(&filter_inventory(&vms, &cli)), vec!["a", "c"]);
    let cli = Cli { dc_exclude: list(&["dc2"]), ..Cli::default() };
    assert_eq!(names(&filter_inventory(&vms, &cli)), vec!["a", "b", "e"]);
    let cli = Cli { cluster_exclude: list(&["c2", "c3"]), ..Cli::default() };
    assert_eq!(names(&filter_inventory(&vms, &cli)), vec!["a", "c"]);
    let cli = Cli { vm_exclude: list(&["a", "e", "x"]), ..Cli::default() };
    assert_eq!(names(&filter_inventory(&vms, &cli)), vec!["b", "c", "d"]);
}

#[test]
fn a_machine_stays_only_if_it_passes_every_filter() {
    let vms = inventory();
    let cli = Cli {
        dc_include: list(&["dc1", "dc2"]),
        cluster_include: list(&["c1", "c2"]),
        dc_exclude: list(&["dc3"]),
        cluster_exclude: list(&["c2"]),
        vm_exclude: list(&["c"]),
        ..Cli::default()
    };
    assert_eq!(names(&filter_inventory(&vms, &cli)), vec!["a"]);
    assert!(is_retained(&vms[0], &cli));
    assert!(!is_retained(&vms[1], &cli));
    assert!(!is_retained(&vms[2], &cli));
}

#[test]
fn an_empty_include_list_keeps_nothing_and_an_empty_exclude_list_everything() {
    let vms = inventory();
    let cli = Cli { dc_include: list(&[]), ..Cli::default() };
    assert!(filter_inventory(&vms, &cli).is_empty());
    let cli = Cli { dc_exclude: list(&[]), ..Cli::default() };
    assert_eq!(filter_inventory(&vms, &cli), vms);
}

#[test]
fn names_match_whole_and_with_case() {
    let listed = vec!["dc1".to_string(), "DC2".to_string()];
    assert!(is_listed(&listed, &"dc1".to_string()));
    assert!(!is_listed(&listed, &"dc".to_string()));
    assert!(!is_listed(&listed, &"dc2".to_string()));
    assert!(include_allows(&None, &"x".to_string()));
    assert!(exclude_allows(&None, &"x".to_string()));
    assert!(include_allows(&Some(listed.clone()), &"DC2".to_string()));
    assert!(!exclude_allows(&Some(listed), &"DC2".to_string()));
}

#[test]
fn datacenter_and_cluster_filters_commute() {
    let vms = inventory();
    let by_dc = Cli { dc_include: list(&["dc1", "dc2"]), ..Cli::default() };
    let by_cluster = Cli { cluster_exclude: list(&["c1"]), ..Cli::default() };
    let both = Cli {
        dc_include: list(&["dc1", "dc2"]),
        cluster_exclude: list(&["c1"]),
        ..Cli::default()
    };
    let one_way = filter_inventory(&filter_inventory(&vms, &by_dc), &by_cluster);
    let other_way = filter_inventory(&filter_inventory(&vms, &by_cluster), &by_dc);
    assert_eq!(one_way, other_way);
    assert_eq!(one_way, filter_inventory(&vms, &both));
    assert_eq!(names(&one_way), vec!["b", "d"]);
}

#[test]
fn an_include_list_and_its_complement_as_exclude_list_agree() {
    let vms = inventory();
    let listed = Cli { dc_include: list(&["dc1"]), ..Cli::default() };
    let barred = Cli { dc_exclude: list(&["dc2", "dc3"]), ..Cli::default() };
    let both = Cli {
        dc_include: list(&["dc1"]),
        dc_exclude: list(&["dc2", "dc3"]),
        ..Cli::default()
    };
    let kept = filter_inventory(&vms, &listed);
    assert_eq!(names(&kept), vec!["a", "b"]);
    assert_eq!(filter_inventory(&vms, &barred), kept);
    assert_eq!(filter_inventory(&vms, &both), kept);
}

#[test]
fn the_flags_select_the_grouping() {
    assert_eq!(Cli::default().grouping(), Grouping::Cluster);
    assert_eq!(Cli { flatten_site: true, ..Cli::default() }.grouping(), Grouping::Site);
    assert_eq!(Cli { flatten: true, ..Cli::default() }.grouping(), Grouping::Global);
    let both = Cli { flatten: true, flatten_site: true, ..Cli::default() };
    assert_eq!(both.grouping(), Grouping::Cluster);
}

#[test]
fn a_copy_of_the_options_equals_them() {
    let cli = Cli {
        rvtools_files: vec!["a.xlsx".to_string()],
        retention: Some("30D".to_string()),
        vm_exclude: list(&["x", "y"]),
        plot: true,
        ..Cli::default()
    };
    assert_eq!(cli.clone(), cli);
}
