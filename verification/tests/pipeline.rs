use rvtools2vse::models::cli::Cli;
use rvtools2vse::models::new_model::Mapper;
use rvtools2vse::models::rvtools::{Datacenter, Vinfo, Vpartition, MIB_PER_TIB};
use rvtools2vse::policy::filter_inventory;
use rvtools2vse::reconcile::{find_sum, reconcile, sum_partitions};
use rvtools2vse::report::size;
use rvtools2vse::rollup::{
    flatten_groups, rollup, rollup_by_cluster, rollup_by_site, site_names, Grouping,
};
use rvtools2vse::sitemap::{any_name_matches, map_site, map_sites, rollup_by_mapping, site_matches};

fn vm(name: &str, datacenter: &str, cluster: &str, capacity: u64) -> Vinfo {
    Vinfo {
        vm_name: name.to_string(),
        datacenter: datacenter.to_string(),
        cluster: cluster.to_string(),
        capacity,
        powerstate: "poweredOn".to_string(),
    }
}

fn part(name: &str, capacity: u64) -> Vpartition {
    Vpartition { vm_name: name.to_string(), capacity, powerstate: "poweredOn".to_string() }
}

fn group(name: &str, cluster: &str, vm_count: usize, capacity: u128) -> Datacenter {
    Datacenter { name: name.to_string(), cluster: cluster.to_string(), vm_count, capacity }
}

fn rule(group_name: &str, dc_names: &[&str]) -> Mapper {
    Mapper {
        group_name: group_name.to_string(),
        dc_names: dc_names.iter().map(|name| name.to_string()).collect(),
    }
}

fn tib(group: &Datacenter) -> f64 {
    group.capacity as f64 / (1024.0 * 1024.0)
}

#[test]
fn two_machines_one_with_partitions_roll_up_into_one_cluster() {
    let inventory = vec![vm("A", "dc1", "c1", 2048), vm("B", "dc1", "c1", 1024)];
    let partitions = vec![part("A", 1000)];
    let combined = reconcile(&inventory, &partitions, true);
    assert_eq!(combined, vec![vm("A", "dc1", "c1", 1000), vm("B", "dc1", "c1", 1024)]);
    let groups = rollup(&combined, Grouping::Cluster);
    assert_eq!(groups, vec![group("dc1", "c1", 2, 2024)]);
    assert_eq!(tib(&groups[0]), (1000.0 + 1024.0) / (1024.0 * 1024.0));
}

#[test]
fn excluding_the_only_datacenter_leaves_no_groups_and_no_workloads() {
    let inventory = vec![vm("A", "dc1", "c1", 2048), vm("B", "dc1", "c1", 1024)];
    let cli = Cli { dc_exclude: Some(vec!["dc1".to_string()]), ..Cli::default() };
    let survivors = filter_inventory(&inventory, &cli);
    assert!(survivors.is_empty());
    let report = size(&cli, &survivors, &vec![part("A", 1000)], &None);
    assert!(report.combined.is_empty());
    assert!(report.datacenters.is_empty());
    assert!(report.datacenter_strings.is_empty());
    assert!(report.vse.workloads.is_empty());
    assert!(report.vse.sites.is_empty());
    assert!(report.vse.repositories.is_empty());
    assert_eq!(report.vse.cap_arch_tiers.len(), 2);
}

#[test]
fn flattening_two_datacenters_of_five_and_three_tib_gives_eight() {
    let five = 5 * (MIB_PER_TIB as u64);
    let three = 3 * (MIB_PER_TIB as u64);
    let inventory = vec![vm("A", "east", "c1", five), vm("B", "west", "c2", three)];
    let groups = rollup(&inventory, Grouping::Global);
    assert_eq!(groups.len(), 1);
    assert_eq!(groups[0].name, "DC1");
    assert_eq!(groups[0].cluster, "Cluster1");
    assert_eq!(groups[0].vm_count, 2);
    assert_eq!(groups[0].capacity_tib(), 8);
    assert_eq!(groups[0].capacity_tib_remainder(), 0);
    assert_eq!(tib(&groups[0]), 8.0);
}

#[test]
fn flattening_nothing_gives_one_empty_group() {
    let groups = rollup(&Vec::new(), Grouping::Global);
    assert_eq!(groups, vec![group("DC1", "Cluster1", 0, 0)]);
}

#[test]
fn flattening_equals_the_sums_over_the_cluster_groups() {
    let inventory = vec![
        vm("a", "dc2", "c1", 10),
        vm("b", "dc1", "c2", 20),
        vm("c", "dc1", "c1", 30),
        vm("d", "dc2", "c1", 40),
    ];
    let clusters = rollup(&inventory, Grouping::Cluster);
    let flat = rollup(&inventory, Grouping::Global);
    assert_eq!(flat.len(), 1);
    assert_eq!(flat[0].vm_count, clusters.iter().map(|g| g.vm_count).sum::<usize>());
    assert_eq!(flat[0].capacity, clusters.iter().map(|g| g.capacity).sum::<u128>());
    assert_eq!(flatten_groups(&clusters), Some(group("DC1", "Cluster1", 4, 100)));
}

#[test]
fn merging_groups_reports_a_sum_that_does_not_fit() {
    let groups = vec![group("a", "c", usize::MAX, 1), group("b", "c", 1, 1)];
    assert_eq!(flatten_groups(&groups), None);
    let groups = vec![group("a", "c", 1, u128::MAX), group("b", "c", 1, 1)];
    assert_eq!(flatten_groups(&groups), None);
    let groups = vec![group("a", "c", usize::MAX - 1, u128::MAX - 1), group("b", "c", 1, 1)];
    assert_eq!(flatten_groups(&groups), Some(group("DC1", "Cluster1", usize::MAX, u128::MAX)));
}

#[test]
fn partitions_of_one_machine_add_up() {
    let partitions = vec![part("B", 5), part("A", 300), part("B", 7), part("A", 200)];
    let sums = sum_partitions(&partitions);
    assert_eq!(sums.len(), 2);
    assert_eq!(sums[0].key, ("A".to_string(), String::new()));
    assert_eq!(sums[0].count, 2);
    assert_eq!(sums[0].amount, 500);
    assert_eq!(sums[1].key, ("B".to_string(), String::new()));
    assert_eq!(sums[1].count, 2);
    assert_eq!(sums[1].amount, 12);
    assert_eq!(find_sum(&sums, &"B".to_string()), Some(1));
    assert_eq!(find_sum(&sums, &"C".to_string()), None);
}

#[test]
fn partition_sums_may_exceed_one_record() {
    let partitions = vec![part("A", u64::MAX), part("A", u64::MAX)];
    let sums = sum_partitions(&partitions);
    assert_eq!(sums[0].amount, 2 * (u64::MAX as u128));
    let combined = reconcile(&vec![vm("A", "dc", "c", u64::MAX)], &partitions, true);
    assert_eq!(combined[0].capacity, u64::MAX);
}

#[test]
fn reconciliation_takes_the_lower_figure() {
    let inventory = vec![
        vm("low-inventory", "dc", "c", 100),
        vm("low-partitions", "dc", "c", 900),
        vm("equal", "dc", "c", 50),
        vm("alone", "dc", "c", 77),
        vm("empty-partition", "dc", "c", 12),
    ];
    let partitions = vec![
        part("low-inventory", 400),
        part("low-partitions", 300),
        part("low-partitions", 200),
        part("equal", 50),
        part("empty-partition", 0),
        part("stranger", 1),
    ];
    let combined = reconcile(&inventory, &partitions, true);
    let capacities: Vec<u64> = combined.iter().map(|v| v.capacity).collect();
    assert_eq!(capacities, vec![100, 500, 50, 77, 0]);
    for (before, after) in inventory.iter().zip(combined.iter()) {
        assert_eq!(before.vm_name, after.vm_name);
        assert_eq!(before.datacenter, after.datacenter);
        assert_eq!(before.cluster, after.cluster);
        assert_eq!(before.powerstate, after.powerstate);
    }
}

#[test]
fn reconciliation_does_not_depend_on_the_order_of_the_partitions() {
    let inventory = vec![vm("A", "dc", "c", 2048), vm("B", "dc", "c", 1024)];
    let mut partitions = vec![part("B", 5), part("A", 300), part("B", 7), part("A", 200)];
    let forward = reconcile(&inventory, &partitions, true);
    partitions.reverse();
    assert_eq!(reconcile(&inventory, &partitions, true), forward);
    assert_eq!(reconcile(&forward, &partitions, true), forward);
}

#[test]
fn reconciliation_switched_off_changes_nothing() {
    let inventory = vec![vm("A", "dc", "c", 2048), vm("B", "dc", "c", 1024)];
    let combined = reconcile(&inventory, &vec![part("A", 1)], false);
    assert_eq!(combined, inventory);
}

#[test]
fn machines_of_one_name_each_meet_the_same_partition_sum() {
    let inventory = vec![vm("A", "dc1", "c", 10), vm("A", "dc2", "c", 3)];
    let combined = reconcile(&inventory, &vec![part("A", 4), part("A", 2)], true);
    assert_eq!(combined, vec![vm("A", "dc1", "c", 6), vm("A", "dc2", "c", 3)]);
}

#[test]
fn cluster_groups_count_every_machine_once_and_ascend() {
    let inventory = vec![
        vm("1", "west", "b", 1),
        vm("2", "east", "b", 2),
        vm("3", "west", "a", 4),
        vm("4", "east", "b", 8),
        vm("5", "east", "a", 16),
        vm("6", "west", "b", 32),
    ];
    let groups = rollup_by_cluster(&inventory);
    assert_eq!(
        groups,
        vec![
            group("east", "a", 1, 16),
            group("east", "b", 2, 10),
            group("west", "a", 1, 4),
            group("west", "b", 2, 33),
        ]
    );
    assert_eq!(groups.iter().map(|g| g.vm_count).sum::<usize>(), inventory.len());
}

#[test]
fn cluster_groups_do_not_depend_on_the_order_of_the_machines() {
    let mut inventory = vec![
        vm("1", "west", "b", 1),
        vm("2", "east", "b", 2),
        vm("3", "west", "a", 4),
        vm("4", "east", "b", 8),
    ];
    let forward = rollup_by_cluster(&inventory);
    inventory.reverse();
    assert_eq!(rollup_by_cluster(&inventory), forward);
}

#[test]
fn keys_order_by_site_before_cluster() {
    let inventory = vec![vm("1", "b", "a", 1), vm("2", "a", "z", 2), vm("3", "ab", "", 4)];
    let groups = rollup_by_cluster(&inventory);
    let keys: Vec<(&str, &str)> =
        groups.iter().map(|g| (g.name.as_str(), g.cluster.as_str())).collect();
    assert_eq!(keys, vec![("a", "z"), ("ab", ""), ("b", "a")]);
}

#[test]
fn site_groups_merge_the_clusters_of_a_site() {
    let inventory = vec![
        vm("1", "west", "b", 1),
        vm("2", "east", "b", 2),
        vm("3", "west", "a", 4),
    ];
    let groups = rollup_by_site(&inventory);
    assert_eq!(
        groups,
        vec![group("east", "east_cluster", 1, 2), group("west", "west_cluster", 2, 5)]
    );
    assert_eq!(rollup(&inventory, Grouping::Site), groups);
}

#[test]
fn no_machines_make_no_groups() {
    assert!(rollup_by_cluster(&Vec::new()).is_empty());
    assert!(rollup_by_site(&Vec::new()).is_empty());
}

#[test]
fn group_capacity_splits_into_tebibytes_and_remainder() {
    let g = group("dc", "c", 1, 3 * MIB_PER_TIB + 5);
    assert_eq!(g.capacity_tib(), 3);
    assert_eq!(g.capacity_tib_remainder(), 5);
    assert_eq!(MIB_PER_TIB, 1024 * 1024);
}

#[test]
fn site_names_come_sorted_and_once() {
    let groups = vec![
        group("west", "a", 1, 1),
        group("east", "a", 1, 1),
        group("west", "b", 1, 1),
        group("north", "a", 1, 1),
        group("east", "c", 1, 1),
    ];
    assert_eq!(site_names(&groups), vec!["east", "north", "west"]);
    assert!(site_names(&Vec::new()).is_empty());
}

#[test]
fn a_rule_picks_sites_by_substring() {
    assert!(site_matches(&"DC1".to_string(), &"DC".to_string()));
    assert!(site_matches(&"my-DC1".to_string(), &"DC1".to_string()));
    assert!(site_matches(&"DC1".to_string(), &"".to_string()));
    assert!(!site_matches(&"DC".to_string(), &"DC1".to_string()));
    assert!(!site_matches(&"dc1".to_string(), &"DC1".to_string()));
    let names = vec!["north".to_string(), "east".to_string()];
    assert!(any_name_matches(&names, &"south-east".to_string()));
    assert!(!any_name_matches(&names, &"west".to_string()));
    assert!(!any_name_matches(&Vec::new(), &"west".to_string()));
}

#[test]
fn mapping_makes_one_group_per_rule_and_drops_the_rest() {
    let groups = vec![
        group("DC1", "a", 2, 10),
        group("DC2", "a", 3, 20),
        group("Lab", "a", 5, 40),
        group("DC3", "b", 7, 80),
    ];
    let mapping =
        vec![rule("Prod", &["DC1", "DC3"]), rule("None", &["Nowhere"]), rule("Two", &["DC2"])];
    let mapped = map_sites(&groups, &mapping);
    assert_eq!(
        mapped,
        Some(vec![
            group("Prod", "Prod_cluster", 9, 90),
            group("None", "None_cluster", 0, 0),
            group("Two", "Two_cluster", 3, 20),
        ])
    );
    assert_eq!(map_sites(&groups, &Vec::new()), Some(Vec::new()));
}

#[test]
fn a_group_that_two_names_of_a_rule_pick_counts_once() {
    let groups = vec![group("DC1", "a", 2, 10)];
    let merged = map_site(&groups, &rule("All", &["DC", "DC1", "C1"]));
    assert_eq!(merged, Some(group("All", "All_cluster", 2, 10)));
}

#[test]
fn mapping_that_partitions_the_sites_keeps_the_totals() {
    let groups = vec![
        group("east-1", "a", 2, 10),
        group("east-2", "a", 3, 20),
        group("west-1", "a", 5, 40),
        group("north", "b", 7, 80),
    ];
    let mapping = vec![rule("East", &["east"]), rule("Rest", &["west", "north"])];
    let mapped = map_sites(&groups, &mapping).unwrap();
    assert_eq!(mapped.iter().map(|g| g.vm_count).sum::<usize>(), 17);
    assert_eq!(mapped.iter().map(|g| g.capacity).sum::<u128>(), 150);
    assert_eq!(mapped[0], group("East", "East_cluster", 5, 30));
    assert_eq!(mapped[1], group("Rest", "Rest_cluster", 12, 120));
}

#[test]
fn mapping_reports_a_sum_that_does_not_fit() {
    let groups = vec![group("a1", "c", usize::MAX, 1), group("a2", "c", 1, 1)];
    assert_eq!(map_site(&groups, &rule("A", &["a"])), None);
    assert_eq!(map_sites(&groups, &vec![rule("One", &["a1"]), rule("A", &["a"])]), None);
    assert_eq!(
        map_sites(&groups, &vec![rule("One", &["a1"]), rule("Two", &["a2"])]),
        Some(vec![group("One", "One_cluster", usize::MAX, 1), group("Two", "Two_cluster", 1, 1)])
    );
}

#[test]
fn mapping_machines_goes_through_their_clusters() {
    let inventory = vec![
        vm("1", "DC1", "a", 1),
        vm("2", "DC1", "b", 2),
        vm("3", "DC2", "a", 4),
        vm("4", "Lab", "a", 8),
    ];
    let mapping = vec![rule("Group1", &["DC1", "DC2"]), rule("Everything", &[""])];
    assert_eq!(
        rollup_by_mapping(&inventory, &mapping),
        vec![
            group("Group1", "Group1_cluster", 3, 7),
            group("Everything", "Everything_cluster", 4, 15),
        ]
    );
}

#[test]
fn a_site_mapping_takes_the_place_of_the_grouping() {
    let inventory = vec![vm("1", "DC1", "a", 1), vm("2", "DC2", "b", 2), vm("3", "Lab", "a", 4)];
    let cli = Cli { flatten: true, ..Cli::default() };
    let mapping = Some(vec![rule("Group1", &["DC"])]);
    let report = size(&cli, &inventory, &Vec::new(), &mapping);
    assert_eq!(report.datacenters, vec![group("Group1", "Group1_cluster", 2, 3)]);
    assert_eq!(report.datacenter_strings, vec!["Group1"]);
    assert_eq!(report.vse.workloads.len(), 1);
    assert_eq!(report.vse.workloads[0].workload_id, "Group1_cluster_workload");
    let flat = size(&cli, &inventory, &Vec::new(), &None);
    assert_eq!(flat.datacenters, vec![group("DC1", "Cluster1", 3, 7)]);
}

#[test]
fn a_run_reconciles_rolls_up_and_projects() {
    let inventory = vec![vm("A", "dc1", "c1", 2048), vm("B", "dc2", "c1", 1024)];
    let partitions = vec![part("A", 1000)];
    let cli = Cli { retention: Some("14D".to_string()), ..Cli::default() };
    let report = size(&cli, &inventory, &partitions, &None);
    assert_eq!(report.combined, vec![vm("A", "dc1", "c1", 1000), vm("B", "dc2", "c1", 1024)]);
    assert_eq!(report.datacenters, vec![group("dc1", "c1", 1, 1000), group("dc2", "c1", 1, 1024)]);
    assert_eq!(report.datacenter_strings, vec!["dc1", "dc2"]);
    assert_eq!(report.vse.sites.len(), 2);
    assert_eq!(report.vse.retentions[0].retention_name, "14D");
    let unreconciled = size(
        &Cli { do_not_use_vpartition: true, ..Cli::default() },
        &inventory,
        &partitions,
        &None,
    );
    assert_eq!(unreconciled.combined, inventory);
    assert_eq!(unreconciled.vse.retentions[0].retention_name, "30D");
}
