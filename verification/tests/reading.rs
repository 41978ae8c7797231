use rvtools2vse::excel::{get_excel, read_vinfo, read_vpartition, PartitionSheet, Workbook};
use rvtools2vse::helpers::{Cell, ColPosition, GetFloat, GetString, Sheet};
use rvtools2vse::models::cli::Cli;
use rvtools2vse::models::errors::MyError;
use rvtools2vse::models::rvtools::{Vinfo, Vpartition};
use rvtools2vse::report::run;

fn text(value: &str) -> Cell {
    Cell::Text(value.to_string())
}

fn header(names: &[&str]) -> Vec<Cell> {
    names.iter().map(|name| text(name)).collect()
}

fn info_row(name: &str, power: &str, capacity: u64, datacenter: &str, cluster: &str) -> Vec<Cell> {
    vec![text(name), text(power), Cell::Number(capacity), text(datacenter), text(cluster)]
}

fn info_sheet(rows: Vec<Vec<Cell>>) -> Sheet {
    let mut all = vec![header(&["VM", "Powerstate", "In Use MiB", "Datacenter", "Cluster"])];
    all.extend(rows);
    Sheet { rows: all }
}

fn part_sheet(rows: Vec<Vec<Cell>>) -> Sheet {
    let mut all = vec![header(&["VM", "Powerstate", "Consumed MiB"])];
    all.extend(rows);
    Sheet { rows: all }
}

fn part(name: &str, capacity: u64) -> Vpartition {
    Vpartition { vm_name: name.to_string(), capacity, powerstate: "on".to_string() }
}

fn missing(sheet: &str, column: &str) -> MyError {
    MyError::ColumnPosition(format!("{} - column '{}'", sheet, column))
}

fn vm(name: &str, power: &str, capacity: u64, datacenter: &str, cluster: &str) -> Vinfo {
    Vinfo {
        vm_name: name.to_string(),
        datacenter: datacenter.to_string(),
        cluster: cluster.to_string(),
        capacity,
        powerstate: power.to_string(),
    }
}

#[test]
fn a_cell_reads_as_text() {
    assert_eq!(text("abc").get_string_value("item".to_string(), 3), Ok("abc".to_string()));
    assert_eq!(Cell::Empty.get_string_value("item".to_string(), 3), Ok("None".to_string()));
    assert_eq!(
        Cell::Number(5).get_string_value("item".to_string(), 3),
        Err(MyError::EnumToString { item: "item".to_string(), row: 3 })
    );
    assert_eq!(
        Cell::Other.get_string_value("sheet - column".to_string(), 9),
        Err(MyError::EnumToString { item: "sheet - column".to_string(), row: 9 })
    );
}

#[test]
fn a_cell_reads_as_a_number() {
    assert_eq!(Cell::Number(2048).get_float_value("item".to_string(), 3), Ok(2048));
    assert_eq!(Cell::Empty.get_float_value("item".to_string(), 3), Ok(0));
    assert_eq!(
        text("12").get_float_value("item".to_string(), 4),
        Err(MyError::EnumToFloat { item: "item".to_string(), row: 4 })
    );
    assert_eq!(
        Cell::Other.get_float_value("item".to_string(), 4),
        Err(MyError::EnumToFloat { item: "item".to_string(), row: 4 })
    );
}

#[test]
fn a_column_is_found_by_its_name_in_the_first_row() {
    let sheet = Sheet {
        rows: vec![
            vec![text("A"), Cell::Empty, text("B"), Cell::Number(1), text("B")],
            vec![text("C")],
        ],
    };
    assert_eq!(sheet.get_col_pos(&"A".to_string()), Ok(0));
    assert_eq!(sheet.get_col_pos(&"B".to_string()), Ok(2));
    assert_eq!(
        sheet.get_col_pos(&"C".to_string()),
        Err(MyError::ColumnPosition("C".to_string()))
    );
    assert_eq!(
        sheet.get_col_pos(&"b".to_string()),
        Err(MyError::ColumnPosition("b".to_string()))
    );
    let empty = Sheet { rows: Vec::new() };
    assert_eq!(
        empty.get_col_pos(&"A".to_string()),
        Err(MyError::ColumnPosition("A".to_string()))
    );
}

#[test]
fn machines_are_read_row_by_row() {
    let sheet = info_sheet(vec![
        info_row("a", "poweredOn", 2048, "dc1", "c1"),
        info_row("b", "poweredOff", 1024, "dc1", "c1"),
        info_row("c", "suspended", 512, "dc2", "c2"),
    ]);
    assert_eq!(
        read_vinfo(&sheet, false, false),
        Ok(vec![vm("a", "poweredOn", 2048, "dc1", "c1"), vm("c", "suspended", 512, "dc2", "c2")])
    );
    assert_eq!(
        read_vinfo(&sheet, false, true),
        Ok(vec![
            vm("a", "poweredOn", 2048, "dc1", "c1"),
            vm("b", "poweredOff", 1024, "dc1", "c1"),
            vm("c", "suspended", 512, "dc2", "c2"),
        ])
    );
}

#[test]
fn columns_may_stand_in_any_order() {
    let sheet = Sheet {
        rows: vec![
            header(&["Cluster", "x", "In Use MiB", "VM", "Datacenter", "Powerstate"]),
            vec![text("c1"), text("?"), Cell::Number(7), text("a"), text("dc1"), text("on")],
        ],
    };
    assert_eq!(read_vinfo(&sheet, false, false), Ok(vec![vm("a", "on", 7, "dc1", "c1")]));
}

#[test]
fn empty_and_missing_cells_have_their_defaults() {
    let sheet = info_sheet(vec![
        vec![Cell::Empty, Cell::Empty, Cell::Empty, Cell::Empty, Cell::Empty],
        vec![text("short")],
        Vec::new(),
    ]);
    assert_eq!(
        read_vinfo(&sheet, false, false),
        Ok(vec![
            vm("None", "None", 0, "None", "None"),
            vm("short", "None", 0, "None", "None"),
            vm("None", "None", 0, "None", "None"),
        ])
    );
}

#[test]
fn a_sheet_of_names_alone_has_no_machines() {
    assert_eq!(read_vinfo(&info_sheet(Vec::new()), false, false), Ok(Vec::new()));
    assert_eq!(read_vpartition(&part_sheet(Vec::new()), false, false), Ok(Vec::new()));
}

#[test]
fn the_older_column_names_are_read_on_request() {
    let legacy = Sheet {
        rows: vec![
            header(&["VM", "Powerstate", "In Use MB", "Datacenter", "Cluster"]),
            info_row("a", "on", 5, "dc", "c"),
        ],
    };
    assert_eq!(read_vinfo(&legacy, true, false), Ok(vec![vm("a", "on", 5, "dc", "c")]));
    assert_eq!(
        read_vinfo(&legacy, false, false),
        Err(missing("vInfo", "In Use MiB"))
    );
    let now = info_sheet(vec![info_row("a", "on", 5, "dc", "c")]);
    assert_eq!(read_vinfo(&now, true, false), Err(missing("vInfo", "In Use MB")));
    let parts = Sheet {
        rows: vec![
            header(&["VM", "Powerstate", "Consumed MB"]),
            vec![text("a"), text("on"), Cell::Number(3)],
        ],
    };
    assert_eq!(
        read_vpartition(&parts, true, false),
        Ok(vec![part("a", 3)])
    );
    assert_eq!(
        read_vpartition(&parts, false, false),
        Err(missing("vPartition", "Consumed MiB"))
    );
}

#[test]
fn the_first_missing_column_is_reported() {
    let sheet = Sheet { rows: vec![header(&["VM", "In Use MiB", "Cluster"])] };
    assert_eq!(
        read_vinfo(&sheet, false, false),
        Err(missing("vInfo", "Powerstate"))
    );
    let sheet = Sheet { rows: vec![header(&["VM", "Powerstate", "In Use MiB", "Cluster"])] };
    assert_eq!(
        read_vinfo(&sheet, false, false),
        Err(missing("vInfo", "Datacenter"))
    );
    let sheet = Sheet { rows: vec![header(&["VM", "Powerstate", "In Use MiB", "Datacenter"])] };
    assert_eq!(
        read_vinfo(&sheet, false, false),
        Err(missing("vInfo", "Cluster"))
    );
    let sheet = Sheet { rows: Vec::new() };
    assert_eq!(read_vinfo(&sheet, false, false), Err(missing("vInfo", "VM")));
    let sheet = Sheet { rows: vec![header(&["VM", "Consumed MiB"])] };
    assert_eq!(
        read_vpartition(&sheet, false, false),
        Err(missing("vPartition", "Powerstate"))
    );
}

#[test]
fn the_first_bad_cell_is_reported_with_its_row() {
    let sheet = info_sheet(vec![
        info_row("a", "on", 1, "dc", "c"),
        vec![text("b"), text("on"), text("many"), Cell::Other, text("c")],
        vec![Cell::Other, text("on"), Cell::Number(1), text("dc"), text("c")],
    ]);
    assert_eq!(
        read_vinfo(&sheet, false, false),
        Err(MyError::EnumToFloat { item: "vInfo - column 'Capacity MiB'".to_string(), row: 3 })
    );
    let sheet = info_sheet(vec![vec![Cell::Other, Cell::Number(0), Cell::Other, Cell::Other]]);
    assert_eq!(
        read_vinfo(&sheet, false, false),
        Err(MyError::EnumToString { item: "vInfo - column Powerstate vInfo".to_string(), row: 2 })
    );
    let sheet = info_sheet(vec![vec![Cell::Other, text("on"), Cell::Other, Cell::Other]]);
    assert_eq!(
        read_vinfo(&sheet, false, false),
        Err(MyError::EnumToString { item: "vInfo - column 'VM'".to_string(), row: 2 })
    );
    let sheet =
        info_sheet(vec![vec![text("a"), text("on"), Cell::Number(1), Cell::Other, Cell::Other]]);
    assert_eq!(
        read_vinfo(&sheet, false, false),
        Err(MyError::EnumToString { item: "vInfo - column 'Datacenter'".to_string(), row: 2 })
    );
    let sheet =
        info_sheet(vec![vec![text("a"), text("on"), Cell::Number(1), text("dc"), Cell::Other]]);
    assert_eq!(
        read_vinfo(&sheet, false, false),
        Err(MyError::EnumToString { item: "vInfo - column 'Cluster'".to_string(), row: 2 })
    );
    let legacy = Sheet {
        rows: vec![
            header(&["VM", "Powerstate", "In Use MB", "Datacenter", "Cluster"]),
            vec![text("a"), text("on"), Cell::Other],
        ],
    };
    assert_eq!(
        read_vinfo(&legacy, true, false),
        Err(MyError::EnumToFloat { item: "vInfo - column 'Capacity MB'".to_string(), row: 2 })
    );
}

#[test]
fn a_bad_cell_of_a_machine_that_is_passed_over_does_no_harm() {
    let sheet = info_sheet(vec![vec![Cell::Other, text("poweredOff"), Cell::Other]]);
    assert_eq!(read_vinfo(&sheet, false, false), Ok(Vec::new()));
    assert_eq!(
        read_vinfo(&sheet, false, true),
        Err(MyError::EnumToString { item: "vInfo - column 'VM'".to_string(), row: 2 })
    );
}

#[test]
fn partitions_are_read_row_by_row() {
    let sheet = part_sheet(vec![
        vec![text("a"), text("on"), Cell::Number(10)],
        vec![text("b"), text("is poweredOff now"), Cell::Number(20)],
        vec![text("a"), text("on"), Cell::Empty],
    ]);
    assert_eq!(
        read_vpartition(&sheet, false, false),
        Ok(vec![
            part("a", 10),
            part("a", 0),
        ])
    );
    assert_eq!(read_vpartition(&sheet, false, true).map(|parts| parts.len()), Ok(3));
    let bad = part_sheet(vec![vec![text("a"), Cell::Number(1), Cell::Number(10)]]);
    assert_eq!(
        read_vpartition(&bad, false, false),
        Err(MyError::EnumToString { item: "vParition - column 'Powerstate'".to_string(), row: 2 })
    );
    let bad = part_sheet(vec![vec![Cell::Number(1), text("on"), Cell::Number(10)]]);
    assert_eq!(
        read_vpartition(&bad, false, false),
        Err(MyError::EnumToString { item: "vParition - column 'VM'".to_string(), row: 2 })
    );
    let bad = part_sheet(vec![vec![text("a"), text("on"), text("ten")]]);
    assert_eq!(
        read_vpartition(&bad, false, false),
        Err(MyError::EnumToFloat { item: "vParition - column 'Capacity MiB'".to_string(), row: 2 })
    );
    let bad = Sheet {
        rows: vec![
            header(&["VM", "Powerstate", "Consumed MB"]),
            vec![text("a"), text("on"), text("x")],
        ],
    };
    assert_eq!(
        read_vpartition(&bad, true, false),
        Err(MyError::EnumToFloat { item: "vParition - column 'Capacity MB'".to_string(), row: 2 })
    );
}

#[test]
fn a_run_without_workbooks_fails() {
    assert_eq!(
        get_excel(&Cli::default(), &Vec::new()),
        Err(MyError::RvtoolsError("No RVTools file or files specified".to_string()))
    );
    assert_eq!(
        run(&Cli::default(), &Vec::new(), &None),
        Err(MyError::RvtoolsError("No RVTools file or files specified".to_string()))
    );
}

#[test]
fn a_workbook_without_inventory_fails() {
    let book = Workbook { vinfo: None, vpartition: PartitionSheet::Missing };
    assert_eq!(
        get_excel(&Cli::default(), &vec![book]),
        Err(MyError::VinfoError("vInfo sheet not found".to_string()))
    );
}

#[test]
fn an_unreadable_partition_sheet_fails_unless_partitions_are_unused() {
    let book = Workbook {
        vinfo: Some(info_sheet(vec![info_row("a", "on", 1, "dc", "c")])),
        vpartition: PartitionSheet::Unreadable,
    };
    let books = vec![book];
    assert_eq!(
        get_excel(&Cli::default(), &books),
        Err(MyError::VpartitionError("vPartition sheet not found".to_string()))
    );
    let cli = Cli { do_not_use_vpartition: true, ..Cli::default() };
    assert_eq!(get_excel(&cli, &books), Ok((vec![vm("a", "on", 1, "dc", "c")], Vec::new())));
    assert!(!books[0].lacks_partitions(&Cli::default()));
    assert!(!books[0].lacks_partitions(&cli));
}

#[test]
fn a_workbook_without_partition_sheet_fails_unless_partitions_are_unused() {
    let book = Workbook {
        vinfo: Some(info_sheet(vec![info_row("a", "on", 1, "dc", "c")])),
        vpartition: PartitionSheet::Missing,
    };
    let cli = Cli { do_not_use_vpartition: true, ..Cli::default() };
    assert!(!book.lacks_partitions(&Cli::default()));
    assert!(book.lacks_partitions(&cli));
    let books = vec![book];
    assert_eq!(
        get_excel(&Cli::default(), &books),
        Err(MyError::VpartitionError("vPartition sheet not found".to_string()))
    );
    assert_eq!(get_excel(&cli, &books), Ok((vec![vm("a", "on", 1, "dc", "c")], Vec::new())));
}

#[test]
fn partitions_that_are_not_used_are_not_read() {
    let book = Workbook {
        vinfo: Some(info_sheet(vec![info_row("a", "on", 1, "dc", "c")])),
        vpartition: PartitionSheet::Present(Sheet { rows: vec![header(&["nothing"])] }),
    };
    let books = vec![book];
    let cli = Cli { do_not_use_vpartition: true, ..Cli::default() };
    assert_eq!(get_excel(&cli, &books), Ok((vec![vm("a", "on", 1, "dc", "c")], Vec::new())));
    assert_eq!(get_excel(&Cli::default(), &books), Err(missing("vPartition", "VM")));
}

#[test]
fn workbooks_are_read_in_order_and_filtered() {
    let first = Workbook {
        vinfo: Some(info_sheet(vec![
            info_row("a", "on", 1, "dc1", "c1"),
            info_row("b", "on", 2, "dc2", "c1"),
        ])),
        vpartition: PartitionSheet::Present(part_sheet(vec![vec![
            text("a"),
            text("on"),
            Cell::Number(10),
        ]])),
    };
    let second = Workbook {
        vinfo: Some(info_sheet(vec![
            info_row("c", "on", 4, "dc2", "c2"),
            info_row("d", "on", 8, "dc1", "c2"),
        ])),
        vpartition: PartitionSheet::Present(part_sheet(vec![vec![
            text("d"),
            text("on"),
            Cell::Number(20),
        ]])),
    };
    let books = vec![first, second];
    let cli = Cli { dc_exclude: Some(vec!["dc2".to_string()]), ..Cli::default() };
    assert_eq!(
        get_excel(&cli, &books),
        Ok((
            vec![vm("a", "on", 1, "dc1", "c1"), vm("d", "on", 8, "dc1", "c2")],
            vec![
                part("a", 10),
                part("d", 20),
            ]
        ))
    );
    let report = run(&cli, &books, &None).unwrap();
    assert_eq!(report.combined.len(), 2);
    assert_eq!(report.combined[0].capacity, 1);
    assert_eq!(report.combined[1].capacity, 8);
    assert_eq!(report.datacenter_strings, vec!["dc1"]);
    assert_eq!(report.datacenters.len(), 2);
    assert_eq!(report.vse.workloads.len(), 2);
}

#[test]
fn the_first_workbook_that_fails_ends_the_reading() {
    let good = Workbook {
        vinfo: Some(info_sheet(vec![info_row("a", "on", 1, "dc1", "c1")])),
        vpartition: PartitionSheet::Present(part_sheet(Vec::new())),
    };
    let bad_machines = Workbook {
        vinfo: Some(info_sheet(vec![vec![text("a"), text("on"), Cell::Other]])),
        vpartition: PartitionSheet::Unreadable,
    };
    let bad_partitions = Workbook {
        vinfo: Some(info_sheet(Vec::new())),
        vpartition: PartitionSheet::Unreadable,
    };
    let books = vec![good, bad_machines, bad_partitions];
    assert_eq!(
        get_excel(&Cli::default(), &books),
        Err(MyError::EnumToFloat { item: "vInfo - column 'Capacity MiB'".to_string(), row: 2 })
    );
    let books = vec![books.into_iter().last().unwrap()];
    assert_eq!(
        get_excel(&Cli::default(), &books),
        Err(MyError::VpartitionError("vPartition sheet not found".to_string()))
    );
}
