//! Reading inventory and partition records from the sheets of workbooks.
//!
//! A workbook is handed over as its two sheets of typed cells. The records
//! of all workbooks are read in order; the first error ends the reading.

use crate::helpers::{
    cell_at, column_of, number_of, text_of, Cell, CellView, ColPosition, GetFloat, GetString,
    Sheet,
};
use crate::models::cli::{Cli, CliView};
use crate::models::errors::{MyError, MyErrorView};
use crate::models::rvtools::{Vinfo, VinfoView, Vpartition, VpartitionView};
use crate::policy::{filter_inventory, kept, lemma_filter_idempotent, lemma_filter_spreads};
use crate::text::{contains_text, occurs_in};
use vstd::prelude::*;
use vstd::string::*;

verus! {

/// What a workbook has for its partition sheet.
#[derive(Debug, PartialEq, Eq)]
pub enum PartitionSheet {
    /// The workbook has no such sheet.
    Missing,
    /// The workbook has the sheet, but it cannot be read.
    Unreadable,
    /// The sheet.
    Present(Sheet),
}

/// The mathematical value of a [`PartitionSheet`].
pub enum PartitionSheetView {
    Missing,
    Unreadable,
    Present(Seq<Seq<CellView>>),
}

impl DeepView for PartitionSheet {
    type V = PartitionSheetView;

    open spec fn deep_view(&self) -> PartitionSheetView {
        match self {
            PartitionSheet::Missing => PartitionSheetView::Missing,
            PartitionSheet::Unreadable => PartitionSheetView::Unreadable,
            PartitionSheet::Present(sheet) => PartitionSheetView::Present(sheet.deep_view()),
        }
    }
}

impl View for PartitionSheet {
    type V = PartitionSheetView;

    open spec fn view(&self) -> PartitionSheetView {
        self.deep_view()
    }
}

/// The two sheets of one workbook.
#[derive(Debug, PartialEq, Eq)]
pub struct Workbook {
    /// The inventory sheet, if the workbook has one.
    pub vinfo: Option<Sheet>,
    /// The partition sheet.
    pub vpartition: PartitionSheet,
}

/// The mathematical value of a [`Workbook`].
pub struct WorkbookView {
    pub vinfo: Option<Seq<Seq<CellView>>>,
    pub vpartition: PartitionSheetView,
}

impl DeepView for Workbook {
    type V = WorkbookView;

    open spec fn deep_view(&self) -> WorkbookView {
        WorkbookView { vinfo: self.vinfo.deep_view(), vpartition: self.vpartition.deep_view() }
    }
}

impl View for Workbook {
    type V = WorkbookView;

    open spec fn view(&self) -> WorkbookView {
        self.deep_view()
    }
}

/// Where the columns of an inventory sheet stand.
pub struct InfoColumns {
    pub vm: usize,
    pub power: usize,
    pub capacity: usize,
    pub datacenter: usize,
    pub cluster: usize,
}

/// Where the columns of a partition sheet stand.
pub struct PartitionColumns {
    pub vm: usize,
    pub power: usize,
    pub capacity: usize,
}

/// What reading one row comes to.
pub enum RowOutcome<R> {
    /// The row is passed over: its machine is powered off.
    Skipped,
    /// The row gives a record.
    Kept(R),
    /// A cell of the row cannot be read.
    Failed(MyErrorView),
}

/// The records read, or the first error.
pub type Records<R> = Result<Seq<R>, MyErrorView>;

/// The power state is that of a machine that is powered off.
pub open spec fn is_powered_off(state: Seq<char>) -> bool {
    occurs_in("poweredOff"@, state)
}

/// The error for a cell without text in the row at `index`, counted from
/// 0: rows are numbered from 1.
pub open spec fn text_error(item: Seq<char>, index: int) -> MyErrorView {
    MyErrorView::EnumToString { item, row: (index + 1) as usize }
}

/// The error for a cell without a number in the row at `index`, counted
/// from 0: rows are numbered from 1.
pub open spec fn number_error(item: Seq<char>, index: int) -> MyErrorView {
    MyErrorView::EnumToFloat { item, row: (index + 1) as usize }
}

/// The name of the inventory's capacity column.
pub open spec fn in_use_column(legacy: bool) -> Seq<char> {
    if legacy {
        "In Use MB"@
    } else {
        "In Use MiB"@
    }
}

/// The name of the partitions' capacity column.
pub open spec fn consumed_column(legacy: bool) -> Seq<char> {
    if legacy {
        "Consumed MB"@
    } else {
        "Consumed MiB"@
    }
}

/// How an error names the inventory's capacity column.
pub open spec fn in_use_item(legacy: bool) -> Seq<char> {
    if legacy {
        "vInfo - column 'Capacity MB'"@
    } else {
        "vInfo - column 'Capacity MiB'"@
    }
}

/// How an error names the partitions' capacity column.
pub open spec fn consumed_item(legacy: bool) -> Seq<char> {
    if legacy {
        "vParition - column 'Capacity MB'"@
    } else {
        "vParition - column 'Capacity MiB'"@
    }
}

/// The error for a sheet that lacks a column: it names the sheet and the
/// column.
pub open spec fn missing_column(sheet: Seq<char>, column: Seq<char>) -> MyErrorView {
    MyErrorView::ColumnPosition(sheet + " - column '"@ + column + "'"@)
}

/// The columns of an inventory sheet, or the error for the first that is
/// missing: machine name, power state, capacity, datacenter, cluster.
pub open spec fn vinfo_columns(sheet: Seq<Seq<CellView>>, legacy: bool) -> Result<
    InfoColumns,
    MyErrorView,
> {
    if column_of(sheet, "VM"@) is None {
        Err(missing_column("vInfo"@, "VM"@))
    } else if column_of(sheet, "Powerstate"@) is None {
        Err(missing_column("vInfo"@, "Powerstate"@))
    } else if column_of(sheet, in_use_column(legacy)) is None {
        Err(missing_column("vInfo"@, in_use_column(legacy)))
    } else if column_of(sheet, "Datacenter"@) is None {
        Err(missing_column("vInfo"@, "Datacenter"@))
    } else if column_of(sheet, "Cluster"@) is None {
        Err(missing_column("vInfo"@, "Cluster"@))
    } else {
        Ok(
            InfoColumns {
                vm: column_of(sheet, "VM"@)->0 as usize,
                power: column_of(sheet, "Powerstate"@)->0 as usize,
                capacity: column_of(sheet, in_use_column(legacy))->0 as usize,
                datacenter: column_of(sheet, "Datacenter"@)->0 as usize,
                cluster: column_of(sheet, "Cluster"@)->0 as usize,
            },
        )
    }
}

/// The columns of a partition sheet, or the error for the first that is
/// missing: machine name, power state, capacity.
pub open spec fn vpartition_columns(sheet: Seq<Seq<CellView>>, legacy: bool) -> Result<
    PartitionColumns,
    MyErrorView,
> {
    if column_of(sheet, "VM"@) is None {
        Err(missing_column("vPartition"@, "VM"@))
    } else if column_of(sheet, "Powerstate"@) is None {
        Err(missing_column("vPartition"@, "Powerstate"@))
    } else if column_of(sheet, consumed_column(legacy)) is None {
        Err(missing_column("vPartition"@, consumed_column(legacy)))
    } else {
        Ok(
            PartitionColumns {
                vm: column_of(sheet, "VM"@)->0 as usize,
                power: column_of(sheet, "Powerstate"@)->0 as usize,
                capacity: column_of(sheet, consumed_column(legacy))->0 as usize,
            },
        )
    }
}

/// What the row at `index` of an inventory sheet comes to. Its cells are
/// read in the order power state, machine name, capacity, datacenter,
/// cluster; the first that cannot be read fails the row. A machine that is
/// powered off is passed over unless such machines are included.
pub open spec fn vinfo_row(
    row: Seq<CellView>,
    index: int,
    columns: InfoColumns,
    legacy: bool,
    include_powered_off: bool,
) -> RowOutcome<VinfoView> {
    let power = text_of(cell_at(row, columns.power as int));
    let name = text_of(cell_at(row, columns.vm as int));
    let capacity = number_of(cell_at(row, columns.capacity as int));
    let datacenter = text_of(cell_at(row, columns.datacenter as int));
    let cluster = text_of(cell_at(row, columns.cluster as int));
    if power is None {
        RowOutcome::Failed(text_error("vInfo - column Powerstate vInfo"@, index))
    } else if is_powered_off(power->0) && !include_powered_off {
        RowOutcome::Skipped
    } else if name is None {
        RowOutcome::Failed(text_error("vInfo - column 'VM'"@, index))
    } else if capacity is None {
        RowOutcome::Failed(number_error(in_use_item(legacy), index))
    } else if datacenter is None {
        RowOutcome::Failed(text_error("vInfo - column 'Datacenter'"@, index))
    } else if cluster is None {
        RowOutcome::Failed(text_error("vInfo - column 'Cluster'"@, index))
    } else {
        RowOutcome::Kept(
            VinfoView {
                vm_name: name->0,
                datacenter: datacenter->0,
                cluster: cluster->0,
                capacity: capacity->0,
                powerstate: power->0,
            },
        )
    }
}

/// What the row at `index` of a partition sheet comes to. Its cells are
/// read in the order power state, machine name, capacity; the first that
/// cannot be read fails the row. A partition of a machine that is powered
/// off is passed over unless such machines are included.
pub open spec fn vpartition_row(
    row: Seq<CellView>,
    index: int,
    columns: PartitionColumns,
    legacy: bool,
    include_powered_off: bool,
) -> RowOutcome<VpartitionView> {
    let power = text_of(cell_at(row, columns.power as int));
    let name = text_of(cell_at(row, columns.vm as int));
    let capacity = number_of(cell_at(row, columns.capacity as int));
    if power is None {
        RowOutcome::Failed(text_error("vParition - column 'Powerstate'"@, index))
    } else if is_powered_off(power->0) && !include_powered_off {
        RowOutcome::Skipped
    } else if name is None {
        RowOutcome::Failed(text_error("vParition - column 'VM'"@, index))
    } else if capacity is None {
        RowOutcome::Failed(number_error(consumed_item(legacy), index))
    } else {
        RowOutcome::Kept(
            VpartitionView { vm_name: name->0, capacity: capacity->0, powerstate: power->0 },
        )
    }
}

/// The records so far with what one more row comes to.
pub open spec fn with_row<R>(front: Records<R>, outcome: RowOutcome<R>) -> Records<R> {
    match front {
        Err(error) => Err(error),
        Ok(records) => match outcome {
            RowOutcome::Skipped => Ok(records),
            RowOutcome::Kept(record) => Ok(records.push(record)),
            RowOutcome::Failed(error) => Err(error),
        },
    }
}

/// The records of the rows of an inventory sheet below its first and above
/// the row at `upto`, or the error of the first row that fails.
pub open spec fn vinfo_rows(
    sheet: Seq<Seq<CellView>>,
    upto: int,
    columns: InfoColumns,
    legacy: bool,
    include_powered_off: bool,
) -> Records<VinfoView>
    decreases upto,
{
    if upto <= 1 {
        Ok(Seq::empty())
    } else {
        with_row(
            vinfo_rows(sheet, upto - 1, columns, legacy, include_powered_off),
            vinfo_row(sheet[upto - 1], upto - 1, columns, legacy, include_powered_off),
        )
    }
}

/// The records of the rows of a partition sheet below its first and above
/// the row at `upto`, or the error of the first row that fails.
pub open spec fn vpartition_rows(
    sheet: Seq<Seq<CellView>>,
    upto: int,
    columns: PartitionColumns,
    legacy: bool,
    include_powered_off: bool,
) -> Records<VpartitionView>
    decreases upto,
{
    if upto <= 1 {
        Ok(Seq::empty())
    } else {
        with_row(
            vpartition_rows(sheet, upto - 1, columns, legacy, include_powered_off),
            vpartition_row(sheet[upto - 1], upto - 1, columns, legacy, include_powered_off),
        )
    }
}

/// The machines of an inventory sheet: its columns are found, then its rows
/// are read from the second on.
pub open spec fn vinfo_records(
    sheet: Seq<Seq<CellView>>,
    legacy: bool,
    include_powered_off: bool,
) -> Records<VinfoView> {
    match vinfo_columns(sheet, legacy) {
        Err(error) => Err(error),
        Ok(columns) => vinfo_rows(sheet, sheet.len() as int, columns, legacy, include_powered_off),
    }
}

/// The partitions of a partition sheet: its columns are found, then its
/// rows are read from the second on.
pub open spec fn vpartition_records(
    sheet: Seq<Seq<CellView>>,
    legacy: bool,
    include_powered_off: bool,
) -> Records<VpartitionView> {
    match vpartition_columns(sheet, legacy) {
        Err(error) => Err(error),
        Ok(columns) => vpartition_rows(
            sheet,
            sheet.len() as int,
            columns,
            legacy,
            include_powered_off,
        ),
    }
}

/// The partitions that a workbook gives. When partitions are not used,
/// it gives none, whatever it has for the sheet. When they are used, a
/// workbook that lacks the sheet, or has one that cannot be read, is an
/// error.
pub open spec fn workbook_partitions(sheet: PartitionSheetView, cli: CliView) -> Records<
    VpartitionView,
> {
    if cli.do_not_use_vpartition {
        Ok(Seq::empty())
    } else {
        match sheet {
            PartitionSheetView::Present(sheet) => vpartition_records(
                sheet,
                cli.legacy,
                cli.include_powered_off,
            ),
            _ => Err(MyErrorView::VpartitionError("vPartition sheet not found"@)),
        }
    }
}

/// The machines that a workbook gives: those of its inventory sheet that
/// the filters keep. A workbook without the sheet is an error.
pub open spec fn workbook_machines(sheet: Option<Seq<Seq<CellView>>>, cli: CliView) -> Records<
    VinfoView,
> {
    match sheet {
        None => Err(MyErrorView::VinfoError("vInfo sheet not found"@)),
        Some(sheet) => match vinfo_records(sheet, cli.legacy, cli.include_powered_off) {
            Err(error) => Err(error),
            Ok(machines) => Ok(kept(machines, cli.policy())),
        },
    }
}

/// The machines and partitions read, or the first error.
pub type Readings = Result<(Seq<VinfoView>, Seq<VpartitionView>), MyErrorView>;

/// The readings so far with those of one more workbook: its machines are
/// read before its partitions.
pub open spec fn with_workbook(front: Readings, book: WorkbookView, cli: CliView) -> Readings {
    match front {
        Err(error) => Err(error),
        Ok(readings) => match workbook_machines(book.vinfo, cli) {
            Err(error) => Err(error),
            Ok(machines) => match workbook_partitions(book.vpartition, cli) {
                Err(error) => Err(error),
                Ok(partitions) => Ok((readings.0 + machines, readings.1 + partitions)),
            },
        },
    }
}

/// The readings of the workbooks before the one at `upto`.
pub open spec fn workbooks_readings(books: Seq<WorkbookView>, upto: int, cli: CliView) -> Readings
    decreases upto,
{
    if upto <= 0 {
        Ok((Seq::empty(), Seq::empty()))
    } else {
        with_workbook(workbooks_readings(books, upto - 1, cli), books[upto - 1], cli)
    }
}

/// The readings of a run: those of all its workbooks in order. A run
/// without workbooks is an error.
pub open spec fn excel_readings(books: Seq<WorkbookView>, cli: CliView) -> Readings {
    if books.len() == 0 {
        Err(MyErrorView::RvtoolsError("No RVTools file or files specified"@))
    } else {
        workbooks_readings(books, books.len() as int, cli)
    }
}

/// Reads the cell of a row in the given column as text.
fn text_at(row: &Vec<Cell>, column: usize, item: &str, number: usize) -> (value: Result<
    String,
    MyError,
>)
    ensures
        match value {
            Ok(text) => text_of(cell_at(row.deep_view(), column as int)) == Some(text@),
            Err(error) => {
                &&& text_of(cell_at(row.deep_view(), column as int)) is None
                &&& error.deep_view() == (MyErrorView::EnumToString { item: item@, row: number })
            },
        },
{
    if column < row.len() {
        assert(row.deep_view()[column as int] == row[column as int].deep_view());
        row[column].get_string_value(String::from_str(item), number)
    } else {
        Cell::Empty.get_string_value(String::from_str(item), number)
    }
}

/// Reads the cell of a row in the given column as a number.
fn number_at(row: &Vec<Cell>, column: usize, item: &str, number: usize) -> (value: Result<
    u64,
    MyError,
>)
    ensures
        match value {
            Ok(amount) => number_of(cell_at(row.deep_view(), column as int)) == Some(amount),
            Err(error) => {
                &&& number_of(cell_at(row.deep_view(), column as int)) is None
                &&& error.deep_view() == (MyErrorView::EnumToFloat { item: item@, row: number })
            },
        },
{
    if column < row.len() {
        assert(row.deep_view()[column as int] == row[column as int].deep_view());
        row[column].get_float_value(String::from_str(item), number)
    } else {
        Cell::Empty.get_float_value(String::from_str(item), number)
    }
}

/// The exec outcome of a row agrees with its mathematical outcome.
pub open spec fn row_agrees<T: DeepView>(
    outcome: Result<Option<T>, MyError>,
    expected: RowOutcome<T::V>,
) -> bool {
    match outcome {
        Ok(Some(record)) => expected == RowOutcome::Kept(record.deep_view()),
        Ok(None) => expected == RowOutcome::<T::V>::Skipped,
        Err(error) => expected == RowOutcome::<T::V>::Failed(error.deep_view()),
    }
}

/// The exec records agree with the mathematical ones.
pub open spec fn records_agree<T: DeepView>(
    records: Result<Vec<T>, MyError>,
    expected: Records<T::V>,
) -> bool {
    match records {
        Ok(records) => expected == Ok::<Seq<T::V>, MyErrorView>(records.deep_view()),
        Err(error) => expected == Err::<Seq<T::V>, MyErrorView>(error.deep_view()),
    }
}

/// The exec readings agree with the mathematical ones.
pub open spec fn readings_agree(
    readings: Result<(Vec<Vinfo>, Vec<Vpartition>), MyError>,
    expected: Readings,
) -> bool {
    match readings {
        Ok(readings) => expected == Ok::<(Seq<VinfoView>, Seq<VpartitionView>), MyErrorView>(
            (readings.0.deep_view(), readings.1.deep_view()),
        ),
        Err(error) => expected == Err::<(Seq<VinfoView>, Seq<VpartitionView>), MyErrorView>(
            error.deep_view(),
        ),
    }
}

/// Reads the row at `index` of an inventory sheet.
fn read_vinfo_row(
    row: &Vec<Cell>,
    index: usize,
    columns: &InfoColumns,
    legacy: bool,
    include_powered_off: bool,
) -> (outcome: Result<Option<Vinfo>, MyError>)
    requires
        index < usize::MAX,
    ensures
        row_agrees(
            outcome,
            vinfo_row(row.deep_view(), index as int, *columns, legacy, include_powered_off),
        ),
{
    let number = index + 1;
    let powerstate = text_at(row, columns.power, "vInfo - column Powerstate vInfo", number)?;
    if contains_text(powerstate.as_str(), "poweredOff") && !include_powered_off {
        return Ok(None);
    }
    let vm_name = text_at(row, columns.vm, "vInfo - column 'VM'", number)?;
    let item = if legacy {
        "vInfo - column 'Capacity MB'"
    } else {
        "vInfo - column 'Capacity MiB'"
    };
    let capacity = number_at(row, columns.capacity, item, number)?;
    let datacenter = text_at(row, columns.datacenter, "vInfo - column 'Datacenter'", number)?;
    let cluster = text_at(row, columns.cluster, "vInfo - column 'Cluster'", number)?;
    Ok(Some(Vinfo { vm_name, datacenter, cluster, capacity, powerstate }))
}

/// Reads the row at `index` of a partition sheet.
fn read_vpartition_row(
    row: &Vec<Cell>,
    index: usize,
    columns: &PartitionColumns,
    legacy: bool,
    include_powered_off: bool,
) -> (outcome: Result<Option<Vpartition>, MyError>)
    requires
        index < usize::MAX,
    ensures
        row_agrees(
            outcome,
            vpartition_row(row.deep_view(), index as int, *columns, legacy, include_powered_off),
        ),
{
    let number = index + 1;
    let powerstate = text_at(row, columns.power, "vParition - column 'Powerstate'", number)?;
    if contains_text(powerstate.as_str(), "poweredOff") && !include_powered_off {
        return Ok(None);
    }
    let vm_name = text_at(row, columns.vm, "vParition - column 'VM'", number)?;
    let item = if legacy {
        "vParition - column 'Capacity MB'"
    } else {
        "vParition - column 'Capacity MiB'"
    };
    let capacity = number_at(row, columns.capacity, item, number)?;
    Ok(Some(Vpartition { vm_name, capacity, powerstate }))
}

/// Finds a column of the sheet of the given name.
fn find_column(sheet: &Sheet, sheet_name: &str, column: &str) -> (position: Result<usize, MyError>)
    ensures
        match position {
            Ok(place) => column_of(sheet.deep_view(), column@) == Some(place as int),
            Err(error) => {
                &&& column_of(sheet.deep_view(), column@) is None
                &&& error.deep_view() == missing_column(sheet_name@, column@)
            },
        },
{
    match sheet.get_col_pos(&String::from_str(column)) {
        Ok(place) => Ok(place),
        Err(_) => {
            let named = String::from_str(sheet_name).concat(" - column '").concat(column).concat(
                "'",
            );
            Err(MyError::ColumnPosition(named))
        },
    }
}

/// Finds the columns of an inventory sheet.
fn find_vinfo_columns(sheet: &Sheet, legacy: bool) -> (columns: Result<InfoColumns, MyError>)
    ensures
        match columns {
            Ok(columns) => vinfo_columns(sheet.deep_view(), legacy) == Ok::<
                InfoColumns,
                MyErrorView,
            >(columns),
            Err(error) => vinfo_columns(sheet.deep_view(), legacy) == Err::<
                InfoColumns,
                MyErrorView,
            >(error.deep_view()),
        },
{
    let vm = find_column(sheet, "vInfo", "VM")?;
    let power = find_column(sheet, "vInfo", "Powerstate")?;
    let in_use = if legacy {
        "In Use MB"
    } else {
        "In Use MiB"
    };
    let capacity = find_column(sheet, "vInfo", in_use)?;
    let datacenter = find_column(sheet, "vInfo", "Datacenter")?;
    let cluster = find_column(sheet, "vInfo", "Cluster")?;
    Ok(InfoColumns { vm, power, capacity, datacenter, cluster })
}

/// Finds the columns of a partition sheet.
fn find_vpartition_columns(sheet: &Sheet, legacy: bool) -> (columns: Result<
    PartitionColumns,
    MyError,
>)
    ensures
        match columns {
            Ok(columns) => vpartition_columns(sheet.deep_view(), legacy) == Ok::<
                PartitionColumns,
                MyErrorView,
            >(columns),
            Err(error) => vpartition_columns(sheet.deep_view(), legacy) == Err::<
                PartitionColumns,
                MyErrorView,
            >(error.deep_view()),
        },
{
    let vm = find_column(sheet, "vPartition", "VM")?;
    let power = find_column(sheet, "vPartition", "Powerstate")?;
    let consumed = if legacy {
        "Consumed MB"
    } else {
        "Consumed MiB"
    };
    let capacity = find_column(sheet, "vPartition", consumed)?;
    Ok(PartitionColumns { vm, power, capacity })
}

/// Reads the machines of an inventory sheet.
pub fn read_vinfo(sheet: &Sheet, legacy: bool, include_powered_off: bool) -> (machines: Result<
    Vec<Vinfo>,
    MyError,
>)
    ensures
        records_agree(machines, vinfo_records(sheet.deep_view(), legacy, include_powered_off)),
{
    let columns = find_vinfo_columns(sheet, legacy)?;
    let ghost view = sheet.deep_view();
    let mut machines: Vec<Vinfo> = Vec::new();
    let mut index: usize = 1;
    assert(machines.deep_view() =~= Seq::<VinfoView>::empty());
    assert(sheet.rows.len() > 0) by {
        assert(column_of(view, "VM"@) is Some);
    }
    while index < sheet.rows.len()
        invariant
            1 <= index <= sheet.rows.len(),
            view == sheet.deep_view(),
            vinfo_columns(view, legacy) == Ok::<InfoColumns, MyErrorView>(columns),
            vinfo_rows(view, index as int, columns, legacy, include_powered_off) == Ok::<
                Seq<VinfoView>,
                MyErrorView,
            >(machines.deep_view()),
        decreases sheet.rows.len() - index,
    {
        let row = &sheet.rows[index];
        assert(row.deep_view() == view[index as int]);
        let ghost before = machines.deep_view();
        match read_vinfo_row(row, index, &columns, legacy, include_powered_off) {
            Ok(Some(machine)) => {
                machines.push(machine);
                assert(machines.deep_view() =~= before.push(machine.deep_view()));
            },
            Ok(None) => {},
            Err(error) => {
                proof {
                    assert(vinfo_rows(view, index + 1, columns, legacy, include_powered_off)
                        == Err::<Seq<VinfoView>, MyErrorView>(error.deep_view()));
                    lemma_vinfo_rows_fail(
                        view,
                        index + 1,
                        view.len() as int,
                        columns,
                        legacy,
                        include_powered_off,
                    );
                }
                return Err(error);
            },
        }
        index = index + 1;
    }
    Ok(machines)
}

/// Reads the partitions of a partition sheet.
pub fn read_vpartition(sheet: &Sheet, legacy: bool, include_powered_off: bool) -> (partitions:
    Result<Vec<Vpartition>, MyError>)
    ensures
        records_agree(
            partitions,
            vpartition_records(sheet.deep_view(), legacy, include_powered_off),
        ),
{
    let columns = find_vpartition_columns(sheet, legacy)?;
    let ghost view = sheet.deep_view();
    let mut partitions: Vec<Vpartition> = Vec::new();
    let mut index: usize = 1;
    assert(partitions.deep_view() =~= Seq::<VpartitionView>::empty());
    assert(sheet.rows.len() > 0) by {
        assert(column_of(view, "VM"@) is Some);
    }
    while index < sheet.rows.len()
        invariant
            1 <= index <= sheet.rows.len(),
            view == sheet.deep_view(),
            vpartition_columns(view, legacy) == Ok::<PartitionColumns, MyErrorView>(columns),
            vpartition_rows(view, index as int, columns, legacy, include_powered_off) == Ok::<
                Seq<VpartitionView>,
                MyErrorView,
            >(partitions.deep_view()),
        decreases sheet.rows.len() - index,
    {
        let row = &sheet.rows[index];
        assert(row.deep_view() == view[index as int]);
        let ghost before = partitions.deep_view();
        match read_vpartition_row(row, index, &columns, legacy, include_powered_off) {
            Ok(Some(partition)) => {
                partitions.push(partition);
                assert(partitions.deep_view() =~= before.push(partition.deep_view()));
            },
            Ok(None) => {},
            Err(error) => {
                proof {
                    assert(vpartition_rows(view, index + 1, columns, legacy, include_powered_off)
                        == Err::<Seq<VpartitionView>, MyErrorView>(error.deep_view()));
                    lemma_vpartition_rows_fail(
                        view,
                        index + 1,
                        view.len() as int,
                        columns,
                        legacy,
                        include_powered_off,
                    );
                }
                return Err(error);
            },
        }
        index = index + 1;
    }
    Ok(partitions)
}

/// Once a row has failed, reading further rows leaves the error as it is.
proof fn lemma_vinfo_rows_fail(
    sheet: Seq<Seq<CellView>>,
    failed: int,
    upto: int,
    columns: InfoColumns,
    legacy: bool,
    include_powered_off: bool,
)
    requires
        2 <= failed <= upto,
        vinfo_rows(sheet, failed, columns, legacy, include_powered_off) is Err,
    ensures
        vinfo_rows(sheet, upto, columns, legacy, include_powered_off) == vinfo_rows(
            sheet,
            failed,
            columns,
            legacy,
            include_powered_off,
        ),
    decreases upto - failed,
{
    if failed < upto {
        lemma_vinfo_rows_fail(sheet, failed, upto - 1, columns, legacy, include_powered_off);
    }
}

/// Once a row has failed, reading further rows leaves the error as it is.
proof fn lemma_vpartition_rows_fail(
    sheet: Seq<Seq<CellView>>,
    failed: int,
    upto: int,
    columns: PartitionColumns,
    legacy: bool,
    include_powered_off: bool,
)
    requires
        2 <= failed <= upto,
        vpartition_rows(sheet, failed, columns, legacy, include_powered_off) is Err,
    ensures
        vpartition_rows(sheet, upto, columns, legacy, include_powered_off) == vpartition_rows(
            sheet,
            failed,
            columns,
            legacy,
            include_powered_off,
        ),
    decreases upto - failed,
{
    if failed < upto {
        lemma_vpartition_rows_fail(sheet, failed, upto - 1, columns, legacy, include_powered_off);
    }
}

/// Once a workbook has failed, reading further workbooks leaves the error
/// as it is.
proof fn lemma_workbooks_fail(books: Seq<WorkbookView>, failed: int, upto: int, cli: CliView)
    requires
        1 <= failed <= upto,
        workbooks_readings(books, failed, cli) is Err,
    ensures
        workbooks_readings(books, upto, cli) == workbooks_readings(books, failed, cli),
    decreases upto - failed,
{
    if failed < upto {
        lemma_workbooks_fail(books, failed, upto - 1, cli);
    }
}

/// The machines read from the workbooks before the one at `upto` all pass
/// the run's filters.
proof fn lemma_workbooks_pass_filters(books: Seq<WorkbookView>, upto: int, cli: CliView)
    requires
        workbooks_readings(books, upto, cli) is Ok,
    ensures
        kept(workbooks_readings(books, upto, cli)->Ok_0.0, cli.policy()) == workbooks_readings(
            books,
            upto,
            cli,
        )->Ok_0.0,
    decreases upto,
{
    reveal(Seq::filter);
    if upto > 0 {
        let front = workbooks_readings(books, upto - 1, cli)->Ok_0.0;
        let sheet = books[upto - 1].vinfo->0;
        let machines = vinfo_records(sheet, cli.legacy, cli.include_powered_off)->Ok_0;
        lemma_workbooks_pass_filters(books, upto - 1, cli);
        lemma_filter_spreads(front, kept(machines, cli.policy()), cli.policy());
        lemma_filter_idempotent(machines, cli.policy());
    }
}

/// The machines that a run reads all pass its filters: filtering them once
/// more, all together, changes nothing.
pub proof fn lemma_readings_pass_filters(books: Seq<WorkbookView>, cli: CliView)
    requires
        excel_readings(books, cli) is Ok,
    ensures
        kept(excel_readings(books, cli)->Ok_0.0, cli.policy()) == excel_readings(
            books,
            cli,
        )->Ok_0.0,
{
    lemma_workbooks_pass_filters(books, books.len() as int, cli);
}

impl Workbook {
    /// The machines of the workbook that the run's filters keep.
    pub fn machines(&self, cli: &Cli) -> (machines: Result<Vec<Vinfo>, MyError>)
        ensures
            records_agree(machines, workbook_machines(self.deep_view().vinfo, cli.deep_view())),
    {
        match &self.vinfo {
            None => Err(MyError::VinfoError(String::from_str("vInfo sheet not found"))),
            Some(sheet) => {
                let machines = read_vinfo(sheet, cli.legacy, cli.include_powered_off)?;
                Ok(filter_inventory(&machines, cli))
            },
        }
    }

    /// The partitions of the workbook that the run uses.
    pub fn partitions(&self, cli: &Cli) -> (partitions: Result<Vec<Vpartition>, MyError>)
        ensures
            records_agree(
                partitions,
                workbook_partitions(self.deep_view().vpartition, cli.deep_view()),
            ),
    {
        if cli.do_not_use_vpartition {
            let none: Vec<Vpartition> = Vec::new();
            assert(none.deep_view() =~= Seq::<VpartitionView>::empty());
            return Ok(none);
        }
        match &self.vpartition {
            PartitionSheet::Present(sheet) => read_vpartition(
                sheet,
                cli.legacy,
                cli.include_powered_off,
            ),
            _ => Err(MyError::VpartitionError(String::from_str("vPartition sheet not found"))),
        }
    }

    /// Whether the run goes on without a partition sheet that this workbook
    /// lacks: it does where partitions are not used, and that is worth a
    /// notice.
    pub fn lacks_partitions(&self, cli: &Cli) -> (lacking: bool)
        ensures
            lacking == (self.deep_view().vpartition is Missing && cli.do_not_use_vpartition),
    {
        match &self.vpartition {
            PartitionSheet::Missing => cli.do_not_use_vpartition,
            _ => false,
        }
    }
}

/// Reads the machines and the partitions of the workbooks, in order. The
/// machines are those that the run's filters keep. The first error ends the
/// reading; a run without workbooks is an error.
pub fn get_excel(cli: &Cli, workbooks: &Vec<Workbook>) -> (readings: Result<
    (Vec<Vinfo>, Vec<Vpartition>),
    MyError,
>)
    ensures
        readings_agree(readings, excel_readings(workbooks.deep_view(), cli.deep_view())),
{
    if workbooks.len() == 0 {
        return Err(
            MyError::RvtoolsError(String::from_str("No RVTools file or files specified")),
        );
    }
    let ghost books = workbooks.deep_view();
    let mut info_vec: Vec<Vinfo> = Vec::new();
    let mut part_vec: Vec<Vpartition> = Vec::new();
    let mut b: usize = 0;
    assert(info_vec.deep_view() =~= Seq::<VinfoView>::empty());
    assert(part_vec.deep_view() =~= Seq::<VpartitionView>::empty());
    while b < workbooks.len()
        invariant
            b <= workbooks.len(),
            books == workbooks.deep_view(),
            workbooks_readings(books, b as int, cli.deep_view()) == Ok::<
                (Seq<VinfoView>, Seq<VpartitionView>),
                MyErrorView,
            >((info_vec.deep_view(), part_vec.deep_view())),
        decreases workbooks.len() - b,
    {
        let book = &workbooks[b];
        assert(book.deep_view() == books[b as int]);
        let ghost info_before = info_vec.deep_view();
        let ghost part_before = part_vec.deep_view();
        let mut machines = match book.machines(cli) {
            Ok(machines) => machines,
            Err(error) => {
                proof {
                    assert(workbooks_readings(books, b + 1, cli.deep_view()) is Err);
                    lemma_workbooks_fail(books, b + 1, books.len() as int, cli.deep_view());
                }
                return Err(error);
            },
        };
        let mut partitions = match book.partitions(cli) {
            Ok(partitions) => partitions,
            Err(error) => {
                proof {
                    assert(workbooks_readings(books, b + 1, cli.deep_view()) is Err);
                    lemma_workbooks_fail(books, b + 1, books.len() as int, cli.deep_view());
                }
                return Err(error);
            },
        };
        let ghost machines_view = machines.deep_view();
        let ghost partitions_view = partitions.deep_view();
        info_vec.append(&mut machines);
        part_vec.append(&mut partitions);
        proof {
            assert(info_vec.deep_view() =~= info_before + machines_view);
            assert(part_vec.deep_view() =~= part_before + partitions_view);
        }
        b = b + 1;
    }
    Ok((info_vec, part_vec))
}

} // verus!
