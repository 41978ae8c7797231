//! Sheets of typed cells, and the total conversions from a cell to the text
//! or the number that a record needs.

use crate::models::errors::{MyError, MyErrorView};
use vstd::prelude::*;
use vstd::string::*;

verus! {

/// One cell of a sheet.
#[derive(Debug, PartialEq, Eq)]
pub enum Cell {
    /// A text.
    Text(String),
    /// A capacity in whole MiB.
    Number(u64),
    /// Nothing.
    Empty,
    /// Anything else: a truth value, a date, an error.
    Other,
}

/// The mathematical value of a [`Cell`].
pub enum CellView {
    Text(Seq<char>),
    Number(u64),
    Empty,
    Other,
}

impl DeepView for Cell {
    type V = CellView;

    open spec fn deep_view(&self) -> CellView {
        match self {
            Cell::Text(text) => CellView::Text(text@),
            Cell::Number(number) => CellView::Number(*number),
            Cell::Empty => CellView::Empty,
            Cell::Other => CellView::Other,
        }
    }
}

impl View for Cell {
    type V = CellView;

    open spec fn view(&self) -> CellView {
        self.deep_view()
    }
}

/// A sheet: rows of cells, the first of which holds the column names.
#[derive(Debug, PartialEq, Eq)]
pub struct Sheet {
    pub rows: Vec<Vec<Cell>>,
}

impl DeepView for Sheet {
    type V = Seq<Seq<CellView>>;

    open spec fn deep_view(&self) -> Seq<Seq<CellView>> {
        self.rows.deep_view()
    }
}

impl View for Sheet {
    type V = Seq<Seq<CellView>>;

    open spec fn view(&self) -> Seq<Seq<CellView>> {
        self.deep_view()
    }
}

/// The text that a cell stands for: its text, `None` for an empty cell, and
/// no text for any other cell.
pub open spec fn text_of(cell: CellView) -> Option<Seq<char>> {
    match cell {
        CellView::Text(text) => Some(text),
        CellView::Empty => Some("None"@),
        _ => None,
    }
}

/// The number that a cell stands for: its number, 0 for an empty cell, and
/// no number for any other cell.
pub open spec fn number_of(cell: CellView) -> Option<u64> {
    match cell {
        CellView::Number(number) => Some(number),
        CellView::Empty => Some(0),
        _ => None,
    }
}

/// The cell of a row in the given column; a row that ends before the
/// column has an empty cell there.
pub open spec fn cell_at(row: Seq<CellView>, column: int) -> CellView {
    if 0 <= column < row.len() {
        row[column]
    } else {
        CellView::Empty
    }
}

/// `column` is where the name first stands in the sheet's first row.
pub open spec fn is_column_of(sheet: Seq<Seq<CellView>>, name: Seq<char>, column: int) -> bool {
    &&& sheet.len() > 0
    &&& 0 <= column < sheet[0].len()
    &&& sheet[0][column] == CellView::Text(name)
    &&& forall|c: int| 0 <= c < column ==> sheet[0][c] != CellView::Text(name)
}

/// The sheet's first row holds the name.
pub open spec fn has_column(sheet: Seq<Seq<CellView>>, name: Seq<char>) -> bool {
    sheet.len() > 0 && sheet[0].contains(CellView::Text(name))
}

/// Where a column of the given name stands in the sheet, if it has one.
pub open spec fn column_of(sheet: Seq<Seq<CellView>>, name: Seq<char>) -> Option<int> {
    if has_column(sheet, name) {
        Some(choose|column: int| is_column_of(sheet, name, column))
    } else {
        None
    }
}

/// A sheet has at most one first place for a name.
pub proof fn lemma_column_unique(sheet: Seq<Seq<CellView>>, name: Seq<char>, column: int)
    requires
        is_column_of(sheet, name, column),
    ensures
        column_of(sheet, name) == Some(column),
{
    let chosen = choose|c: int| is_column_of(sheet, name, c);
    assert(sheet[0].contains(CellView::Text(name)));
    if chosen < column {
        assert(sheet[0][chosen] != CellView::Text(name));
    } else if column < chosen {
        assert(sheet[0][column] != CellView::Text(name));
    }
}

/// Finds a column by its name.
pub trait ColPosition {
    /// Where the column of the given name stands.
    fn get_col_pos(&self, col_name: &String) -> Result<usize, MyError>;
}

impl ColPosition for Sheet {
    /// Where the name first stands in the sheet's first row. A sheet
    /// without that name, or without rows, has no such column.
    fn get_col_pos(&self, col_name: &String) -> (position: Result<usize, MyError>)
        ensures
            match position {
                Ok(column) => column_of(self.deep_view(), col_name@) == Some(column as int),
                Err(error) => {
                    &&& column_of(self.deep_view(), col_name@) is None
                    &&& error.deep_view() == MyErrorView::ColumnPosition(col_name@)
                },
            },
    {
        if self.rows.len() > 0 {
            let header = &self.rows[0];
            let ghost names = self.deep_view()[0];
            assert(names == header.deep_view());
            let mut column: usize = 0;
            while column < header.len()
                invariant
                    column <= header.len(),
                    self.deep_view().len() > 0,
                    names == self.deep_view()[0],
                    names == header.deep_view(),
                    forall|c: int| 0 <= c < column ==> names[c] != CellView::Text(col_name@),
                decreases header.len() - column,
            {
                assert(names[column as int] == header[column as int].deep_view());
                if let Cell::Text(text) = &header[column] {
                    if *text == *col_name {
                        proof {
                            lemma_column_unique(self.deep_view(), col_name@, column as int);
                        }
                        return Ok(column);
                    }
                }
                column = column + 1;
            }
        }
        Err(MyError::ColumnPosition(col_name.clone()))
    }
}

/// Reads a cell as text.
pub trait GetString {
    /// The text of the cell; `item` and `row` say where the cell stands, for
    /// the error.
    fn get_string_value(&self, item: String, row: usize) -> Result<String, MyError>;
}

impl GetString for Cell {
    /// The text that the cell stands for. A cell that stands for none is an
    /// error that carries `item` and `row`.
    fn get_string_value(&self, item: String, row: usize) -> (value: Result<String, MyError>)
        ensures
            match value {
                Ok(text) => text_of(self.deep_view()) == Some(text@),
                Err(error) => {
                    &&& text_of(self.deep_view()) is None
                    &&& error.deep_view() == (MyErrorView::EnumToString { item: item@, row })
                },
            },
    {
        match self {
            Cell::Text(text) => Ok(text.clone()),
            Cell::Empty => Ok(String::from_str("None")),
            _ => Err(MyError::EnumToString { item, row }),
        }
    }
}

/// Reads a cell as a capacity.
pub trait GetFloat {
    /// The capacity in the cell, in MiB; `item` and `row` say where the cell
    /// stands, for the error.
    fn get_float_value(&self, item: String, row: usize) -> Result<u64, MyError>;
}

impl GetFloat for Cell {
    /// The number that the cell stands for. A cell that stands for none is
    /// an error that carries `item` and `row`.
    fn get_float_value(&self, item: String, row: usize) -> (value: Result<u64, MyError>)
        ensures
            match value {
                Ok(number) => number_of(self.deep_view()) == Some(number),
                Err(error) => {
                    &&& number_of(self.deep_view()) is None
                    &&& error.deep_view() == (MyErrorView::EnumToFloat { item: item@, row })
                },
            },
    {
        match self {
            Cell::Number(number) => Ok(*number),
            Cell::Empty => Ok(0),
            _ => Err(MyError::EnumToFloat { item, row }),
        }
    }
}

} // verus!
