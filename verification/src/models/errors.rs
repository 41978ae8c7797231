//! What can go wrong while records are read.

use vstd::prelude::*;

verus! {

/// The errors of a run. None is retried; each ends the run.
#[derive(Debug, PartialEq, Eq)]
pub enum MyError {
    /// A cell that should hold text holds something else. `item` names the
    /// sheet and the column, `row` is the row's number in the sheet.
    EnumToString { item: String, row: usize },
    /// A cell that should hold a number holds something else. `item` names
    /// the sheet and the column, `row` is the row's number in the sheet.
    EnumToFloat { item: String, row: usize },
    /// A sheet has no column of a name that is needed. The text names the
    /// column and, where the sheet is known, the sheet.
    ColumnPosition(String),
    /// The workbook could not be opened or read.
    ExcelError(String),
    /// The inventory sheet is missing.
    VinfoError(String),
    /// The partition sheet cannot be read.
    VpartitionError(String),
    /// No workbook was given.
    RvtoolsError(String),
}

/// The mathematical value of a [`MyError`].
pub enum MyErrorView {
    EnumToString { item: Seq<char>, row: usize },
    EnumToFloat { item: Seq<char>, row: usize },
    ColumnPosition(Seq<char>),
    ExcelError(Seq<char>),
    VinfoError(Seq<char>),
    VpartitionError(Seq<char>),
    RvtoolsError(Seq<char>),
}

impl DeepView for MyError {
    type V = MyErrorView;

    open spec fn deep_view(&self) -> MyErrorView {
        match self {
            MyError::EnumToString { item, row } => MyErrorView::EnumToString {
                item: item@,
                row: *row,
            },
            MyError::EnumToFloat { item, row } => MyErrorView::EnumToFloat {
                item: item@,
                row: *row,
            },
            MyError::ColumnPosition(column) => MyErrorView::ColumnPosition(column@),
            MyError::ExcelError(message) => MyErrorView::ExcelError(message@),
            MyError::VinfoError(message) => MyErrorView::VinfoError(message@),
            MyError::VpartitionError(message) => MyErrorView::VpartitionError(message@),
            MyError::RvtoolsError(message) => MyErrorView::RvtoolsError(message@),
        }
    }
}

impl View for MyError {
    type V = MyErrorView;

    open spec fn view(&self) -> MyErrorView {
        self.deep_view()
    }
}

} // verus!
