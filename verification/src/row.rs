//! Rows and their cells.

use vstd::prelude::*;

verus! {

/// A typed value of one column.
#[derive(Clone, Debug, PartialEq, Eq)]
pub enum Cell {
    Bool(bool),
    I64(i64),
    String(String),
    /// Seconds since the Unix epoch.
    Timestamp(i64),
    /// A JSON document, as text.
    Json(String),
    /// A value of a type that the adapter neither reads nor sends.
    Other,
}

/// The mathematical value of a [`Cell`].
pub enum CellV {
    Bool(bool),
    I64(i64),
    String(Seq<char>),
    Timestamp(i64),
    Json(Seq<char>),
    Other,
}

impl View for Cell {
    type V = CellV;

    open spec fn view(&self) -> CellV {
        match *self {
            Cell::Bool(b) => CellV::Bool(b),
            Cell::I64(i) => CellV::I64(i),
            Cell::String(s) => CellV::String(s@),
            Cell::Timestamp(t) => CellV::Timestamp(t),
            Cell::Json(t) => CellV::Json(t@),
            Cell::Other => CellV::Other,
        }
    }
}

/// The view of a cell that may be empty.
pub open spec fn cell_view(cell: Option<Cell>) -> Option<CellV> {
    match cell {
        Some(c) => Some(c@),
        None => None,
    }
}

/// One column of a row: its name and its cell, empty or not.
#[derive(Clone, Debug, PartialEq, Eq)]
pub struct Column {
    pub name: String,
    pub cell: Option<Cell>,
}

impl View for Column {
    type V = (Seq<char>, Option<CellV>);

    open spec fn view(&self) -> (Seq<char>, Option<CellV>) {
        (self.name@, cell_view(self.cell))
    }
}

/// A row as a sequence of column names and cells.
pub type RowV = Seq<(Seq<char>, Option<CellV>)>;

/// A row: its columns in order.
#[derive(Clone, Debug, PartialEq, Eq)]
pub struct Row {
    pub columns: Vec<Column>,
}

impl View for Row {
    type V = RowV;

    open spec fn view(&self) -> RowV {
        self.columns@.map_values(|c: Column| c@)
    }
}

/// The views of a list of rows.
pub open spec fn rows_view(rows: Seq<Row>) -> Seq<RowV> {
    rows.map_values(|r: Row| r@)
}

impl Row {
    /// A row without columns.
    pub fn new() -> (r: Row)
        ensures
            r@ == Seq::<(Seq<char>, Option<CellV>)>::empty(),
    {
        let row = Row { columns: Vec::new() };
        proof {
            assert(row@ =~= Seq::<(Seq<char>, Option<CellV>)>::empty());
        }
        row
    }

    /// Adds a column at the end.
    pub fn push(&mut self, name: &str, cell: Option<Cell>)
        ensures
            final(self)@ == old(self)@.push((name@, cell_view(cell))),
    {
        self.columns.push(Column { name: name.to_owned(), cell });
        proof {
            assert(self@ =~= old(self)@.push((name@, cell_view(cell))));
        }
    }

    /// The number of columns.
    pub fn len(&self) -> (n: usize)
        ensures
            n == self@.len(),
    {
        self.columns.len()
    }
}

} // verus!
