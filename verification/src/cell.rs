//! Cells and rows: the dynamically-typed input side of the engine.
//!
//! A row is an ordered sequence of cells; a cell holds exactly one of five
//! primitive value kinds. Rows are read-only once built and are consumed by
//! the traversal drivers through `cell_at` alone.

use vstd::prelude::*;

verus! {

/// One primitive value from a database row.
///
/// `Real` carries the raw bit pattern of the 64-bit floating-point value,
/// so that the engine itself stays free of floating-point arithmetic; the
/// caller converts to and from bits at the boundary. `Text` and `Blob` hold
/// owned copies of the cell's bytes; the bytes of a `Text` cell are expected
/// to be UTF-8, but that is only checked when the cell is decoded.
#[derive(Debug, Clone, PartialEq, Eq)]
pub enum Cell {
    Null,
    Integer(i64),
    Real(u64),
    Text(Vec<u8>),
    Blob(Vec<u8>),
}

/// An ordered sequence of cells, addressable by zero-based index.
#[derive(Debug, Clone, PartialEq, Eq)]
pub struct Row {
    cells: Vec<Cell>,
}

impl View for Row {
    type V = Seq<Cell>;

    closed spec fn view(&self) -> Seq<Cell> {
        self.cells@
    }
}

impl Row {
    /// Build a row from its cells, in column order.
    pub fn new(cells: Vec<Cell>) -> (r: Row)
        ensures
            r@ == cells@,
    {
        Row { cells }
    }

    /// The number of cells in the row.
    pub fn len(&self) -> (n: usize)
        ensures
            n == self@.len(),
    {
        self.cells.len()
    }

    /// The cell at a zero-based index, or `None` if the index is out of
    /// range. The `None` answer is the sequence-termination signal of the
    /// positional driver, not an error.
    pub fn cell_at(&self, index: usize) -> (r: Option<&Cell>)
        ensures
            index < self@.len() ==> (r matches Some(c) && *c == self@[index as int]),
            index >= self@.len() ==> r is None,
    {
        if index < self.cells.len() {
            Some(&self.cells[index])
        } else {
            None
        }
    }
}

} // verus!
