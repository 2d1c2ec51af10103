//! Typed column handles and cell addresses.
//!
//! A column is identified by its index into the constraint system's column
//! table together with its kind; the kind of a column never changes after
//! allocation.  A cell addresses one value of the assignment table by column
//! index and absolute row.

use vstd::prelude::*;

verus! {

/// The four kinds of columns.
///
/// Fixed columns hold circuit constants baked in at configuration time,
/// advice columns hold private witness values, selector columns hold the 0/1
/// flags that activate gates, and instance columns carry the public inputs
/// supplied at verification time.
#[derive(Clone, Copy, Debug, PartialEq, Eq, Structural)]
pub enum ColumnKind {
    Fixed,
    Advice,
    Selector,
    Instance,
}

/// A handle for an allocated column: its index and its kind.
#[derive(Clone, Copy, Debug, PartialEq, Eq, Structural)]
pub struct Column {
    pub index: usize,
    pub kind: ColumnKind,
}

/// The address of one cell of the assignment table.
#[derive(Clone, Copy, Debug, PartialEq, Eq, Structural)]
pub struct Cell {
    pub column: usize,
    pub row: usize,
}

} // verus!
