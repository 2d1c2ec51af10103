//! The engine's error taxonomy.
//!
//! Configuration errors are fatal circuit-authoring mistakes caught while the
//! constraint system is being built.  The three violation variants are
//! ordinary verification outcomes: an invalid assignment is a result a caller
//! branches on, never a crash.

use crate::column::Cell;
use vstd::prelude::*;

verus! {

/// Everything that configuration or verification can report.
#[derive(Clone, Copy, Debug, PartialEq, Eq, Structural)]
pub enum Error {
    /// A gate declared at configure time referenced an unallocated column, or
    /// named a selector that is not a selector column.  `gate` is the index
    /// that gate would have had; `column` is the offending column index.
    ConfigurationError { gate: usize, column: usize },
    /// While gate `gate` was evaluated at `row`, a query reached a cell that
    /// was never assigned, or a row outside the table.
    UnassignedCell { gate: usize, row: usize },
    /// Gate `gate` evaluated to a nonzero value at `row`.
    GateViolation { gate: usize, row: usize },
    /// The two cells of an equality constraint hold different values.
    CopyViolation { left: Cell, right: Cell },
    /// The cell bound to the instance column at `row` differs from the public
    /// input vector's value at `row`, or the vector has no value for `row`.
    PublicInputMismatch { row: usize },
}

} // verus!
