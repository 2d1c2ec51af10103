//! The assignment table and the sequential-row layouter.
//!
//! Synthesis fills an [`Assignment`]: a write-once table of optional field
//! values, one column per allocated column of the constraint system, together
//! with the equality (copy) constraints collected along the way.  Rows are
//! handed out to regions back to back, in call order: a region claims the next
//! unused rows, and every write of the region addresses rows relative to the
//! region's anchor.

use crate::column::Cell;
use crate::column::Column;
use crate::column::ColumnKind;
use crate::cs::allocated;
use crate::cs::cs_wf;
use crate::cs::ConstraintSystem;
use crate::expr::table_values_ok;
use crate::expr::table_view_of;
use crate::expr::TableView;
use crate::field::is_elem;
use vstd::prelude::*;

verus! {

/// A handle to a placed value: the cell it sits in, and the concrete value
/// (absent during a value-independent pass), so that later instructions can
/// copy it or recompute with it without reading the table back.
#[derive(Clone, Copy, Debug, PartialEq, Eq, Structural)]
pub struct AssignedCell {
    pub cell: Cell,
    pub value: Option<u64>,
}

/// A table that differs from a well-valued one in a single cell, holding a
/// field element there, is well-valued itself.
proof fn lemma_point_update_keeps_values_ok(
    ot: TableView,
    t: TableView,
    col: int,
    row: int,
    value: Option<u64>,
    p: u64,
)
    requires
        table_values_ok(ot, p),
        t.len() == ot.len(),
        forall|c: int| 0 <= c < t.len() ==> #[trigger] t[c].len() == ot[c].len(),
        forall|c: int, r: int|
            0 <= c < t.len() && 0 <= r < t[c].len() && !(c == col && r == row) ==> #[trigger] t[c][r]
                == ot[c][r],
        0 <= col < t.len() && 0 <= row < t[col].len() ==> t[col][row] == value,
        value is Some ==> is_elem(value->0, p),
    ensures
        table_values_ok(t, p),
{
    assert forall|c: int, r: int|
        0 <= c < t.len() && 0 <= r < t[c].len() && t[c][r] is Some implies is_elem(
        #[trigger] t[c][r]->0,
        p,
    ) by {
        if !(c == col && r == row) {
            assert(t[c][r] == ot[c][r]);
        }
    }
}

/// The full assignment table of one synthesis run, plus the copy constraints
/// declared while it was filled and the layouter's row cursor.
pub struct Assignment {
    pub p: u64,
    pub kinds: Vec<ColumnKind>,
    pub equality: Vec<bool>,
    pub n_rows: usize,
    pub cells: Vec<Vec<Option<u64>>>,
    pub copies: Vec<(Cell, Cell)>,
    pub next_row: usize,
}

impl Assignment {
    /// The mathematical contents of the table.
    pub open spec fn tab(self) -> TableView {
        table_view_of(self.cells)
    }

    /// `cell` addresses a real table entry.
    pub open spec fn cell_in_bounds(self, cell: Cell) -> bool {
        cell.column < self.kinds@.len() && cell.row < self.n_rows
    }

    /// The table's internal invariant: one inner vector of `n_rows` entries
    /// per column, every assigned value a field element, every recorded copy
    /// constraint within bounds, and the row cursor within the table.
    pub open spec fn wf(self) -> bool {
        &&& self.p >= 2
        &&& self.cells@.len() == self.kinds@.len()
        &&& self.equality@.len() == self.kinds@.len()
        &&& forall|c: int|
            0 <= c < self.cells@.len() ==> (#[trigger] self.cells@[c])@.len() == self.n_rows
        &&& table_values_ok(self.tab(), self.p)
        &&& self.next_row <= self.n_rows
        &&& forall|i: int|
            0 <= i < self.copies@.len() ==> self.cell_in_bounds((#[trigger] self.copies@[i]).0)
                && self.cell_in_bounds(self.copies@[i].1)
    }

    /// The value handles carried over from `h` are consistent with this table.
    pub open spec fn handle_wf(self, h: AssignedCell) -> bool {
        &&& self.cell_in_bounds(h.cell)
        &&& h.value is Some ==> is_elem(h.value->0, self.p)
    }

    /// A fresh, fully unassigned table of `n_rows` rows for the columns of
    /// `cs`, with no copy constraints and the row cursor at the first row.
    pub fn new(cs: &ConstraintSystem, n_rows: usize) -> (asg: Self)
        requires
            cs_wf(*cs),
        ensures
            asg.wf(),
            asg.p == cs.p,
            asg.kinds@ == cs.kinds@,
            asg.equality@ == cs.equality@,
            asg.n_rows == n_rows,
            asg.next_row == 0,
            asg.copies@ =~= Seq::<(Cell, Cell)>::empty(),
            forall|c: int, r: int|
                0 <= c < cs.kinds@.len() && 0 <= r < n_rows ==> #[trigger] asg.tab()[c][r] is None,
    {
        let mut cells: Vec<Vec<Option<u64>>> = Vec::new();
        let ncols = cs.kinds.len();
        let mut c: usize = 0;
        while c < ncols
            invariant
                c <= ncols,
                cells@.len() == c,
                forall|i: int|
                    0 <= i < c ==> (#[trigger] cells@[i])@ =~= Seq::new(
                        n_rows as nat,
                        |r: int| None::<u64>,
                    ),
            decreases ncols - c,
        {
            let col: Vec<Option<u64>> = vec![None; n_rows];
            cells.push(col);
            c = c + 1;
        }
        let asg = Assignment {
            p: cs.p,
            kinds: cs.kinds.clone(),
            equality: cs.equality.clone(),
            n_rows,
            cells,
            copies: Vec::new(),
            next_row: 0,
        };
        proof {
            assert(asg.kinds@ =~= cs.kinds@);
            assert(asg.equality@ =~= cs.equality@);
        }
        asg
    }

    /// Claims the next `height` unused rows for a region and returns the
    /// region's anchor row.
    pub fn alloc_region(&mut self, height: usize) -> (anchor: usize)
        requires
            old(self).wf(),
            old(self).next_row + height <= old(self).n_rows,
        ensures
            final(self).wf(),
            anchor == old(self).next_row,
            final(self).next_row == old(self).next_row + height,
            *final(self) == (Assignment { next_row: final(self).next_row, ..*old(self) }),
    {
        let anchor = self.next_row;
        self.next_row = self.next_row + height;
        anchor
    }

    /// Places `value` into the given non-selector column at `row` and returns
    /// a handle to the cell.  A `None` value leaves the cell unassigned, as in
    /// a value-independent pass.
    pub fn assign(&mut self, column: Column, row: usize, value: Option<u64>) -> (res: AssignedCell)
        requires
            old(self).wf(),
            allocated(old(self).kinds@, column),
            column.kind != ColumnKind::Selector,
            row < old(self).n_rows,
            value is Some ==> is_elem(value->0, old(self).p),
        ensures
            final(self).wf(),
            final(self).p == old(self).p,
            final(self).kinds@ == old(self).kinds@,
            final(self).equality@ == old(self).equality@,
            final(self).n_rows == old(self).n_rows,
            final(self).next_row == old(self).next_row,
            final(self).copies@ == old(self).copies@,
            final(self).tab().len() == old(self).tab().len(),
            forall|c: int, r: int|
                0 <= c < old(self).kinds@.len() && 0 <= r < old(self).n_rows && !(c
                    == column.index && r == row) ==> final(self).tab()[c][r] == old(
                    self,
                ).tab()[c][r],
            final(self).tab()[column.index as int][row as int] == value,
            res.cell == (Cell { column: column.index, row }),
            res.value == value,
            final(self).handle_wf(res),
    {
        self.cells[column.index][row] = value;
        proof {
            lemma_point_update_keeps_values_ok(
                old(self).tab(),
                self.tab(),
                column.index as int,
                row as int,
                value,
                self.p,
            );
        }
        AssignedCell { cell: Cell { column: column.index, row }, value }
    }

    /// Activates the selector column `selector` at `row`.
    pub fn enable_selector(&mut self, selector: Column, row: usize)
        requires
            old(self).wf(),
            allocated(old(self).kinds@, selector),
            selector.kind == ColumnKind::Selector,
            row < old(self).n_rows,
        ensures
            final(self).wf(),
            final(self).p == old(self).p,
            final(self).kinds@ == old(self).kinds@,
            final(self).equality@ == old(self).equality@,
            final(self).n_rows == old(self).n_rows,
            final(self).next_row == old(self).next_row,
            final(self).copies@ == old(self).copies@,
            final(self).tab().len() == old(self).tab().len(),
            forall|c: int, r: int|
                0 <= c < old(self).kinds@.len() && 0 <= r < old(self).n_rows && !(c
                    == selector.index && r == row) ==> final(self).tab()[c][r] == old(
                    self,
                ).tab()[c][r],
            final(self).tab()[selector.index as int][row as int] == Some(1u64),
    {
        self.cells[selector.index][row] = Some(1);
        proof {
            lemma_point_update_keeps_values_ok(
                old(self).tab(),
                self.tab(),
                selector.index as int,
                row as int,
                Some(1u64),
                self.p,
            );
        }
    }

    /// Copies the value of `src` into a fresh cell of an equality-enabled,
    /// non-selector column and declares the two cells equal.
    pub fn copy_from(&mut self, src: &AssignedCell, column: Column, row: usize) -> (res:
        AssignedCell)
        requires
            old(self).wf(),
            old(self).handle_wf(*src),
            allocated(old(self).kinds@, column),
            column.kind != ColumnKind::Selector,
            row < old(self).n_rows,
            old(self).equality@[column.index as int],
            old(self).equality@[src.cell.column as int],
        ensures
            final(self).wf(),
            final(self).p == old(self).p,
            final(self).kinds@ == old(self).kinds@,
            final(self).equality@ == old(self).equality@,
            final(self).n_rows == old(self).n_rows,
            final(self).next_row == old(self).next_row,
            final(self).tab().len() == old(self).tab().len(),
            forall|c: int, r: int|
                0 <= c < old(self).kinds@.len() && 0 <= r < old(self).n_rows && !(c
                    == column.index && r == row) ==> final(self).tab()[c][r] == old(
                    self,
                ).tab()[c][r],
            final(self).tab()[column.index as int][row as int] == src.value,
            final(self).copies@ == old(self).copies@.push(
                (src.cell, (Cell { column: column.index, row })),
            ),
            res.cell == (Cell { column: column.index, row }),
            res.value == src.value,
            final(self).handle_wf(res),
    {
        let res = self.assign(column, row, src.value);
        self.copies.push((src.cell, res.cell));
        res
    }

    /// Declares `cell` equal to the instance column's cell at `row`: the value
    /// held there must match the public input vector's entry for `row`.
    pub fn constrain_instance(&mut self, cell: Cell, instance: Column, row: usize)
        requires
            old(self).wf(),
            old(self).cell_in_bounds(cell),
            allocated(old(self).kinds@, instance),
            instance.kind == ColumnKind::Instance,
            row < old(self).n_rows,
            old(self).equality@[instance.index as int],
            old(self).equality@[cell.column as int],
        ensures
            final(self).wf(),
            final(self).copies@ == old(self).copies@.push(
                (cell, (Cell { column: instance.index, row })),
            ),
            *final(self) == (Assignment { copies: final(self).copies, ..*old(self) }),
    {
        self.copies.push((cell, Cell { column: instance.index, row }));
    }
}

} // verus!
