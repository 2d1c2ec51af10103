//! The constraint checker: holds a finished assignment, the declared gates and
//! copy constraints, and the claimed public inputs against each other.
//!
//! Checking proceeds in three deterministic passes: every gate at every row
//! where its selector is active, in gate then row order; every equality
//! constraint between non-instance cells, in declaration order; and every
//! equality constraint binding a cell to the instance column, also in
//! declaration order.  The first violation found is returned; the outcome is a
//! pure function of the inputs.

use crate::column::Cell;
use crate::column::ColumnKind;
use crate::cs::cs_wf;
use crate::cs::ConstraintSystem;
use crate::cs::Gate;
use crate::error::Error;
use crate::expr::eval;
use crate::expr::eval_expr;
use crate::expr::TableView;
use crate::assign::Assignment;
use vstd::prelude::*;

verus! {

/// The selector in column `sel` is active at `row`.
pub open spec fn selector_active(tab: TableView, sel: int, row: int) -> bool {
    0 <= sel < tab.len() && 0 <= row < tab[sel].len() && tab[sel][row] == Some(1u64)
}

/// The outcome of checking the polynomials of gate `gi` at `row`, from index
/// `j` on: the first polynomial that fails to evaluate reports an unassigned
/// cell, the first nonzero one reports a gate violation.
pub open spec fn polys_result(g: Gate, gi: int, tab: TableView, row: int, p: u64, j: int) -> Result<
    (),
    Error,
>
    decreases g.polys@.len() - j,
{
    if j < 0 || j >= g.polys@.len() {
        Ok(())
    } else {
        match eval_expr(g.polys@[j], tab, row, p) {
            None => Err(Error::UnassignedCell { gate: gi as usize, row: row as usize }),
            Some(v) => if v != 0 {
                Err(Error::GateViolation { gate: gi as usize, row: row as usize })
            } else {
                polys_result(g, gi, tab, row, p, j + 1)
            },
        }
    }
}

/// The outcome of checking gate `gi` at one row: nothing is owed where the
/// gate's selector is not active.
pub open spec fn gate_row_result(g: Gate, gi: int, tab: TableView, row: int, p: u64) -> Result<
    (),
    Error,
> {
    if selector_active(tab, g.selector as int, row) {
        polys_result(g, gi, tab, row, p, 0)
    } else {
        Ok(())
    }
}

/// The outcome of checking gate `gi` at every row from `row` up to `n_rows`.
pub open spec fn gate_rows_result(
    g: Gate,
    gi: int,
    tab: TableView,
    n_rows: int,
    p: u64,
    row: int,
) -> Result<(), Error>
    decreases n_rows - row,
{
    if row >= n_rows {
        Ok(())
    } else {
        match gate_row_result(g, gi, tab, row, p) {
            Ok(()) => gate_rows_result(g, gi, tab, n_rows, p, row + 1),
            Err(e) => Err(e),
        }
    }
}

/// The outcome of checking every gate from `gi` on, each over all rows.
pub open spec fn gates_result(
    gates: Seq<Gate>,
    tab: TableView,
    n_rows: int,
    p: u64,
    gi: int,
) -> Result<(), Error>
    decreases gates.len() - gi,
{
    if gi < 0 || gi >= gates.len() {
        Ok(())
    } else {
        match gate_rows_result(gates[gi], gi, tab, n_rows, p, 0) {
            Ok(()) => gates_result(gates, tab, n_rows, p, gi + 1),
            Err(e) => Err(e),
        }
    }
}

/// `cell` lies in an instance column.
pub open spec fn is_instance_cell(kinds: Seq<ColumnKind>, cell: Cell) -> bool {
    kinds[cell.column as int] == ColumnKind::Instance
}

/// The outcome of checking the equality constraints between non-instance
/// cells, from index `i` on: the stored values of the two cells must agree
/// (two unassigned cells agree vacuously).
pub open spec fn copies_result(
    kinds: Seq<ColumnKind>,
    tab: TableView,
    copies: Seq<(Cell, Cell)>,
    i: int,
) -> Result<(), Error>
    decreases copies.len() - i,
{
    if i < 0 || i >= copies.len() {
        Ok(())
    } else {
        let (a, b) = copies[i];
        if !is_instance_cell(kinds, a) && !is_instance_cell(kinds, b) && tab[a.column as int][a.row as int]
            != tab[b.column as int][b.row as int] {
            Err(Error::CopyViolation { left: a, right: b })
        } else {
            copies_result(kinds, tab, copies, i + 1)
        }
    }
}

/// The outcome of checking one equality constraint against the public input
/// vector, for each of its sides that lies in an instance column: the vector
/// must reach that row and the other side's stored value must equal the
/// vector's value there.
pub open spec fn pair_instance_result(
    kinds: Seq<ColumnKind>,
    tab: TableView,
    public: Seq<u64>,
    a: Cell,
    b: Cell,
) -> Result<(), Error> {
    if is_instance_cell(kinds, a) && !(a.row < public.len() && instance_side_value(
        kinds,
        tab,
        public,
        b,
    ) == Some(public[a.row as int])) {
        Err(Error::PublicInputMismatch { row: a.row })
    } else if is_instance_cell(kinds, b) && !(b.row < public.len() && instance_side_value(
        kinds,
        tab,
        public,
        a,
    ) == Some(public[b.row as int])) {
        Err(Error::PublicInputMismatch { row: b.row })
    } else {
        Ok(())
    }
}

/// The value a cell contributes to an instance binding: an instance cell reads
/// from the public input vector, every other cell from the table.
pub open spec fn instance_side_value(
    kinds: Seq<ColumnKind>,
    tab: TableView,
    public: Seq<u64>,
    cell: Cell,
) -> Option<u64> {
    if is_instance_cell(kinds, cell) {
        if cell.row < public.len() {
            Some(public[cell.row as int])
        } else {
            None
        }
    } else {
        tab[cell.column as int][cell.row as int]
    }
}

/// The outcome of checking the instance bindings among the equality
/// constraints, from index `i` on.
pub open spec fn instance_result(
    kinds: Seq<ColumnKind>,
    tab: TableView,
    copies: Seq<(Cell, Cell)>,
    public: Seq<u64>,
    i: int,
) -> Result<(), Error>
    decreases copies.len() - i,
{
    if i < 0 || i >= copies.len() {
        Ok(())
    } else {
        let (a, b) = copies[i];
        match pair_instance_result(kinds, tab, public, a, b) {
            Ok(()) => instance_result(kinds, tab, copies, public, i + 1),
            Err(e) => Err(e),
        }
    }
}

/// The verifier's full outcome: gates first, then the copy pass, then the
/// instance pass, each reporting its first violation.
pub open spec fn verify_result(
    gates: Seq<Gate>,
    kinds: Seq<ColumnKind>,
    tab: TableView,
    copies: Seq<(Cell, Cell)>,
    public: Seq<u64>,
    n_rows: int,
    p: u64,
) -> Result<(), Error> {
    match gates_result(gates, tab, n_rows, p, 0) {
        Err(e) => Err(e),
        Ok(()) => match copies_result(kinds, tab, copies, 0) {
            Err(e) => Err(e),
            Ok(()) => instance_result(kinds, tab, copies, public, 0),
        },
    }
}

/// Every gate holds at every row where its selector is active: each of its
/// polynomials evaluates, and evaluates to the additive identity.
pub open spec fn gates_ok(gates: Seq<Gate>, tab: TableView, n_rows: int, p: u64) -> bool {
    forall|gi: int, row: int, j: int|
        0 <= gi < gates.len() && 0 <= row < n_rows && 0 <= j < gates[gi].polys@.len()
            && selector_active(tab, gates[gi].selector as int, row) ==> #[trigger] eval_expr(
            gates[gi].polys@[j],
            tab,
            row,
            p,
        ) == Some(0u64)
}

/// Every equality constraint between non-instance cells relates cells with
/// the same stored value.
pub open spec fn copies_ok(kinds: Seq<ColumnKind>, tab: TableView, copies: Seq<(Cell, Cell)>) -> bool {
    forall|i: int|
        0 <= i < copies.len() && !is_instance_cell(kinds, (#[trigger] copies[i]).0)
            && !is_instance_cell(kinds, copies[i].1) ==> tab[copies[i].0.column as int][copies[i].0.row as int]
            == tab[copies[i].1.column as int][copies[i].1.row as int]
}

/// Every instance binding among the equality constraints matches the public
/// input vector.
pub open spec fn instance_ok(
    kinds: Seq<ColumnKind>,
    tab: TableView,
    copies: Seq<(Cell, Cell)>,
    public: Seq<u64>,
) -> bool {
    forall|i: int|
        0 <= i < copies.len() ==> pair_instance_result(
            kinds,
            tab,
            public,
            (#[trigger] copies[i]).0,
            copies[i].1,
        ) is Ok
}

/// Checking the polynomials of one gate at one row, from `j` on, passes
/// exactly when each of them evaluates to the additive identity.
pub proof fn lemma_polys_result_ok_iff(g: Gate, gi: int, tab: TableView, row: int, p: u64, j: int)
    requires
        0 <= j,
    ensures
        polys_result(g, gi, tab, row, p, j) is Ok <==> forall|k: int|
            j <= k < g.polys@.len() ==> #[trigger] eval_expr(g.polys@[k], tab, row, p)
                == Some(0u64),
    decreases g.polys@.len() - j,
{
    if j < g.polys@.len() {
        lemma_polys_result_ok_iff(g, gi, tab, row, p, j + 1);
    }
}

/// One gate's row pass from `row` on passes exactly when that gate holds at
/// every remaining row where its selector is active.
pub proof fn lemma_gate_rows_result_ok_iff(
    g: Gate,
    gi: int,
    tab: TableView,
    n_rows: int,
    p: u64,
    row: int,
)
    requires
        0 <= row,
    ensures
        gate_rows_result(g, gi, tab, n_rows, p, row) is Ok <==> forall|r: int, j: int|
            row <= r < n_rows && 0 <= j < g.polys@.len() && selector_active(
                tab,
                g.selector as int,
                r,
            ) ==> #[trigger] eval_expr(g.polys@[j], tab, r, p) == Some(0u64),
    decreases n_rows - row,
{
    if row < n_rows {
        lemma_polys_result_ok_iff(g, gi, tab, row, p, 0);
        lemma_gate_rows_result_ok_iff(g, gi, tab, n_rows, p, row + 1);
        if gate_rows_result(g, gi, tab, n_rows, p, row) is Ok {
            assert forall|r: int, j: int|
                row <= r < n_rows && 0 <= j < g.polys@.len() && selector_active(
                    tab,
                    g.selector as int,
                    r,
                ) implies #[trigger] eval_expr(g.polys@[j], tab, r, p) == Some(0u64) by {
                if r == row {
                    assert(polys_result(g, gi, tab, row, p, 0) is Ok);
                }
            }
        }
    }
}

/// Checking gates from `gi` on passes exactly when every remaining gate holds
/// wherever its selector is active.
pub proof fn lemma_gates_result_ok_iff(gates: Seq<Gate>, tab: TableView, n_rows: int, p: u64, gi: int)
    requires
        0 <= gi,
        0 <= n_rows,
    ensures
        gates_result(gates, tab, n_rows, p, gi) is Ok <==> forall|g: int, row: int, j: int|
            gi <= g < gates.len() && 0 <= row < n_rows && 0 <= j < gates[g].polys@.len()
                && selector_active(tab, gates[g].selector as int, row) ==> #[trigger] eval_expr(
                gates[g].polys@[j],
                tab,
                row,
                p,
            ) == Some(0u64),
    decreases gates.len() - gi,
{
    if gi < gates.len() {
        lemma_gate_rows_result_ok_iff(gates[gi], gi, tab, n_rows, p, 0);
        lemma_gates_result_ok_iff(gates, tab, n_rows, p, gi + 1);
        if gates_result(gates, tab, n_rows, p, gi) is Ok {
            assert forall|g: int, row: int, j: int|
                gi <= g < gates.len() && 0 <= row < n_rows && 0 <= j < gates[g].polys@.len()
                    && selector_active(tab, gates[g].selector as int, row) implies #[trigger] eval_expr(
                gates[g].polys@[j],
                tab,
                row,
                p,
            ) == Some(0u64) by {
                if g == gi {
                    assert(gate_rows_result(gates[gi], gi, tab, n_rows, p, 0) is Ok);
                }
            }
        }
    }
}

/// The copy pass from `i` on passes exactly when every remaining non-instance
/// equality constraint relates cells with the same stored value.
pub proof fn lemma_copies_result_ok_iff(
    kinds: Seq<ColumnKind>,
    tab: TableView,
    copies: Seq<(Cell, Cell)>,
    i: int,
)
    requires
        0 <= i,
    ensures
        copies_result(kinds, tab, copies, i) is Ok <==> forall|k: int|
            i <= k < copies.len() && !is_instance_cell(kinds, (#[trigger] copies[k]).0)
                && !is_instance_cell(kinds, copies[k].1)
                ==> tab[copies[k].0.column as int][copies[k].0.row as int]
                == tab[copies[k].1.column as int][copies[k].1.row as int],
    decreases copies.len() - i,
{
    if i < copies.len() {
        lemma_copies_result_ok_iff(kinds, tab, copies, i + 1);
    }
}

/// Whatever the copy pass reports is a copy violation.
pub proof fn lemma_copies_result_err_is_copy_violation(
    kinds: Seq<ColumnKind>,
    tab: TableView,
    copies: Seq<(Cell, Cell)>,
    i: int,
)
    requires
        0 <= i,
    ensures
        copies_result(kinds, tab, copies, i) is Err ==> copies_result(
            kinds,
            tab,
            copies,
            i,
        )->Err_0 matches Error::CopyViolation { .. },
    decreases copies.len() - i,
{
    if i < copies.len() {
        lemma_copies_result_err_is_copy_violation(kinds, tab, copies, i + 1);
    }
}

/// The instance pass from `i` on passes exactly when every remaining binding
/// matches the public input vector.
pub proof fn lemma_instance_result_ok_iff(
    kinds: Seq<ColumnKind>,
    tab: TableView,
    copies: Seq<(Cell, Cell)>,
    public: Seq<u64>,
    i: int,
)
    requires
        0 <= i,
    ensures
        instance_result(kinds, tab, copies, public, i) is Ok <==> forall|k: int|
            i <= k < copies.len() ==> pair_instance_result(
                kinds,
                tab,
                public,
                (#[trigger] copies[k]).0,
                copies[k].1,
            ) is Ok,
    decreases copies.len() - i,
{
    if i < copies.len() {
        lemma_instance_result_ok_iff(kinds, tab, copies, public, i + 1);
    }
}

/// Verification succeeds exactly when all three satisfaction predicates hold.
pub proof fn lemma_verify_result_ok_iff(
    gates: Seq<Gate>,
    kinds: Seq<ColumnKind>,
    tab: TableView,
    copies: Seq<(Cell, Cell)>,
    public: Seq<u64>,
    n_rows: int,
    p: u64,
)
    requires
        0 <= n_rows,
    ensures
        verify_result(gates, kinds, tab, copies, public, n_rows, p) is Ok <==> (
        gates_ok(gates, tab, n_rows, p) && copies_ok(kinds, tab, copies) && instance_ok(
            kinds,
            tab,
            copies,
            public,
        )),
{
    lemma_gates_result_ok_iff(gates, tab, n_rows, p, 0);
    lemma_copies_result_ok_iff(kinds, tab, copies, 0);
    lemma_instance_result_ok_iff(kinds, tab, copies, public, 0);
}

/// Checks every constraint of the system against the finished assignment and
/// the claimed public inputs.  Returns `Ok(())` exactly when every gate holds
/// wherever its selector is active, every equality constraint relates equal
/// stored values, and every instance binding matches the public input vector;
/// otherwise returns the first violation in the fixed pass order.
pub fn verify(cs: &ConstraintSystem, asg: &Assignment, public: &Vec<u64>) -> (r: Result<(), Error>)
    requires
        cs_wf(*cs),
        asg.wf(),
        asg.kinds@ == cs.kinds@,
        asg.p == cs.p,
    ensures
        r == verify_result(
            cs.gates@,
            cs.kinds@,
            asg.tab(),
            asg.copies@,
            public@,
            asg.n_rows as int,
            cs.p,
        ),
        r is Ok <==> (gates_ok(cs.gates@, asg.tab(), asg.n_rows as int, cs.p) && copies_ok(
            cs.kinds@,
            asg.tab(),
            asg.copies@,
        ) && instance_ok(cs.kinds@, asg.tab(), asg.copies@, public@)),
{
    proof {
        lemma_verify_result_ok_iff(
            cs.gates@,
            cs.kinds@,
            asg.tab(),
            asg.copies@,
            public@,
            asg.n_rows as int,
            cs.p,
        );
    }
    match check_gates(cs, asg) {
        Err(e) => Err(e),
        Ok(()) => match check_copies(cs, asg) {
            Err(e) => Err(e),
            Ok(()) => check_instance(cs, asg, public),
        },
    }
}

/// The verifier's pass over all gates.
fn check_gates(cs: &ConstraintSystem, asg: &Assignment) -> (r: Result<(), Error>)
    requires
        cs_wf(*cs),
        asg.wf(),
        asg.kinds@ == cs.kinds@,
        asg.p == cs.p,
    ensures
        r == gates_result(cs.gates@, asg.tab(), asg.n_rows as int, cs.p, 0),
{
    let n_gates = cs.gates.len();
    let mut gi: usize = 0;
    while gi < n_gates
        invariant
            cs_wf(*cs),
            asg.wf(),
            asg.kinds@ == cs.kinds@,
            asg.p == cs.p,
            gi <= n_gates == cs.gates@.len(),
            gates_result(cs.gates@, asg.tab(), asg.n_rows as int, cs.p, 0) == gates_result(
                cs.gates@,
                asg.tab(),
                asg.n_rows as int,
                cs.p,
                gi as int,
            ),
        decreases n_gates - gi,
    {
        match check_gate_rows(cs, asg, gi) {
            Err(e) => {
                return Err(e);
            },
            Ok(()) => {},
        }
        gi = gi + 1;
    }
    Ok(())
}

/// Checks one gate at every row.
fn check_gate_rows(cs: &ConstraintSystem, asg: &Assignment, gi: usize) -> (r: Result<(), Error>)
    requires
        cs_wf(*cs),
        asg.wf(),
        asg.kinds@ == cs.kinds@,
        asg.p == cs.p,
        gi < cs.gates@.len(),
    ensures
        r == gate_rows_result(cs.gates@[gi as int], gi as int, asg.tab(), asg.n_rows as int, cs.p, 0),
{
    let g = &cs.gates[gi];
    let n_rows = asg.n_rows;
    let mut row: usize = 0;
    while row < n_rows
        invariant
            cs_wf(*cs),
            asg.wf(),
            asg.kinds@ == cs.kinds@,
            asg.p == cs.p,
            gi < cs.gates@.len(),
            *g == cs.gates@[gi as int],
            row <= n_rows == asg.n_rows,
            gate_rows_result(cs.gates@[gi as int], gi as int, asg.tab(), asg.n_rows as int, cs.p, 0)
                == gate_rows_result(cs.gates@[gi as int], gi as int, asg.tab(), asg.n_rows as int, cs.p, row as int),
        decreases n_rows - row,
    {
        let sel = g.selector;
        let active = match asg.cells[sel][row] {
            Some(v) => v == 1,
            None => false,
        };
        if active {
            match check_polys(cs, asg, gi, row) {
                Err(e) => {
                    return Err(e);
                },
                Ok(()) => {},
            }
        }
        row = row + 1;
    }
    Ok(())
}

/// Checks every polynomial of one gate at one row.
fn check_polys(cs: &ConstraintSystem, asg: &Assignment, gi: usize, row: usize) -> (r: Result<
    (),
    Error,
>)
    requires
        cs_wf(*cs),
        asg.wf(),
        asg.kinds@ == cs.kinds@,
        asg.p == cs.p,
        gi < cs.gates@.len(),
        row < asg.n_rows,
    ensures
        r == polys_result(cs.gates@[gi as int], gi as int, asg.tab(), row as int, cs.p, 0),
{
    let g = &cs.gates[gi];
    let n_polys = g.polys.len();
    let mut j: usize = 0;
    while j < n_polys
        invariant
            cs_wf(*cs),
            asg.wf(),
            asg.kinds@ == cs.kinds@,
            asg.p == cs.p,
            gi < cs.gates@.len(),
            row < asg.n_rows,
            *g == cs.gates@[gi as int],
            j <= n_polys == g.polys@.len(),
            polys_result(cs.gates@[gi as int], gi as int, asg.tab(), row as int, cs.p, 0) == polys_result(
                cs.gates@[gi as int],
                gi as int,
                asg.tab(),
                row as int,
                cs.p,
                j as int,
            ),
        decreases n_polys - j,
    {
        match eval(&g.polys[j], &asg.cells, row, asg.p) {
            None => {
                return Err(Error::UnassignedCell { gate: gi, row });
            },
            Some(v) => {
                if v != 0 {
                    return Err(Error::GateViolation { gate: gi, row });
                }
            },
        }
        j = j + 1;
    }
    Ok(())
}

/// The copy pass of the verifier.
fn check_copies(cs: &ConstraintSystem, asg: &Assignment) -> (r: Result<(), Error>)
    requires
        cs_wf(*cs),
        asg.wf(),
        asg.kinds@ == cs.kinds@,
        asg.p == cs.p,
    ensures
        r == copies_result(cs.kinds@, asg.tab(), asg.copies@, 0),
{
    let n = asg.copies.len();
    let mut i: usize = 0;
    while i < n
        invariant
            cs_wf(*cs),
            asg.wf(),
            asg.kinds@ == cs.kinds@,
            asg.p == cs.p,
            i <= n == asg.copies@.len(),
            copies_result(cs.kinds@, asg.tab(), asg.copies@, 0) == copies_result(
                cs.kinds@,
                asg.tab(),
                asg.copies@,
                i as int,
            ),
        decreases n - i,
    {
        let (a, b) = asg.copies[i];
        let a_inst = matches!(cs.kinds[a.column], ColumnKind::Instance);
        let b_inst = matches!(cs.kinds[b.column], ColumnKind::Instance);
        if !a_inst && !b_inst {
            let va = asg.cells[a.column][a.row];
            let vb = asg.cells[b.column][b.row];
            let same = match (va, vb) {
                (Some(x), Some(y)) => x == y,
                (None, None) => true,
                _ => false,
            };
            if !same {
                return Err(Error::CopyViolation { left: a, right: b });
            }
        }
        i = i + 1;
    }
    Ok(())
}

/// The instance pass of the verifier.
fn check_instance(cs: &ConstraintSystem, asg: &Assignment, public: &Vec<u64>) -> (r: Result<
    (),
    Error,
>)
    requires
        cs_wf(*cs),
        asg.wf(),
        asg.kinds@ == cs.kinds@,
        asg.p == cs.p,
    ensures
        r == instance_result(cs.kinds@, asg.tab(), asg.copies@, public@, 0),
{
    let n = asg.copies.len();
    let mut i: usize = 0;
    while i < n
        invariant
            cs_wf(*cs),
            asg.wf(),
            asg.kinds@ == cs.kinds@,
            asg.p == cs.p,
            i <= n == asg.copies@.len(),
            instance_result(cs.kinds@, asg.tab(), asg.copies@, public@, 0) == instance_result(
                cs.kinds@,
                asg.tab(),
                asg.copies@,
                public@,
                i as int,
            ),
        decreases n - i,
    {
        let (a, b) = asg.copies[i];
        match check_pair_instance(cs, asg, public, a, b) {
            Err(e) => {
                return Err(e);
            },
            Ok(()) => {},
        }
        i = i + 1;
    }
    Ok(())
}

/// Checks the instance bindings of one equality constraint.
fn check_pair_instance(
    cs: &ConstraintSystem,
    asg: &Assignment,
    public: &Vec<u64>,
    a: Cell,
    b: Cell,
) -> (r: Result<(), Error>)
    requires
        cs_wf(*cs),
        asg.wf(),
        asg.kinds@ == cs.kinds@,
        asg.p == cs.p,
        asg.cell_in_bounds(a),
        asg.cell_in_bounds(b),
    ensures
        r == pair_instance_result(cs.kinds@, asg.tab(), public@, a, b),
{
    let a_inst = matches!(cs.kinds[a.column], ColumnKind::Instance);
    let b_inst = matches!(cs.kinds[b.column], ColumnKind::Instance);
    if a_inst {
        let bound = side_value(cs, asg, public, b);
        let matches_vec = match bound {
            Some(v) => a.row < public.len() && v == public[a.row],
            None => false,
        };
        if !matches_vec {
            return Err(Error::PublicInputMismatch { row: a.row });
        }
    }
    if b_inst {
        let bound = side_value(cs, asg, public, a);
        let matches_vec = match bound {
            Some(v) => b.row < public.len() && v == public[b.row],
            None => false,
        };
        if !matches_vec {
            return Err(Error::PublicInputMismatch { row: b.row });
        }
    }
    Ok(())
}

/// Reads the value a cell contributes to an instance binding.
fn side_value(cs: &ConstraintSystem, asg: &Assignment, public: &Vec<u64>, cell: Cell) -> (r: Option<
    u64,
>)
    requires
        cs_wf(*cs),
        asg.wf(),
        asg.kinds@ == cs.kinds@,
        asg.cell_in_bounds(cell),
    ensures
        r == instance_side_value(cs.kinds@, asg.tab(), public@, cell),
{
    if matches!(cs.kinds[cell.column], ColumnKind::Instance) {
        if cell.row < public.len() {
            Some(public[cell.row])
        } else {
            None
        }
    } else {
        asg.cells[cell.column][cell.row]
    }
}

} // verus!
