//! The field chip: a reusable unit of constraint logic with one
//! multiplication gate and four instructions.
//!
//! The chip owns two advice columns, an instance column, a fixed column for
//! constants and one selector.  Its gate constrains, wherever the selector is
//! active, the product of the two advice cells of that row to equal the first
//! advice cell of the next row.  The instructions lay out one region per call:
//! one row to load a private value or a constant, two rows to multiply.

use crate::assign::AssignedCell;
use crate::assign::Assignment;
use crate::column::Cell;
use crate::column::Column;
use crate::column::ColumnKind;
use crate::cs::allocated;
use crate::cs::cs_wf;
use crate::cs::ConstraintSystem;
use crate::expr::eval_expr;
use crate::expr::Expr;
use crate::expr::TableView;
use crate::field::is_elem;
use crate::field::spec_mul;
use crate::field::spec_sub;
use crate::field::f_mul;
use vstd::prelude::*;

verus! {

/// The column and selector handles the chip works with.
#[derive(Clone, Copy, Debug, PartialEq, Eq, Structural)]
pub struct FieldConfig {
    pub advice0: Column,
    pub advice1: Column,
    pub instance: Column,
    pub constant: Column,
    pub s_mul: Column,
}

/// The chip: stateless but for its configuration.
pub struct FieldChip {
    pub config: FieldConfig,
}

/// The configuration names five distinct, correctly-kinded columns, with the
/// four value columns eligible for equality constraints.
pub open spec fn config_wf(cfg: FieldConfig, kinds: Seq<ColumnKind>, equality: Seq<bool>) -> bool {
    &&& allocated(kinds, cfg.advice0) && cfg.advice0.kind == ColumnKind::Advice
    &&& allocated(kinds, cfg.advice1) && cfg.advice1.kind == ColumnKind::Advice
    &&& allocated(kinds, cfg.instance) && cfg.instance.kind == ColumnKind::Instance
    &&& allocated(kinds, cfg.constant) && cfg.constant.kind == ColumnKind::Fixed
    &&& allocated(kinds, cfg.s_mul) && cfg.s_mul.kind == ColumnKind::Selector
    &&& equality.len() == kinds.len()
    &&& equality[cfg.advice0.index as int]
    &&& equality[cfg.advice1.index as int]
    &&& equality[cfg.instance.index as int]
    &&& equality[cfg.constant.index as int]
    &&& cfg.advice0.index != cfg.advice1.index
    &&& cfg.advice0.index != cfg.instance.index
    &&& cfg.advice0.index != cfg.constant.index
    &&& cfg.advice0.index != cfg.s_mul.index
    &&& cfg.advice1.index != cfg.instance.index
    &&& cfg.advice1.index != cfg.constant.index
    &&& cfg.advice1.index != cfg.s_mul.index
    &&& cfg.instance.index != cfg.constant.index
    &&& cfg.instance.index != cfg.s_mul.index
    &&& cfg.constant.index != cfg.s_mul.index
}

/// The shape of the chip's gate polynomial:
/// `s_mul * (advice0 * advice1 - advice0 at the next row)`.
pub open spec fn is_mul_poly(e: Expr, a0: usize, a1: usize, s: usize) -> bool {
    match e {
        Expr::Mul(sel, rest) => *sel == Expr::Query(s, 0) && match *rest {
            Expr::Sub(prod, out) => *out == Expr::Query(a0, 1) && match *prod {
                Expr::Mul(l, r) => *l == Expr::Query(a0, 0) && *r == Expr::Query(a1, 0),
                _ => false,
            },
            _ => false,
        },
        _ => false,
    }
}

/// The product of two optional field values, defined only when both are known.
pub open spec fn mul_opt(a: Option<u64>, b: Option<u64>, p: u64) -> Option<u64> {
    if a is Some && b is Some {
        Some(spec_mul(a->0, b->0, p))
    } else {
        None
    }
}

/// What the multiplication-gate polynomial evaluates to at a row where all
/// four queried cells hold values.
pub proof fn lemma_eval_mul_poly(
    e: Expr,
    a0: usize,
    a1: usize,
    s: usize,
    tab: TableView,
    row: int,
    p: u64,
    vs: u64,
    v0: u64,
    v1: u64,
    vout: u64,
)
    requires
        is_mul_poly(e, a0, a1, s),
        0 <= row,
        (a0 as int) < tab.len() && row + 1 < tab[a0 as int].len(),
        (a1 as int) < tab.len() && row < tab[a1 as int].len(),
        (s as int) < tab.len() && row < tab[s as int].len(),
        tab[s as int][row] == Some(vs),
        tab[a0 as int][row] == Some(v0),
        tab[a1 as int][row] == Some(v1),
        tab[a0 as int][row + 1] == Some(vout),
    ensures
        eval_expr(e, tab, row, p) == Some(spec_mul(vs, spec_sub(spec_mul(v0, v1, p), vout, p), p)),
{
    let sel = e->Mul_0;
    let rest = e->Mul_1;
    let prod = (*rest)->Sub_0;
    let out = (*rest)->Sub_1;
    assert(eval_expr(*sel, tab, row, p) == Some(vs));
    assert(eval_expr(*(*prod)->Mul_0, tab, row, p) == Some(v0));
    assert(eval_expr(*(*prod)->Mul_1, tab, row, p) == Some(v1));
    assert(eval_expr(*prod, tab, row, p) == Some(spec_mul(v0, v1, p)));
    assert(eval_expr(*out, tab, row, p) == Some(vout));
    assert(eval_expr(*rest, tab, row, p) == Some(spec_sub(spec_mul(v0, v1, p), vout, p)));
}

impl FieldChip {
    /// Builds the chip from its configuration.
    pub fn construct(config: FieldConfig) -> (chip: Self)
        ensures
            chip.config == config,
    {
        FieldChip { config }
    }

    /// The chip's configuration.
    pub fn config(&self) -> (cfg: &FieldConfig)
        ensures
            cfg == &self.config,
    {
        &self.config
    }

    /// Wires the chip to four already-allocated columns: marks them eligible
    /// for equality constraints, allocates the multiplication selector and
    /// registers the multiplication gate.
    pub fn configure(
        cs: &mut ConstraintSystem,
        advice0: Column,
        advice1: Column,
        instance: Column,
        constant: Column,
    ) -> (cfg: FieldConfig)
        requires
            cs_wf(*old(cs)),
            allocated(old(cs).kinds@, advice0) && advice0.kind == ColumnKind::Advice,
            allocated(old(cs).kinds@, advice1) && advice1.kind == ColumnKind::Advice,
            allocated(old(cs).kinds@, instance) && instance.kind == ColumnKind::Instance,
            allocated(old(cs).kinds@, constant) && constant.kind == ColumnKind::Fixed,
            advice0.index != advice1.index,
            advice0.index != instance.index,
            advice0.index != constant.index,
            advice1.index != instance.index,
            advice1.index != constant.index,
            instance.index != constant.index,
        ensures
            cs_wf(*final(cs)),
            final(cs).p == old(cs).p,
            final(cs).kinds@ == old(cs).kinds@.push(ColumnKind::Selector),
            final(cs).equality@ =~= old(cs).equality@.update(instance.index as int, true).update(
                constant.index as int,
                true,
            ).update(advice0.index as int, true).update(advice1.index as int, true).push(false),
            final(cs).gates@.len() == old(cs).gates@.len() + 1,
            final(cs).gates@.take(old(cs).gates@.len() as int) == old(cs).gates@,
            final(cs).gates@.last().selector == old(cs).kinds@.len(),
            final(cs).gates@.last().polys@.len() == 1,
            is_mul_poly(
                final(cs).gates@.last().polys@[0],
                advice0.index,
                advice1.index,
                old(cs).kinds@.len() as usize,
            ),
            cfg == (FieldConfig {
                advice0,
                advice1,
                instance,
                constant,
                s_mul: (Column {
                    index: old(cs).kinds@.len() as usize,
                    kind: ColumnKind::Selector,
                }),
            }),
            config_wf(cfg, final(cs).kinds@, final(cs).equality@),
    {
        cs.enable_equality(instance);
        cs.enable_equality(constant);
        cs.enable_equality(advice0);
        cs.enable_equality(advice1);
        let s_mul = cs.selector();
        let poly = Expr::Mul(
            Box::new(Expr::Query(s_mul.index, 0)),
            Box::new(
                Expr::Sub(
                    Box::new(
                        Expr::Mul(
                            Box::new(Expr::Query(advice0.index, 0)),
                            Box::new(Expr::Query(advice1.index, 0)),
                        ),
                    ),
                    Box::new(Expr::Query(advice0.index, 1)),
                ),
            ),
        );
        let mut polys: Vec<Expr> = Vec::new();
        proof {
            assert(crate::expr::expr_queries_ok(poly, cs.kinds@.len())) by {
                reveal_with_fuel(crate::expr::expr_queries_ok, 6);
            }
        }
        polys.push(poly);
        let r = cs.create_gate("mul", s_mul, polys);
        match r {
            Ok(()) => FieldConfig { advice0, advice1, instance, constant, s_mul },
            Err(_) => {
                proof {
                    assert(false);
                }
                FieldConfig { advice0, advice1, instance, constant, s_mul }
            },
        }
    }

    /// Loads a private witness value into a fresh one-row region and returns
    /// its handle.  The cell is otherwise unconstrained.
    pub fn load_private(&self, asg: &mut Assignment, value: Option<u64>) -> (res: AssignedCell)
        requires
            old(asg).wf(),
            config_wf(self.config, old(asg).kinds@, old(asg).equality@),
            old(asg).next_row + 1 <= old(asg).n_rows,
            value is Some ==> is_elem(value->0, old(asg).p),
        ensures
            final(asg).wf(),
            final(asg).p == old(asg).p,
            final(asg).kinds@ == old(asg).kinds@,
            final(asg).equality@ == old(asg).equality@,
            final(asg).n_rows == old(asg).n_rows,
            final(asg).next_row == old(asg).next_row + 1,
            final(asg).copies@ == old(asg).copies@,
            final(asg).tab().len() == old(asg).tab().len(),
            forall|c: int, r: int|
                0 <= c < old(asg).kinds@.len() && 0 <= r < old(asg).n_rows && !(c
                    == self.config.advice0.index && r == old(asg).next_row) ==> final(asg).tab()[c][r] == old(asg).tab()[c][r],
            final(asg).tab()[self.config.advice0.index as int][old(asg).next_row as int] == value,
            res.cell == (Cell { column: self.config.advice0.index, row: old(asg).next_row }),
            res.value == value,
            final(asg).handle_wf(res),
    {
        let anchor = asg.alloc_region(1);
        asg.assign(self.config.advice0, anchor, value)
    }

    /// Loads a circuit constant: places it both in the fixed column and in an
    /// advice cell of a fresh one-row region, copy-constrained together, so
    /// the witness cannot substitute another value.
    pub fn load_constant(&self, asg: &mut Assignment, constant: u64) -> (res: AssignedCell)
        requires
            old(asg).wf(),
            config_wf(self.config, old(asg).kinds@, old(asg).equality@),
            old(asg).next_row + 1 <= old(asg).n_rows,
            is_elem(constant, old(asg).p),
        ensures
            final(asg).wf(),
            final(asg).p == old(asg).p,
            final(asg).kinds@ == old(asg).kinds@,
            final(asg).equality@ == old(asg).equality@,
            final(asg).n_rows == old(asg).n_rows,
            final(asg).next_row == old(asg).next_row + 1,
            final(asg).tab().len() == old(asg).tab().len(),
            forall|c: int, r: int|
                0 <= c < old(asg).kinds@.len() && 0 <= r < old(asg).n_rows && !(c
                    == self.config.advice0.index && r == old(asg).next_row) && !(c
                    == self.config.constant.index && r == old(asg).next_row) ==> final(asg).tab()[c][r] == old(asg).tab()[c][r],
            final(asg).tab()[self.config.advice0.index as int][old(asg).next_row as int] == Some(
                constant,
            ),
            final(asg).tab()[self.config.constant.index as int][old(asg).next_row as int] == Some(
                constant,
            ),
            final(asg).copies@ == old(asg).copies@.push(
                (
                    (Cell { column: self.config.constant.index, row: old(asg).next_row }),
                    (Cell { column: self.config.advice0.index, row: old(asg).next_row }),
                ),
            ),
            res.cell == (Cell { column: self.config.advice0.index, row: old(asg).next_row }),
            res.value == Some(constant),
            final(asg).handle_wf(res),
    {
        let anchor = asg.alloc_region(1);
        let fixed = asg.assign(self.config.constant, anchor, Some(constant));
        asg.copy_from(&fixed, self.config.advice0, anchor)
    }

    /// Multiplies two placed values in a fresh two-row region: copies them
    /// into the two advice cells of the anchor row, activates the
    /// multiplication selector there, and places their product in the first
    /// advice column one row below.
    pub fn mul(&self, asg: &mut Assignment, a: &AssignedCell, b: &AssignedCell) -> (res:
        AssignedCell)
        requires
            old(asg).wf(),
            config_wf(self.config, old(asg).kinds@, old(asg).equality@),
            old(asg).handle_wf(*a),
            old(asg).handle_wf(*b),
            old(asg).equality@[a.cell.column as int],
            old(asg).equality@[b.cell.column as int],
            old(asg).next_row + 2 <= old(asg).n_rows,
        ensures
            final(asg).wf(),
            final(asg).p == old(asg).p,
            final(asg).kinds@ == old(asg).kinds@,
            final(asg).equality@ == old(asg).equality@,
            final(asg).n_rows == old(asg).n_rows,
            final(asg).next_row == old(asg).next_row + 2,
            final(asg).tab().len() == old(asg).tab().len(),
            forall|c: int, r: int|
                0 <= c < old(asg).kinds@.len() && 0 <= r < old(asg).n_rows && !(c
                    == self.config.s_mul.index && r == old(asg).next_row) && !(c
                    == self.config.advice0.index && r == old(asg).next_row) && !(c
                    == self.config.advice1.index && r == old(asg).next_row) && !(c
                    == self.config.advice0.index && r == old(asg).next_row + 1) ==> final(asg).tab()[c][r] == old(asg).tab()[c][r],
            final(asg).tab()[self.config.s_mul.index as int][old(asg).next_row as int] == Some(
                1u64,
            ),
            final(asg).tab()[self.config.advice0.index as int][old(asg).next_row as int]
                == a.value,
            final(asg).tab()[self.config.advice1.index as int][old(asg).next_row as int]
                == b.value,
            final(asg).tab()[self.config.advice0.index as int][old(asg).next_row + 1] == mul_opt(
                a.value,
                b.value,
                old(asg).p,
            ),
            final(asg).copies@ == old(asg).copies@.push(
                (a.cell, (Cell { column: self.config.advice0.index, row: old(asg).next_row })),
            ).push(
                (b.cell, (Cell { column: self.config.advice1.index, row: old(asg).next_row })),
            ),
            res.cell == (Cell {
                column: self.config.advice0.index,
                row: (old(asg).next_row + 1) as usize,
            }),
            res.value == mul_opt(a.value, b.value, old(asg).p),
            final(asg).handle_wf(res),
    {
        let anchor = asg.alloc_region(2);
        asg.enable_selector(self.config.s_mul, anchor);
        asg.copy_from(a, self.config.advice0, anchor);
        asg.copy_from(b, self.config.advice1, anchor);
        let value = match (a.value, b.value) {
            (Some(x), Some(y)) => Some(f_mul(x, y, asg.p)),
            _ => None,
        };
        asg.assign(self.config.advice0, anchor + 1, value)
    }

    /// Exposes a placed value as a public input: declares its cell equal to
    /// the instance column at `row`.
    pub fn expose_public(&self, asg: &mut Assignment, num: &AssignedCell, row: usize)
        requires
            old(asg).wf(),
            config_wf(self.config, old(asg).kinds@, old(asg).equality@),
            old(asg).cell_in_bounds(num.cell),
            old(asg).equality@[num.cell.column as int],
            row < old(asg).n_rows,
        ensures
            final(asg).wf(),
            final(asg).copies@ == old(asg).copies@.push(
                (num.cell, (Cell { column: self.config.instance.index, row })),
            ),
            *final(asg) == (Assignment { copies: final(asg).copies, ..*old(asg) }),
    {
        asg.constrain_instance(num.cell, self.config.instance, row);
    }
}

} // verus!
