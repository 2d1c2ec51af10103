//! The example circuit: proves knowledge of private `a` and `b` such that the
//! instance value equals `constant * a^2 * b^2`.
//!
//! Configuration allocates the chip's columns and registers its gate once, and
//! never looks at witness values.  Synthesis replays a fixed sequence of chip
//! instructions — load `a`, load `b`, load the constant, three multiplications
//! and one public exposure — so only the values threaded through the handles
//! depend on the witness.

use crate::assign::Assignment;
use crate::chip::config_wf;
use crate::chip::mul_opt;
use crate::chip::FieldChip;
use crate::chip::FieldConfig;
use crate::column::Cell;
use crate::column::ColumnKind;
use crate::cs::cs_wf;
use crate::cs::ConstraintSystem;
use crate::field::is_elem;
use vstd::prelude::*;

verus! {

/// The circuit's private inputs and its baked-in constant.  A `None` witness
/// stands for the value-independent pass.
pub struct MyCircuit {
    pub constant: u64,
    pub a: Option<u64>,
    pub b: Option<u64>,
}

/// Synthesis writes cell `(c, r)` of the table, for a run whose first region
/// anchors at row `t`.
pub open spec fn synth_written(cfg: FieldConfig, t: int, c: int, r: int) -> bool {
    if c == cfg.advice0.index {
        t <= r <= t + 8
    } else if c == cfg.advice1.index {
        r == t + 3 || r == t + 5 || r == t + 7
    } else if c == cfg.constant.index {
        r == t + 2
    } else if c == cfg.s_mul.index {
        r == t + 3 || r == t + 5 || r == t + 7
    } else {
        false
    }
}

/// The value synthesis leaves in cell `(c, r)`, for witnesses `a`, `b` and
/// constant `k`.
pub open spec fn synth_value(
    cfg: FieldConfig,
    t: int,
    k: u64,
    a: Option<u64>,
    b: Option<u64>,
    p: u64,
    c: int,
    r: int,
) -> Option<u64>
    recommends
        synth_written(cfg, t, c, r),
{
    let ab = mul_opt(a, b, p);
    let absq = mul_opt(ab, ab, p);
    let cv = mul_opt(Some(k), absq, p);
    if c == cfg.s_mul.index {
        Some(1u64)
    } else if c == cfg.constant.index {
        Some(k)
    } else if c == cfg.advice1.index {
        if r == t + 3 {
            b
        } else if r == t + 5 {
            ab
        } else {
            absq
        }
    } else {
        if r == t {
            a
        } else if r == t + 1 {
            b
        } else if r == t + 2 {
            Some(k)
        } else if r == t + 3 {
            a
        } else if r == t + 4 {
            ab
        } else if r == t + 5 {
            ab
        } else if r == t + 6 {
            absq
        } else if r == t + 7 {
            Some(k)
        } else {
            cv
        }
    }
}

/// The equality constraints synthesis declares, in declaration order: the
/// constant binding, two copies per multiplication, and the public exposure.
pub open spec fn synth_copies(cfg: FieldConfig, t: int, pub_row: usize) -> Seq<(Cell, Cell)> {
    seq![
        (
            (Cell { column: cfg.constant.index, row: (t + 2) as usize }),
            (Cell { column: cfg.advice0.index, row: (t + 2) as usize }),
        ),
        (
            (Cell { column: cfg.advice0.index, row: t as usize }),
            (Cell { column: cfg.advice0.index, row: (t + 3) as usize }),
        ),
        (
            (Cell { column: cfg.advice0.index, row: (t + 1) as usize }),
            (Cell { column: cfg.advice1.index, row: (t + 3) as usize }),
        ),
        (
            (Cell { column: cfg.advice0.index, row: (t + 4) as usize }),
            (Cell { column: cfg.advice0.index, row: (t + 5) as usize }),
        ),
        (
            (Cell { column: cfg.advice0.index, row: (t + 4) as usize }),
            (Cell { column: cfg.advice1.index, row: (t + 5) as usize }),
        ),
        (
            (Cell { column: cfg.advice0.index, row: (t + 2) as usize }),
            (Cell { column: cfg.advice0.index, row: (t + 7) as usize }),
        ),
        (
            (Cell { column: cfg.advice0.index, row: (t + 6) as usize }),
            (Cell { column: cfg.advice1.index, row: (t + 7) as usize }),
        ),
        (
            (Cell { column: cfg.advice0.index, row: (t + 8) as usize }),
            (Cell { column: cfg.instance.index, row: pub_row }),
        ),
    ]
}

impl MyCircuit {
    /// A circuit over the given constant and private inputs.
    pub fn new(constant: u64, a: Option<u64>, b: Option<u64>) -> (c: Self)
        ensures
            c.constant == constant,
            c.a == a,
            c.b == b,
    {
        MyCircuit { constant, a, b }
    }

    /// The same circuit shape with every value forgotten, for the
    /// value-independent configuration pass.
    pub fn without_witnesses(&self) -> (c: Self)
        ensures
            c.constant == 0,
            c.a is None,
            c.b is None,
    {
        MyCircuit { constant: 0, a: None, b: None }
    }

    /// Declares the circuit's column layout and gates: two advice columns, an
    /// instance column, a fixed column, and the chip's wiring on top of them.
    pub fn configure(cs: &mut ConstraintSystem) -> (cfg: FieldConfig)
        requires
            cs_wf(*old(cs)),
        ensures
            cs_wf(*final(cs)),
            final(cs).p == old(cs).p,
            final(cs).kinds@ =~= old(cs).kinds@ + seq![
                ColumnKind::Advice,
                ColumnKind::Advice,
                ColumnKind::Instance,
                ColumnKind::Fixed,
                ColumnKind::Selector,
            ],
            final(cs).equality@ =~= old(cs).equality@ + seq![true, true, true, true, false],
            final(cs).gates@.len() == old(cs).gates@.len() + 1,
            final(cs).gates@.take(old(cs).gates@.len() as int) == old(cs).gates@,
            final(cs).gates@.last().selector == old(cs).kinds@.len() + 4,
            final(cs).gates@.last().polys@.len() == 1,
            crate::chip::is_mul_poly(
                final(cs).gates@.last().polys@[0],
                cfg.advice0.index,
                cfg.advice1.index,
                cfg.s_mul.index,
            ),
            cfg.advice0.index == old(cs).kinds@.len(),
            cfg.advice1.index == old(cs).kinds@.len() + 1,
            cfg.instance.index == old(cs).kinds@.len() + 2,
            cfg.constant.index == old(cs).kinds@.len() + 3,
            cfg.s_mul.index == old(cs).kinds@.len() + 4,
            config_wf(cfg, final(cs).kinds@, final(cs).equality@),
    {
        let advice0 = cs.advice_column();
        let advice1 = cs.advice_column();
        let instance = cs.instance_column();
        let constant = cs.fixed_column();
        FieldChip::configure(cs, advice0, advice1, instance, constant)
    }

    /// Builds the full assignment: loads `a`, `b` and the constant, computes
    /// `ab = a * b`, `absq = ab * ab` and `c = constant * absq`, and exposes
    /// `c` as the public input at row 0.
    pub fn synthesize(&self, config: &FieldConfig, asg: &mut Assignment)
        requires
            old(asg).wf(),
            config_wf(*config, old(asg).kinds@, old(asg).equality@),
            old(asg).next_row + 9 <= old(asg).n_rows,
            is_elem(self.constant, old(asg).p),
            self.a is Some ==> is_elem(self.a->0, old(asg).p),
            self.b is Some ==> is_elem(self.b->0, old(asg).p),
        ensures
            final(asg).wf(),
            final(asg).p == old(asg).p,
            final(asg).kinds@ == old(asg).kinds@,
            final(asg).equality@ == old(asg).equality@,
            final(asg).n_rows == old(asg).n_rows,
            final(asg).next_row == old(asg).next_row + 9,
            final(asg).tab().len() == old(asg).tab().len(),
            forall|c: int, r: int|
                0 <= c < old(asg).kinds@.len() && 0 <= r < old(asg).n_rows
                    ==> final(asg).tab()[c][r] == (if synth_written(
                    *config,
                    old(asg).next_row as int,
                    c,
                    r,
                ) {
                    synth_value(
                        *config,
                        old(asg).next_row as int,
                        self.constant,
                        self.a,
                        self.b,
                        old(asg).p,
                        c,
                        r,
                    )
                } else {
                    old(asg).tab()[c][r]
                }),
            final(asg).copies@ == old(asg).copies@ + synth_copies(
                *config,
                old(asg).next_row as int,
                0,
            ),
    {
        let chip = FieldChip::construct(*config);
        let a = chip.load_private(asg, self.a);
        let b = chip.load_private(asg, self.b);
        let k = chip.load_constant(asg, self.constant);
        let ab = chip.mul(asg, &a, &b);
        let absq = chip.mul(asg, &ab, &ab);
        let c = chip.mul(asg, &k, &absq);
        chip.expose_public(asg, &c, 0);
        proof {
            assert(final(asg).copies@ =~= old(asg).copies@ + synth_copies(
                *config,
                old(asg).next_row as int,
                0,
            ));
        }
    }
}

} // verus!
