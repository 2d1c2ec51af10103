//! The engine's headline guarantees, stated and proved once and for all:
//! a faithfully synthesized circuit always verifies, a perturbed public input
//! never does, verification is deterministic, copy constraints catch
//! mutations, and a disabled selector never raises a gate violation.

use crate::assign::Assignment;
use crate::chip::config_wf;
use crate::chip::is_mul_poly;
use crate::chip::lemma_eval_mul_poly;
use crate::chip::FieldConfig;
use crate::circuit::synth_copies;
use crate::circuit::synth_value;
use crate::circuit::synth_written;
use crate::circuit::MyCircuit;
use crate::column::Cell;
use crate::column::ColumnKind;
use crate::cs::cs_wf;
use crate::cs::ConstraintSystem;
use crate::cs::Gate;
use crate::error::Error;
use crate::expr::eval_expr;
use crate::expr::TableView;
use crate::field::is_elem;
use crate::field::lemma_add_nonzero_changes;
use crate::field::lemma_mul_one;
use crate::field::lemma_sub_self_zero;
use crate::field::spec_add;
use crate::field::spec_mul;
use crate::verify::copies_ok;
use crate::verify::copies_result;
use crate::verify::gate_row_result;
use crate::verify::gates_ok;
use crate::verify::gates_result;
use crate::verify::instance_ok;
use crate::verify::instance_result;
use crate::verify::is_instance_cell;
use crate::verify::lemma_copies_result_ok_iff;
use crate::verify::lemma_gates_result_ok_iff;
use crate::verify::lemma_instance_result_ok_iff;
use crate::verify::pair_instance_result;
use crate::verify::selector_active;
use crate::verify::verify;
use crate::verify::verify_result;
use vstd::prelude::*;

verus! {

/// The public value the example circuit commits to: `k * (a*b)^2` in the
/// field of modulus `p`.
pub open spec fn expected_public(k: u64, a: u64, b: u64, p: u64) -> u64 {
    spec_mul(k, spec_mul(spec_mul(a, b, p), spec_mul(a, b, p), p), p)
}

/// A constraint system holding exactly the example circuit's configuration:
/// its five columns in allocation order and its one multiplication gate.
pub open spec fn configured_cs(cs: ConstraintSystem, cfg: FieldConfig) -> bool {
    &&& cs_wf(cs)
    &&& cs.kinds@ =~= seq![
        ColumnKind::Advice,
        ColumnKind::Advice,
        ColumnKind::Instance,
        ColumnKind::Fixed,
        ColumnKind::Selector,
    ]
    &&& config_wf(cfg, cs.kinds@, cs.equality@)
    &&& cfg.advice0.index == 0
    &&& cfg.advice1.index == 1
    &&& cfg.instance.index == 2
    &&& cfg.constant.index == 3
    &&& cfg.s_mul.index == 4
    &&& cs.gates@.len() == 1
    &&& cs.gates@[0].selector == 4
    &&& cs.gates@[0].polys@.len() == 1
    &&& is_mul_poly(cs.gates@[0].polys@[0], 0, 1, 4)
}

/// An assignment produced by one synthesis run of the example circuit on a
/// fresh table: the described cells hold the described values, every other
/// cell is unassigned, and the copy constraints are exactly those declared.
pub open spec fn synthesized_fresh(asg: Assignment, cfg: FieldConfig, k: u64, a: u64, b: u64) -> bool {
    &&& asg.wf()
    &&& asg.kinds@.len() == 5
    &&& asg.n_rows >= 9
    &&& forall|c: int, r: int|
        0 <= c < 5 && 0 <= r < asg.n_rows ==> #[trigger] asg.tab()[c][r] == (if synth_written(
            cfg,
            0,
            c,
            r,
        ) {
            synth_value(cfg, 0, k, Some(a), Some(b), asg.p, c, r)
        } else {
            None
        })
    &&& asg.copies@ == synth_copies(cfg, 0, 0)
}

/// A synthesized table satisfies every gate and every copy constraint, and
/// its instance binding matches a public input vector exactly when the
/// vector's first value is `k * (a*b)^2`.
pub proof fn lemma_synthesized_satisfies(
    cs: ConstraintSystem,
    cfg: FieldConfig,
    asg: Assignment,
    k: u64,
    a: u64,
    b: u64,
    public: Seq<u64>,
)
    requires
        configured_cs(cs, cfg),
        asg.kinds@ == cs.kinds@,
        asg.p == cs.p,
        synthesized_fresh(asg, cfg, k, a, b),
        is_elem(k, asg.p),
        is_elem(a, asg.p),
        is_elem(b, asg.p),
    ensures
        gates_ok(cs.gates@, asg.tab(), asg.n_rows as int, asg.p),
        copies_ok(cs.kinds@, asg.tab(), asg.copies@),
        instance_ok(cs.kinds@, asg.tab(), asg.copies@, public) <==> (public.len() > 0 && public[0]
            == expected_public(k, a, b, asg.p)),
        forall|i: int|
            0 <= i < 7 ==> pair_instance_result(
                cs.kinds@,
                asg.tab(),
                public,
                (#[trigger] asg.copies@[i]).0,
                asg.copies@[i].1,
            ) is Ok,
        !(public.len() > 0 && public[0] == expected_public(k, a, b, asg.p))
            ==> pair_instance_result(
            cs.kinds@,
            asg.tab(),
            public,
            asg.copies@[7].0,
            asg.copies@[7].1,
        ) == Err::<(), Error>(Error::PublicInputMismatch { row: 0 }),
        asg.copies@.len() == 8,
{
    let p = asg.p;
    let tab = asg.tab();
    let ab = spec_mul(a, b, p);
    let absq = spec_mul(ab, ab, p);
    let cv = spec_mul(k, absq, p);
    let g = cs.gates@[0];

    // Each gate holds at every active row.
    assert forall|gi: int, row: int, j: int|
        0 <= gi < cs.gates@.len() && 0 <= row < asg.n_rows && 0 <= j < cs.gates@[gi].polys@.len()
            && selector_active(tab, cs.gates@[gi].selector as int, row) implies #[trigger] eval_expr(
        cs.gates@[gi].polys@[j],
        tab,
        row,
        p,
    ) == Some(0u64) by {
        assert(tab[4][row] == (if synth_written(cfg, 0, 4, row) {
            synth_value(cfg, 0, k, Some(a), Some(b), p, 4, row)
        } else {
            None
        }));
        assert(row == 3 || row == 5 || row == 7);
        if row == 3 {
            assert(tab[0][3] == Some(a));
            assert(tab[1][3] == Some(b));
            assert(tab[0][4] == Some(ab));
            lemma_eval_mul_poly(g.polys@[0], 0, 1, 4, tab, 3, p, 1, a, b, ab);
            lemma_sub_self_zero(ab, p);
            lemma_mul_one(0, p);
        } else if row == 5 {
            assert(tab[0][5] == Some(ab));
            assert(tab[1][5] == Some(ab));
            assert(tab[0][6] == Some(absq));
            lemma_eval_mul_poly(g.polys@[0], 0, 1, 4, tab, 5, p, 1, ab, ab, absq);
            lemma_sub_self_zero(absq, p);
            lemma_mul_one(0, p);
        } else {
            assert(tab[0][7] == Some(k));
            assert(tab[1][7] == Some(absq));
            assert(tab[0][8] == Some(cv));
            lemma_eval_mul_poly(g.polys@[0], 0, 1, 4, tab, 7, p, 1, k, absq, cv);
            lemma_sub_self_zero(cv, p);
            lemma_mul_one(0, p);
        }
    }

    // Every copy constraint between non-instance cells relates equal values.
    let copies = asg.copies@;
    assert(copies =~= synth_copies(cfg, 0, 0));
    assert forall|i: int|
        0 <= i < copies.len() && !is_instance_cell(cs.kinds@, (#[trigger] copies[i]).0)
            && !is_instance_cell(cs.kinds@, copies[i].1)
            implies tab[copies[i].0.column as int][copies[i].0.row as int]
        == tab[copies[i].1.column as int][copies[i].1.row as int] by {
        assert(tab[3][2] == Some(k));
        assert(tab[0][0] == Some(a));
        assert(tab[0][1] == Some(b));
        assert(tab[0][2] == Some(k));
        assert(tab[0][3] == Some(a));
        assert(tab[1][3] == Some(b));
        assert(tab[0][4] == Some(ab));
        assert(tab[0][5] == Some(ab));
        assert(tab[1][5] == Some(ab));
        assert(tab[0][6] == Some(absq));
        assert(tab[0][7] == Some(k));
        assert(tab[1][7] == Some(absq));
        assert(tab[0][8] == Some(cv));
    }

    // The first seven constraints never touch the instance column; the last
    // one binds the result cell to the instance column at row 0.
    assert forall|i: int| 0 <= i < 7 implies pair_instance_result(
        cs.kinds@,
        asg.tab(),
        public,
        (#[trigger] copies[i]).0,
        copies[i].1,
    ) is Ok by {
        assert(!is_instance_cell(cs.kinds@, copies[i].0));
        assert(!is_instance_cell(cs.kinds@, copies[i].1));
    }
    assert(tab[0][8] == Some(cv));
    assert(copies[7].0 == (Cell { column: 0usize, row: 8usize }));
    assert(copies[7].1 == (Cell { column: 2usize, row: 0usize }));
    assert(!is_instance_cell(cs.kinds@, copies[7].0));
    assert(is_instance_cell(cs.kinds@, copies[7].1));
    if public.len() > 0 && public[0] == cv {
        assert(pair_instance_result(cs.kinds@, tab, public, copies[7].0, copies[7].1) is Ok);
    } else {
        assert(pair_instance_result(cs.kinds@, tab, public, copies[7].0, copies[7].1) == Err::<
            (),
            Error,
        >(Error::PublicInputMismatch { row: 0 }));
    }
}

/// Configures the example circuit, synthesizes it with witnesses `a` and `b`
/// and constant `k`, and verifies the result against the single public input
/// `c`.  Verification succeeds exactly when `c == k * (a*b)^2` in the field of
/// modulus `p`; on any other claimed value it reports a public-input mismatch.
pub fn run_mul_circuit(p: u64, k: u64, a: u64, b: u64, c: u64) -> (r: Result<(), Error>)
    requires
        p >= 2,
        is_elem(k, p),
        is_elem(a, p),
        is_elem(b, p),
    ensures
        r is Ok <==> c == expected_public(k, a, b, p),
        r is Err ==> r->Err_0 == (Error::PublicInputMismatch { row: 0 }),
{
    let mut cs = ConstraintSystem::new(p);
    let config = MyCircuit::configure(&mut cs);
    let circuit = MyCircuit::new(k, Some(a), Some(b));
    let mut asg = Assignment::new(&cs, 16);
    circuit.synthesize(&config, &mut asg);
    let mut public: Vec<u64> = Vec::new();
    public.push(c);
    let r = verify(&cs, &asg, &public);
    proof {
        lemma_synthesized_satisfies(cs, config, asg, k, a, b, public@);
        lemma_gates_result_ok_iff(cs.gates@, asg.tab(), asg.n_rows as int, p, 0);
        lemma_copies_result_ok_iff(cs.kinds@, asg.tab(), asg.copies@, 0);
        lemma_instance_result_ok_iff(cs.kinds@, asg.tab(), asg.copies@, public@, 0);
        if !(public@.len() > 0 && public@[0] == expected_public(k, a, b, p)) {
            let kinds = cs.kinds@;
            let tab = asg.tab();
            let copies = asg.copies@;
            let e = Err::<(), Error>(Error::PublicInputMismatch { row: 0 });
            assert(instance_result(kinds, tab, copies, public@, 7) == e);
            assert(instance_result(kinds, tab, copies, public@, 6) == e);
            assert(instance_result(kinds, tab, copies, public@, 5) == e);
            assert(instance_result(kinds, tab, copies, public@, 4) == e);
            assert(instance_result(kinds, tab, copies, public@, 3) == e);
            assert(instance_result(kinds, tab, copies, public@, 2) == e);
            assert(instance_result(kinds, tab, copies, public@, 1) == e);
            assert(instance_result(kinds, tab, copies, public@, 0) == e);
            assert(gates_result(cs.gates@, tab, asg.n_rows as int, p, 0) is Ok);
            assert(copies_result(kinds, tab, copies, 0) is Ok);
        }
    }
    r
}

/// Verifying with the correct public input perturbed by any nonzero field
/// element yields a claimed value different from the correct one, so by the
/// contract of `run_mul_circuit` it can only end in a public-input mismatch.
pub proof fn lemma_perturbed_public_differs(k: u64, a: u64, b: u64, d: u64, p: u64)
    requires
        p >= 2,
        is_elem(k, p),
        is_elem(a, p),
        is_elem(b, p),
        is_elem(d, p),
        d != 0,
    ensures
        spec_add(expected_public(k, a, b, p), d, p) != expected_public(k, a, b, p),
{
    lemma_add_nonzero_changes(expected_public(k, a, b, p), d, p);
}

/// Verification is idempotent: its outcome is a pure function of the gates,
/// the table, the copy constraints and the public input vector, so two runs on
/// the same inputs return the same result.
pub proof fn lemma_verify_deterministic(
    r1: Result<(), Error>,
    r2: Result<(), Error>,
    gates: Seq<Gate>,
    kinds: Seq<ColumnKind>,
    tab: TableView,
    copies: Seq<(Cell, Cell)>,
    public: Seq<u64>,
    n_rows: int,
    p: u64,
)
    requires
        r1 == verify_result(gates, kinds, tab, copies, public, n_rows, p),
        r2 == verify_result(gates, kinds, tab, copies, public, n_rows, p),
    ensures
        r1 == r2,
{
}

/// Mutating only the target cell of a copy constraint, so that it no longer
/// matches the source cell's stored value, breaks the copy check: the mutated
/// table can never verify.
pub proof fn lemma_copy_mutation(
    gates: Seq<Gate>,
    kinds: Seq<ColumnKind>,
    tab: TableView,
    tab2: TableView,
    copies: Seq<(Cell, Cell)>,
    public: Seq<u64>,
    n_rows: int,
    p: u64,
    i: int,
    w: Option<u64>,
)
    requires
        0 <= n_rows,
        0 <= i < copies.len(),
        !is_instance_cell(kinds, copies[i].0),
        !is_instance_cell(kinds, copies[i].1),
        copies[i].0 != copies[i].1,
        tab2.len() == tab.len(),
        forall|c: int| 0 <= c < tab.len() ==> #[trigger] tab2[c].len() == tab[c].len(),
        forall|c: int, r: int|
            0 <= c < tab.len() && 0 <= r < tab[c].len() && !(c == copies[i].1.column as int && r
                == copies[i].1.row as int) ==> #[trigger] tab2[c][r] == tab[c][r],
        copies[i].1.column < tab.len(),
        copies[i].1.row < tab[copies[i].1.column as int].len(),
        copies[i].0.column < tab.len(),
        copies[i].0.row < tab[copies[i].0.column as int].len(),
        tab2[copies[i].1.column as int][copies[i].1.row as int] == w,
        w != tab[copies[i].0.column as int][copies[i].0.row as int],
    ensures
        !copies_ok(kinds, tab2, copies),
        copies_result(kinds, tab2, copies, 0) is Err,
        copies_result(kinds, tab2, copies, 0)->Err_0 matches Error::CopyViolation { .. },
        !(verify_result(gates, kinds, tab2, copies, public, n_rows, p) is Ok),
{
    let x = copies[i].0;
    let y = copies[i].1;
    assert(tab2[x.column as int][x.row as int] == tab[x.column as int][x.row as int]);
    assert(tab2[x.column as int][x.row as int] != tab2[y.column as int][y.row as int]);
    assert(!copies_ok(kinds, tab2, copies));
    lemma_copies_result_ok_iff(kinds, tab2, copies, 0);
    crate::verify::lemma_copies_result_err_is_copy_violation(kinds, tab2, copies, 0);
    crate::verify::lemma_verify_result_ok_iff(gates, kinds, tab2, copies, public, n_rows, p);
}

/// Where a gate's selector is not active, that gate imposes nothing: whatever
/// the advice columns hold at that row, the row's check passes.
pub proof fn lemma_selector_gating(g: Gate, gi: int, tab: TableView, row: int, p: u64)
    requires
        !selector_active(tab, g.selector as int, row),
    ensures
        gate_row_result(g, gi, tab, row, p) is Ok,
{
}

} // verus!
