//! Unit tests for the field, the expression evaluator, the constraint system
//! and the verifier's error reporting.

use simple_example::assign::Assignment;
use simple_example::circuit::MyCircuit;
use simple_example::column::Column;
use simple_example::column::ColumnKind;
use simple_example::cs::ConstraintSystem;
use simple_example::error::Error;
use simple_example::expr::eval;
use simple_example::expr::Expr;
use simple_example::field::f_add;
use simple_example::field::f_mul;
use simple_example::field::f_sub;
use simple_example::verify::verify;

#[test]
fn field_arithmetic_mod_101() {
    assert_eq!(f_add(100, 100, 101), 99);
    assert_eq!(f_add(0, 0, 101), 0);
    assert_eq!(f_sub(0, 1, 101), 100);
    assert_eq!(f_sub(50, 50, 101), 0);
    assert_eq!(f_mul(7, 36, 101), 50);
    assert_eq!(f_mul(100, 100, 101), 1);
}

#[test]
fn field_arithmetic_near_u64_max() {
    let p = 0xffff_ffff_0000_0001u64;
    assert_eq!(f_add(p - 1, p - 1, p), p - 2);
    assert_eq!(f_mul(p - 1, p - 1, p), 1);
    assert_eq!(f_sub(0, p - 1, p), 1);
}

#[test]
fn constants_are_reduced_at_evaluation() {
    let empty: Vec<Vec<Option<u64>>> = Vec::new();
    assert_eq!(eval(&Expr::Constant(105), &empty, 0, 101), Some(4));
    assert_eq!(eval(&Expr::Constant(50), &empty, 0, 101), Some(50));
}

#[test]
fn queries_are_bounds_checked() {
    let tab = vec![vec![Some(9u64), None]];
    // Past the last row: undefined, not zero.
    assert_eq!(eval(&Expr::Query(0, 2), &tab, 0, 101), None);
    assert_eq!(eval(&Expr::Query(0, -1), &tab, 0, 101), None);
    assert_eq!(eval(&Expr::Query(0, 1), &tab, 0, 101), None);
    assert_eq!(eval(&Expr::Query(0, 0), &tab, 0, 101), Some(9));
}

#[test]
fn gate_with_unallocated_column_is_refused() {
    let mut cs = ConstraintSystem::new(101);
    let selector = cs.alloc_column(ColumnKind::Selector);
    let bad = Expr::Query(99, 0);
    let r = cs.create_gate("bad", selector, vec![bad]);
    assert_eq!(r, Err(Error::ConfigurationError { gate: 0, column: 99 }));
    // A handle that does not name an allocated selector is refused too.
    let fake = Column { index: 7, kind: ColumnKind::Selector };
    let r2 = cs.create_gate("fake", fake, Vec::new());
    assert_eq!(r2, Err(Error::ConfigurationError { gate: 0, column: 7 }));
}

#[test]
fn disabled_selector_gates_nothing() {
    let mut cs = ConstraintSystem::new(101);
    let config = MyCircuit::configure(&mut cs);
    let mut asg = Assignment::new(&cs, 16);
    // Inconsistent products everywhere, but the selector stays off.
    asg.assign(config.advice0, 0, Some(5));
    asg.assign(config.advice1, 0, Some(6));
    asg.assign(config.advice0, 1, Some(99));
    assert_eq!(verify(&cs, &asg, &Vec::new()), Ok(()));
}

#[test]
fn active_selector_reports_a_gate_violation() {
    let mut cs = ConstraintSystem::new(101);
    let config = MyCircuit::configure(&mut cs);
    let mut asg = Assignment::new(&cs, 16);
    asg.assign(config.advice0, 0, Some(2));
    asg.assign(config.advice1, 0, Some(3));
    asg.assign(config.advice0, 1, Some(7));
    asg.enable_selector(config.s_mul, 0);
    let r = verify(&cs, &asg, &Vec::new());
    assert_eq!(r, Err(Error::GateViolation { gate: 0, row: 0 }));
    // With the product corrected the same table verifies.
    asg.assign(config.advice0, 1, Some(6));
    assert_eq!(verify(&cs, &asg, &Vec::new()), Ok(()));
}

#[test]
fn active_selector_over_missing_cells_is_an_unassigned_error() {
    let mut cs = ConstraintSystem::new(101);
    let config = MyCircuit::configure(&mut cs);
    let mut asg = Assignment::new(&cs, 16);
    asg.enable_selector(config.s_mul, 4);
    let r = verify(&cs, &asg, &Vec::new());
    assert_eq!(r, Err(Error::UnassignedCell { gate: 0, row: 4 }));
}

#[test]
fn selector_on_the_last_row_is_bounds_checked() {
    // A multiplication gate queries one row below its anchor; on the last row,
    // that query leaves the table and must surface as an error, not as zero.
    let mut cs = ConstraintSystem::new(101);
    let config = MyCircuit::configure(&mut cs);
    let mut asg = Assignment::new(&cs, 4);
    asg.assign(config.advice0, 3, Some(0));
    asg.assign(config.advice1, 3, Some(0));
    asg.enable_selector(config.s_mul, 3);
    let r = verify(&cs, &asg, &Vec::new());
    assert_eq!(r, Err(Error::UnassignedCell { gate: 0, row: 3 }));
}

#[test]
fn public_input_vector_must_reach_the_bound_row() {
    let mut cs = ConstraintSystem::new(101);
    let config = MyCircuit::configure(&mut cs);
    let circuit = MyCircuit::new(7, Some(2), Some(3));
    let mut asg = Assignment::new(&cs, 16);
    circuit.synthesize(&config, &mut asg);
    // An empty public input vector cannot satisfy the binding at row 0.
    let r = verify(&cs, &asg, &Vec::new());
    assert_eq!(r, Err(Error::PublicInputMismatch { row: 0 }));
}
