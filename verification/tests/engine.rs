//! End-to-end tests: configure, synthesize and verify the example circuit.

use simple_example::assign::Assignment;
use simple_example::circuit::MyCircuit;
use simple_example::column::Cell;
use simple_example::cs::ConstraintSystem;
use simple_example::error::Error;
use simple_example::laws::run_mul_circuit;
use simple_example::verify::verify;

#[test]
fn mod_101_scenario_accepts_correct_public_input() {
    // k = 7, a = 2, b = 3: c = 7 * 4 * 9 = 252 = 50 (mod 101).
    assert_eq!(run_mul_circuit(101, 7, 2, 3, 50), Ok(()));
}

#[test]
fn mod_101_scenario_rejects_wrong_public_input() {
    let r = run_mul_circuit(101, 7, 2, 3, 51);
    assert_eq!(r, Err(Error::PublicInputMismatch { row: 0 }));
}

#[test]
fn correct_public_input_verifies_in_other_fields() {
    // p = 13, k = 5, a = 4, b = 6: ab = 24 = 11, absq = 121 = 4, c = 20 = 7.
    assert_eq!(run_mul_circuit(13, 5, 4, 6, 7), Ok(()));
    // p = 2: everything collapses to bits; 1 * 1^2 * 1^2 = 1.
    assert_eq!(run_mul_circuit(2, 1, 1, 1, 1), Ok(()));
}

#[test]
fn every_nonzero_perturbation_is_a_mismatch() {
    // p = 7, k = 3, a = 2, b = 1: c = 3 * 4 * 1 = 12 = 5 (mod 7).
    let p = 7u64;
    let c = 5u64;
    assert_eq!(run_mul_circuit(p, 3, 2, 1, c), Ok(()));
    for d in 1..p {
        let perturbed = (c + d) % p;
        let r = run_mul_circuit(p, 3, 2, 1, perturbed);
        assert_eq!(r, Err(Error::PublicInputMismatch { row: 0 }));
    }
}

fn synthesized(p: u64, k: u64, a: u64, b: u64) -> (ConstraintSystem, Assignment) {
    let mut cs = ConstraintSystem::new(p);
    let config = MyCircuit::configure(&mut cs);
    let circuit = MyCircuit::new(k, Some(a), Some(b));
    let mut asg = Assignment::new(&cs, 16);
    circuit.synthesize(&config, &mut asg);
    (cs, asg)
}

#[test]
fn verification_is_idempotent() {
    let (cs, asg) = synthesized(101, 7, 2, 3);
    let good = vec![50u64];
    let bad = vec![51u64];
    assert_eq!(verify(&cs, &asg, &good), verify(&cs, &asg, &good));
    assert_eq!(verify(&cs, &asg, &good), Ok(()));
    assert_eq!(verify(&cs, &asg, &bad), verify(&cs, &asg, &bad));
    assert!(verify(&cs, &asg, &bad).is_err());
}

#[test]
fn mutating_a_copied_cell_is_a_copy_violation() {
    let (cs, mut asg) = synthesized(101, 7, 2, 3);
    // Row 2 binds the constant: the fixed cell (3, 2) is copied into the
    // advice cell (0, 2), and neither is queried by any active gate row.
    let config_cell_column = simple_example::column::Column {
        index: 0,
        kind: simple_example::column::ColumnKind::Advice,
    };
    asg.assign(config_cell_column, 2, Some(8));
    let r = verify(&cs, &asg, &vec![50u64]);
    assert_eq!(
        r,
        Err(Error::CopyViolation {
            left: Cell { column: 3, row: 2 },
            right: Cell { column: 0, row: 2 },
        })
    );
}

#[test]
fn synthesis_layout_is_deterministic() {
    let (_cs, asg) = synthesized(101, 7, 2, 3);
    assert_eq!(asg.next_row, 9);
    // Column 0 (first advice): a, b, k, a, ab, ab, absq, k, c.
    assert_eq!(asg.cells[0][0], Some(2));
    assert_eq!(asg.cells[0][1], Some(3));
    assert_eq!(asg.cells[0][2], Some(7));
    assert_eq!(asg.cells[0][3], Some(2));
    assert_eq!(asg.cells[0][4], Some(6));
    assert_eq!(asg.cells[0][5], Some(6));
    assert_eq!(asg.cells[0][6], Some(36));
    assert_eq!(asg.cells[0][7], Some(7));
    assert_eq!(asg.cells[0][8], Some(50));
    // Column 1 (second advice): the multiplicands' right operands.
    assert_eq!(asg.cells[1][3], Some(3));
    assert_eq!(asg.cells[1][5], Some(6));
    assert_eq!(asg.cells[1][7], Some(36));
    // Column 3 (fixed): the constant, baked in at row 2.
    assert_eq!(asg.cells[3][2], Some(7));
    // Column 4 (selector): active exactly at the three multiplication rows.
    assert_eq!(asg.cells[4][3], Some(1));
    assert_eq!(asg.cells[4][5], Some(1));
    assert_eq!(asg.cells[4][7], Some(1));
    assert_eq!(asg.cells[4][0], None);
    assert_eq!(asg.cells[4][4], None);
    // Eight equality constraints were declared.
    assert_eq!(asg.copies.len(), 8);
}

#[test]
fn unknown_witnesses_leave_cells_unassigned() {
    let mut cs = ConstraintSystem::new(101);
    let config = MyCircuit::configure(&mut cs);
    let circuit = MyCircuit::new(7, Some(2), Some(3)).without_witnesses();
    let mut asg = Assignment::new(&cs, 16);
    circuit.synthesize(&config, &mut asg);
    assert_eq!(asg.cells[0][0], None);
    // The selector is still enabled, so verification reports the first gate
    // row that references a never-written cell.
    let r = verify(&cs, &asg, &vec![0u64]);
    assert_eq!(r, Err(Error::UnassignedCell { gate: 0, row: 3 }));
}
