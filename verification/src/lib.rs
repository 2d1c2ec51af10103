//! A minimal PLONKish arithmetization and constraint-checking engine.
//!
//! A circuit is described as a set of typed columns (fixed, advice, selector,
//! instance), a set of named polynomial gates over queried cells, and a set of
//! equality (copy) constraints.  A chip assigns concrete field values into
//! regions of rows, and a verifier checks every gate, copy constraint and
//! public-input binding against the finished assignment table.

pub mod assign;
pub mod chip;
pub mod circuit;
pub mod column;
pub mod cs;
pub mod error;
pub mod expr;
pub mod field;
pub mod laws;
pub mod verify;

pub use chip::FieldConfig;
pub use circuit::MyCircuit;
pub use error::Error;
pub use field::f_add;
pub use field::f_mul;
pub use field::f_sub;
pub use laws::run_mul_circuit;
pub use verify::verify;
