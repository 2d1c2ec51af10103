//! Polynomial gate expressions and their evaluation.
//!
//! A gate's polynomial is an expression tree over field constants and queries.
//! A query names a column and a row offset relative to the row at which the
//! gate is evaluated (offset 0 is the current row, +1 the next row).
//! Evaluation is bounds-checked: a query that reaches outside the table, or a
//! cell that was never assigned, makes the whole evaluation undefined rather
//! than silently zero.

use crate::field::is_elem;
use crate::field::spec_add;
use crate::field::spec_mul;
use crate::field::spec_sub;
use crate::field::f_add;
use crate::field::f_mul;
use crate::field::f_sub;
use vstd::prelude::*;

verus! {

/// A polynomial expression over queried cells and field constants.
pub enum Expr {
    /// A field constant, reduced modulo the field's modulus when evaluated.
    Constant(u64),
    /// The value of a column at a row offset relative to the evaluation row.
    Query(usize, i64),
    Add(Box<Expr>, Box<Expr>),
    Sub(Box<Expr>, Box<Expr>),
    Mul(Box<Expr>, Box<Expr>),
}

/// The contents of the assignment table, one sequence of optional values per
/// column: `None` marks a cell that was never assigned.
pub type TableView = Seq<Seq<Option<u64>>>;

/// The mathematical contents of an executable table.
pub open spec fn table_view_of(cells: Vec<Vec<Option<u64>>>) -> TableView {
    Seq::new(cells@.len(), |c: int| cells@[c]@)
}

/// Every query of `e` names a column below `ncols`.
pub open spec fn expr_queries_ok(e: Expr, ncols: nat) -> bool
    decreases e,
{
    match e {
        Expr::Constant(_) => true,
        Expr::Query(col, _) => col < ncols,
        Expr::Add(x, y) => expr_queries_ok(*x, ncols) && expr_queries_ok(*y, ncols),
        Expr::Sub(x, y) => expr_queries_ok(*x, ncols) && expr_queries_ok(*y, ncols),
        Expr::Mul(x, y) => expr_queries_ok(*x, ncols) && expr_queries_ok(*y, ncols),
    }
}

/// The value of `e` at `row`, over the table `tab` in the field of modulus
/// `p`; `None` when some queried cell lies outside the table or was never
/// assigned.
pub open spec fn eval_expr(e: Expr, tab: TableView, row: int, p: u64) -> Option<u64>
    recommends
        p >= 1,
    decreases e,
{
    match e {
        Expr::Constant(c) => Some((((c as int) % (p as int)) as u64)),
        Expr::Query(col, rot) => {
            let r = row + rot;
            if col < tab.len() && 0 <= r < tab[col as int].len() {
                tab[col as int][r]
            } else {
                None
            }
        },
        Expr::Add(x, y) => {
            match (eval_expr(*x, tab, row, p), eval_expr(*y, tab, row, p)) {
                (Some(u), Some(v)) => Some(spec_add(u, v, p)),
                _ => None,
            }
        },
        Expr::Sub(x, y) => {
            match (eval_expr(*x, tab, row, p), eval_expr(*y, tab, row, p)) {
                (Some(u), Some(v)) => Some(spec_sub(u, v, p)),
                _ => None,
            }
        },
        Expr::Mul(x, y) => {
            match (eval_expr(*x, tab, row, p), eval_expr(*y, tab, row, p)) {
                (Some(u), Some(v)) => Some(spec_mul(u, v, p)),
                _ => None,
            }
        },
    }
}

/// Every assigned cell of `tab` holds a field element of modulus `p`.
pub open spec fn table_values_ok(tab: TableView, p: u64) -> bool {
    forall|c: int, r: int|
        0 <= c < tab.len() && 0 <= r < tab[c].len() && tab[c][r] is Some
            ==> is_elem(#[trigger] tab[c][r]->0, p)
}

/// A query set that fits a column space keeps fitting when the space grows.
pub proof fn lemma_queries_ok_extend(e: Expr, n1: nat, n2: nat)
    requires
        expr_queries_ok(e, n1),
        n1 <= n2,
    ensures
        expr_queries_ok(e, n2),
    decreases e,
{
    match e {
        Expr::Constant(_) => {},
        Expr::Query(_, _) => {},
        Expr::Add(x, y) => {
            lemma_queries_ok_extend(*x, n1, n2);
            lemma_queries_ok_extend(*y, n1, n2);
        },
        Expr::Sub(x, y) => {
            lemma_queries_ok_extend(*x, n1, n2);
            lemma_queries_ok_extend(*y, n1, n2);
        },
        Expr::Mul(x, y) => {
            lemma_queries_ok_extend(*x, n1, n2);
            lemma_queries_ok_extend(*y, n1, n2);
        },
    }
}

/// Evaluates `e` at `row` over the table `tab` in the field of modulus `p`.
pub fn eval(e: &Expr, tab: &Vec<Vec<Option<u64>>>, row: usize, p: u64) -> (r: Option<u64>)
    requires
        p >= 1,
        table_values_ok(table_view_of(*tab), p),
    ensures
        r == eval_expr(*e, table_view_of(*tab), row as int, p),
        r is Some ==> is_elem(r->0, p),
    decreases *e,
{
    match e {
        Expr::Constant(c) => Some(*c % p),
        Expr::Query(col, rot) => {
            let r: i128 = row as i128 + *rot as i128;
            if *col < tab.len() && 0 <= r && r < tab[*col].len() as i128 {
                tab[*col][r as usize]
            } else {
                None
            }
        },
        Expr::Add(x, y) => {
            match (eval(x, tab, row, p), eval(y, tab, row, p)) {
                (Some(u), Some(v)) => Some(f_add(u, v, p)),
                _ => None,
            }
        },
        Expr::Sub(x, y) => {
            match (eval(x, tab, row, p), eval(y, tab, row, p)) {
                (Some(u), Some(v)) => Some(f_sub(u, v, p)),
                _ => None,
            }
        },
        Expr::Mul(x, y) => {
            match (eval(x, tab, row, p), eval(y, tab, row, p)) {
                (Some(u), Some(v)) => Some(f_mul(u, v, p)),
                _ => None,
            }
        },
    }
}

} // verus!
