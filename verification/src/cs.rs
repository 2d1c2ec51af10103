//! The constraint system: column allocation and gate registration.
//!
//! A circuit's configure phase allocates typed columns, marks columns that may
//! take part in equality constraints, and registers named gates.  The column
//! space and the set of gates are fixed once configuration ends; synthesis and
//! verification only read them.

use crate::column::Column;
use crate::column::ColumnKind;
use crate::error::Error;
use crate::expr::expr_queries_ok;
use crate::expr::Expr;
use vstd::prelude::*;

verus! {

/// A named polynomial identity, gated by a selector column: wherever the
/// selector is active, each of its polynomials must evaluate to the
/// additive identity.
pub struct Gate {
    pub name: &'static str,
    pub selector: usize,
    pub polys: Vec<Expr>,
}

/// Accumulates columns, equality-eligibility marks and gates during the
/// configure phase, for the field of modulus `p`.
pub struct ConstraintSystem {
    pub p: u64,
    pub kinds: Vec<ColumnKind>,
    pub equality: Vec<bool>,
    pub gates: Vec<Gate>,
}

/// `col` was allocated by this system, with the kind its handle claims.
pub open spec fn allocated(kinds: Seq<ColumnKind>, col: Column) -> bool {
    col.index < kinds.len() && kinds[col.index as int] == col.kind
}

/// A gate's selector is an allocated selector column and every query of
/// every polynomial names an allocated column.
pub open spec fn gate_wf(g: Gate, kinds: Seq<ColumnKind>) -> bool {
    &&& g.selector < kinds.len()
    &&& kinds[g.selector as int] == ColumnKind::Selector
    &&& forall|j: int|
        0 <= j < g.polys@.len() ==> expr_queries_ok(#[trigger] g.polys@[j], kinds.len())
}

/// The system's internal invariant.
pub open spec fn cs_wf(cs: ConstraintSystem) -> bool {
    &&& cs.p >= 2
    &&& cs.equality@.len() == cs.kinds@.len()
    &&& forall|i: int|
        0 <= i < cs.equality@.len() && cs.equality@[i]
            ==> #[trigger] cs.kinds@[i] != ColumnKind::Selector
    &&& forall|i: int| 0 <= i < cs.gates@.len() ==> gate_wf(#[trigger] cs.gates@[i], cs.kinds@)
}

impl ConstraintSystem {
    /// An empty system over the field of modulus `p`.
    pub fn new(p: u64) -> (cs: Self)
        requires
            p >= 2,
        ensures
            cs_wf(cs),
            cs.p == p,
            cs.kinds@ =~= Seq::<ColumnKind>::empty(),
            cs.equality@ =~= Seq::<bool>::empty(),
            cs.gates@ =~= Seq::<Gate>::empty(),
    {
        ConstraintSystem { p, kinds: Vec::new(), equality: Vec::new(), gates: Vec::new() }
    }

    /// Allocates one column of the given kind.
    pub fn alloc_column(&mut self, kind: ColumnKind) -> (col: Column)
        requires
            cs_wf(*old(self)),
        ensures
            cs_wf(*final(self)),
            final(self).p == old(self).p,
            final(self).gates@ == old(self).gates@,
            final(self).kinds@ == old(self).kinds@.push(kind),
            final(self).equality@ == old(self).equality@.push(false),
            col.index == old(self).kinds@.len(),
            col.kind == kind,
            allocated(final(self).kinds@, col),
    {
        let index = self.kinds.len();
        self.kinds.push(kind);
        self.equality.push(false);
        proof {
            assert forall|i: int| 0 <= i < self.gates@.len() implies gate_wf(
                #[trigger] self.gates@[i],
                self.kinds@,
            ) by {
                let g = self.gates@[i];
                assert(gate_wf(g, old(self).kinds@));
                assert forall|j: int| 0 <= j < g.polys@.len() implies expr_queries_ok(
                    #[trigger] g.polys@[j],
                    self.kinds@.len(),
                ) by {
                    crate::expr::lemma_queries_ok_extend(
                        g.polys@[j],
                        old(self).kinds@.len(),
                        self.kinds@.len(),
                    );
                }
            }
        }
        Column { index, kind }
    }

    /// Allocates an advice (private witness) column.
    pub fn advice_column(&mut self) -> (col: Column)
        requires
            cs_wf(*old(self)),
        ensures
            cs_wf(*final(self)),
            final(self).p == old(self).p,
            final(self).gates@ == old(self).gates@,
            final(self).kinds@ == old(self).kinds@.push(ColumnKind::Advice),
            final(self).equality@ == old(self).equality@.push(false),
            col.index == old(self).kinds@.len(),
            col.kind == ColumnKind::Advice,
    {
        self.alloc_column(ColumnKind::Advice)
    }

    /// Allocates a fixed (circuit-constant) column.
    pub fn fixed_column(&mut self) -> (col: Column)
        requires
            cs_wf(*old(self)),
        ensures
            cs_wf(*final(self)),
            final(self).p == old(self).p,
            final(self).gates@ == old(self).gates@,
            final(self).kinds@ == old(self).kinds@.push(ColumnKind::Fixed),
            final(self).equality@ == old(self).equality@.push(false),
            col.index == old(self).kinds@.len(),
            col.kind == ColumnKind::Fixed,
    {
        self.alloc_column(ColumnKind::Fixed)
    }

    /// Allocates an instance (public input) column.
    pub fn instance_column(&mut self) -> (col: Column)
        requires
            cs_wf(*old(self)),
        ensures
            cs_wf(*final(self)),
            final(self).p == old(self).p,
            final(self).gates@ == old(self).gates@,
            final(self).kinds@ == old(self).kinds@.push(ColumnKind::Instance),
            final(self).equality@ == old(self).equality@.push(false),
            col.index == old(self).kinds@.len(),
            col.kind == ColumnKind::Instance,
    {
        self.alloc_column(ColumnKind::Instance)
    }

    /// Allocates a selector column.
    pub fn selector(&mut self) -> (col: Column)
        requires
            cs_wf(*old(self)),
        ensures
            cs_wf(*final(self)),
            final(self).p == old(self).p,
            final(self).gates@ == old(self).gates@,
            final(self).kinds@ == old(self).kinds@.push(ColumnKind::Selector),
            final(self).equality@ == old(self).equality@.push(false),
            col.index == old(self).kinds@.len(),
            col.kind == ColumnKind::Selector,
    {
        self.alloc_column(ColumnKind::Selector)
    }

    /// Marks `col` as eligible to take part in equality constraints.  Selector
    /// columns are never copy targets.
    pub fn enable_equality(&mut self, col: Column)
        requires
            cs_wf(*old(self)),
            allocated(old(self).kinds@, col),
            col.kind != ColumnKind::Selector,
        ensures
            cs_wf(*final(self)),
            final(self).p == old(self).p,
            final(self).kinds@ == old(self).kinds@,
            final(self).gates@ == old(self).gates@,
            final(self).equality@ == old(self).equality@.update(col.index as int, true),
    {
        self.equality[col.index] = true;
    }

    /// Registers a gate: a named set of polynomials that must vanish wherever
    /// `selector` is active.  Rejects a gate whose selector handle is not an
    /// allocated selector column, or whose polynomials query a column that was
    /// never allocated.
    pub fn create_gate(&mut self, name: &'static str, selector: Column, polys: Vec<Expr>) -> (r:
        Result<(), Error>)
        requires
            cs_wf(*old(self)),
        ensures
            cs_wf(*final(self)),
            final(self).p == old(self).p,
            final(self).kinds@ == old(self).kinds@,
            final(self).equality@ == old(self).equality@,
            r is Ok <==> (allocated(old(self).kinds@, selector) && selector.kind
                == ColumnKind::Selector && forall|j: int|
                0 <= j < polys@.len() ==> expr_queries_ok(
                    #[trigger] polys@[j],
                    old(self).kinds@.len(),
                )),
            r is Ok ==> final(self).gates@ == old(self).gates@.push(
                (Gate { name, selector: selector.index, polys }),
            ),
            r is Err ==> final(self).gates@ == old(self).gates@ && r->Err_0 matches
                Error::ConfigurationError { .. },
    {
        let ncols = self.kinds.len();
        if !(selector.index < ncols && matches!(self.kinds[selector.index], ColumnKind::Selector)
            && matches!(selector.kind, ColumnKind::Selector)) {
            return Err(
                Error::ConfigurationError { gate: self.gates.len(), column: selector.index },
            );
        }
        let mut j: usize = 0;
        while j < polys.len()
            invariant
                j <= polys@.len(),
                cs_wf(*self),
                *self == *old(self),
                ncols == self.kinds@.len(),
                forall|jj: int| 0 <= jj < j ==> expr_queries_ok(#[trigger] polys@[jj], ncols as nat),
            decreases polys@.len() - j,
        {
            match find_bad_query(&polys[j], ncols) {
                Some(column) => {
                    return Err(Error::ConfigurationError { gate: self.gates.len(), column });
                },
                None => {},
            }
            j = j + 1;
        }
        self.gates.push(Gate { name, selector: selector.index, polys });
        Ok(())
    }
}

/// Looks for a query of `e` that names a column at or beyond `ncols`.
pub fn find_bad_query(e: &Expr, ncols: usize) -> (r: Option<usize>)
    ensures
        r is None <==> expr_queries_ok(*e, ncols as nat),
        r is Some ==> r->0 >= ncols,
    decreases *e,
{
    match e {
        Expr::Constant(_) => None,
        Expr::Query(col, _) => if *col < ncols {
            None
        } else {
            Some(*col)
        },
        Expr::Add(x, y) => match find_bad_query(x, ncols) {
            Some(c) => Some(c),
            None => find_bad_query(y, ncols),
        },
        Expr::Sub(x, y) => match find_bad_query(x, ncols) {
            Some(c) => Some(c),
            None => find_bad_query(y, ncols),
        },
        Expr::Mul(x, y) => match find_bad_query(x, ncols) {
            Some(c) => Some(c),
            None => find_bad_query(y, ncols),
        },
    }
}

} // verus!
