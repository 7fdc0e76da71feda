//! The constraint system: the registry a circuit shape is described in.
//!
//! At configure time a circuit allocates columns and selectors here and
//! registers its gates and lookup arguments.  The shape is frozen by
//! construction once assignment begins: an `Assignment` borrows the
//! registry immutably, so no gate, lookup or column can be added while a
//! witness is being written.

use vstd::prelude::*;

use crate::expr::Expression;

verus! {

/// A private-witness column, written during assignment.
#[derive(Clone, Copy, Debug, PartialEq, Eq, Structural)]
pub struct AdviceColumn {
    pub index: usize,
}

/// A constant column, part of the frozen shape.
#[derive(Clone, Copy, Debug, PartialEq, Eq, Structural)]
pub struct FixedColumn {
    pub index: usize,
}

/// A public-input column, written by the caller.
#[derive(Clone, Copy, Debug, PartialEq, Eq, Structural)]
pub struct InstanceColumn {
    pub index: usize,
}

/// A lookup-table column: loaded once per shape, read-only afterward.
#[derive(Clone, Copy, Debug, PartialEq, Eq, Structural)]
pub struct TableColumn {
    pub index: usize,
}

/// A boolean per-row flag enabling a gate or lookup.
#[derive(Clone, Copy, Debug, PartialEq, Eq, Structural)]
pub struct Selector {
    pub index: usize,
}

/// A named set of polynomials, each required to evaluate to zero on every
/// row.
pub struct Gate {
    pub name: String,
    pub polys: Vec<Expression>,
}

/// A named lookup argument: on every row, the tuple of input-expression
/// values must equal some row of the paired table columns.
pub struct Lookup {
    pub name: String,
    pub pairs: Vec<(Expression, TableColumn)>,
}

/// An assignment-time or synthesis-time failure.
#[derive(Clone, Copy, Debug, PartialEq, Eq, Structural)]
pub enum Error {
    /// A cell was written twice with differing values.
    CellReassigned,
    /// A write or selector touch outside the declared extent.
    OutOfBounds,
    /// A copy constraint over a column not enabled for equality.
    EqualityNotEnabled,
    /// A decomposition whose value has more bits than its chunks can hold.
    BitLengthExceeded,
}

/// The registry of columns, selectors, gates and lookup arguments.
pub struct ConstraintSystem {
    pub num_advice: usize,
    pub num_fixed: usize,
    pub num_instance: usize,
    pub num_tables: usize,
    pub num_selectors: usize,
    pub gates: Vec<Gate>,
    pub lookups: Vec<Lookup>,
    pub equality: Vec<AdviceColumn>,
}

impl ConstraintSystem {
    /// Every registered expression speaks only of allocated columns and
    /// selectors, and every lookup pairs its inputs with allocated table
    /// columns.
    pub open spec fn wf(self) -> bool {
        &&& forall|g: int, j: int|
            0 <= g < self.gates@.len() && 0 <= j < self.gates@[g].polys@.len()
                ==> (#[trigger] self.gates@[g].polys@[j]).wf_in(
                self.num_advice as int,
                self.num_fixed as int,
                self.num_instance as int,
                self.num_selectors as int,
            )
        &&& forall|l: int, j: int|
            0 <= l < self.lookups@.len() && 0 <= j < self.lookups@[l].pairs@.len()
                ==> (#[trigger] self.lookups@[l].pairs@[j]).0.wf_in(
                self.num_advice as int,
                self.num_fixed as int,
                self.num_instance as int,
                self.num_selectors as int,
            ) && self.lookups@[l].pairs@[j].1.index < self.num_tables
        &&& forall|k: int|
            0 <= k < self.equality@.len()
                ==> (#[trigger] self.equality@[k]).index < self.num_advice
    }

    /// A fresh, empty registry.
    pub fn new() -> (cs: ConstraintSystem)
        ensures
            cs.num_advice == 0,
            cs.num_fixed == 0,
            cs.num_instance == 0,
            cs.num_tables == 0,
            cs.num_selectors == 0,
            cs.gates@.len() == 0,
            cs.lookups@.len() == 0,
            cs.equality@.len() == 0,
            cs.wf(),
    {
        ConstraintSystem {
            num_advice: 0,
            num_fixed: 0,
            num_instance: 0,
            num_tables: 0,
            num_selectors: 0,
            gates: Vec::new(),
            lookups: Vec::new(),
            equality: Vec::new(),
        }
    }

    /// Allocate an advice column.
    pub fn advice_column(&mut self) -> (c: AdviceColumn)
        requires
            old(self).num_advice < usize::MAX,
        ensures
            c.index == old(self).num_advice,
            final(self).num_advice == old(self).num_advice + 1,
            final(self).num_fixed == old(self).num_fixed,
            final(self).num_instance == old(self).num_instance,
            final(self).num_tables == old(self).num_tables,
            final(self).num_selectors == old(self).num_selectors,
            final(self).gates == old(self).gates,
            final(self).lookups == old(self).lookups,
            final(self).equality == old(self).equality,
            old(self).wf() ==> final(self).wf(),
    {
        let c = AdviceColumn { index: self.num_advice };
        self.num_advice = self.num_advice + 1;
        proof {
            lemma_wf_grows(*old(self), *self);
        }
        c
    }

    /// Allocate a fixed column.
    pub fn fixed_column(&mut self) -> (c: FixedColumn)
        requires
            old(self).num_fixed < usize::MAX,
        ensures
            c.index == old(self).num_fixed,
            final(self).num_fixed == old(self).num_fixed + 1,
            final(self).num_advice == old(self).num_advice,
            final(self).num_instance == old(self).num_instance,
            final(self).num_tables == old(self).num_tables,
            final(self).num_selectors == old(self).num_selectors,
            final(self).gates == old(self).gates,
            final(self).lookups == old(self).lookups,
            final(self).equality == old(self).equality,
            old(self).wf() ==> final(self).wf(),
    {
        let c = FixedColumn { index: self.num_fixed };
        self.num_fixed = self.num_fixed + 1;
        proof {
            lemma_wf_grows(*old(self), *self);
        }
        c
    }

    /// Allocate an instance column.
    pub fn instance_column(&mut self) -> (c: InstanceColumn)
        requires
            old(self).num_instance < usize::MAX,
        ensures
            c.index == old(self).num_instance,
            final(self).num_instance == old(self).num_instance + 1,
            final(self).num_advice == old(self).num_advice,
            final(self).num_fixed == old(self).num_fixed,
            final(self).num_tables == old(self).num_tables,
            final(self).num_selectors == old(self).num_selectors,
            final(self).gates == old(self).gates,
            final(self).lookups == old(self).lookups,
            final(self).equality == old(self).equality,
            old(self).wf() ==> final(self).wf(),
    {
        let c = InstanceColumn { index: self.num_instance };
        self.num_instance = self.num_instance + 1;
        proof {
            lemma_wf_grows(*old(self), *self);
        }
        c
    }

    /// Allocate a lookup-table column.
    pub fn lookup_table_column(&mut self) -> (c: TableColumn)
        requires
            old(self).num_tables < usize::MAX,
        ensures
            c.index == old(self).num_tables,
            final(self).num_tables == old(self).num_tables + 1,
            final(self).num_advice == old(self).num_advice,
            final(self).num_fixed == old(self).num_fixed,
            final(self).num_instance == old(self).num_instance,
            final(self).num_selectors == old(self).num_selectors,
            final(self).gates == old(self).gates,
            final(self).lookups == old(self).lookups,
            final(self).equality == old(self).equality,
            old(self).wf() ==> final(self).wf(),
    {
        let c = TableColumn { index: self.num_tables };
        self.num_tables = self.num_tables + 1;
        proof {
            lemma_wf_grows(*old(self), *self);
        }
        c
    }

    /// Allocate a selector.
    pub fn selector(&mut self) -> (s: Selector)
        requires
            old(self).num_selectors < usize::MAX,
        ensures
            s.index == old(self).num_selectors,
            final(self).num_selectors == old(self).num_selectors + 1,
            final(self).num_advice == old(self).num_advice,
            final(self).num_fixed == old(self).num_fixed,
            final(self).num_instance == old(self).num_instance,
            final(self).num_tables == old(self).num_tables,
            final(self).gates == old(self).gates,
            final(self).lookups == old(self).lookups,
            final(self).equality == old(self).equality,
            old(self).wf() ==> final(self).wf(),
    {
        let s = Selector { index: self.num_selectors };
        self.num_selectors = self.num_selectors + 1;
        proof {
            lemma_wf_grows(*old(self), *self);
        }
        s
    }

    /// Allocate a selector meant to gate a lookup argument.  The model
    /// draws no distinction between plain and lookup-capable selectors;
    /// both allocate a fresh flag column.
    pub fn complex_selector(&mut self) -> (s: Selector)
        requires
            old(self).num_selectors < usize::MAX,
        ensures
            s.index == old(self).num_selectors,
            final(self).num_selectors == old(self).num_selectors + 1,
            final(self).num_advice == old(self).num_advice,
            final(self).num_fixed == old(self).num_fixed,
            final(self).num_instance == old(self).num_instance,
            final(self).num_tables == old(self).num_tables,
            final(self).gates == old(self).gates,
            final(self).lookups == old(self).lookups,
            final(self).equality == old(self).equality,
            old(self).wf() ==> final(self).wf(),
    {
        self.selector()
    }

    /// Mark an advice column as eligible for copy constraints.
    pub fn enable_equality(&mut self, col: AdviceColumn)
        requires
            col.index < old(self).num_advice,
        ensures
            final(self).equality@ == old(self).equality@.push(col),
            final(self).num_advice == old(self).num_advice,
            final(self).num_fixed == old(self).num_fixed,
            final(self).num_instance == old(self).num_instance,
            final(self).num_tables == old(self).num_tables,
            final(self).num_selectors == old(self).num_selectors,
            final(self).gates == old(self).gates,
            final(self).lookups == old(self).lookups,
            old(self).wf() ==> final(self).wf(),
    {
        self.equality.push(col);
    }

    /// Register a named gate: each polynomial must evaluate to zero on
    /// every row.
    pub fn create_gate(&mut self, name: &str, polys: Vec<Expression>)
        requires
            forall|j: int|
                0 <= j < polys@.len() ==> (#[trigger] polys@[j]).wf_in(
                    old(self).num_advice as int,
                    old(self).num_fixed as int,
                    old(self).num_instance as int,
                    old(self).num_selectors as int,
                ),
        ensures
            final(self).gates@.len() == old(self).gates@.len() + 1,
            forall|g: int|
                0 <= g < old(self).gates@.len() ==> final(self).gates@[g] == old(self).gates@[g],
            final(self).gates@[old(self).gates@.len() as int].name@ == name@,
            final(self).gates@[old(self).gates@.len() as int].polys == polys,
            final(self).num_advice == old(self).num_advice,
            final(self).num_fixed == old(self).num_fixed,
            final(self).num_instance == old(self).num_instance,
            final(self).num_tables == old(self).num_tables,
            final(self).num_selectors == old(self).num_selectors,
            final(self).lookups == old(self).lookups,
            final(self).equality == old(self).equality,
            old(self).wf() ==> final(self).wf(),
    {
        self.gates.push(Gate { name: name.to_owned(), polys });
    }

    /// Register a named lookup argument: on every row, the tuple of input
    /// values must match some row of the paired table columns.
    pub fn lookup(&mut self, name: &str, pairs: Vec<(Expression, TableColumn)>)
        requires
            forall|j: int|
                0 <= j < pairs@.len() ==> (#[trigger] pairs@[j]).0.wf_in(
                    old(self).num_advice as int,
                    old(self).num_fixed as int,
                    old(self).num_instance as int,
                    old(self).num_selectors as int,
                ) && pairs@[j].1.index < old(self).num_tables,
        ensures
            final(self).lookups@.len() == old(self).lookups@.len() + 1,
            forall|l: int|
                0 <= l < old(self).lookups@.len()
                    ==> final(self).lookups@[l] == old(self).lookups@[l],
            final(self).lookups@[old(self).lookups@.len() as int].name@ == name@,
            final(self).lookups@[old(self).lookups@.len() as int].pairs == pairs,
            final(self).num_advice == old(self).num_advice,
            final(self).num_fixed == old(self).num_fixed,
            final(self).num_instance == old(self).num_instance,
            final(self).num_tables == old(self).num_tables,
            final(self).num_selectors == old(self).num_selectors,
            final(self).gates == old(self).gates,
            final(self).equality == old(self).equality,
            old(self).wf() ==> final(self).wf(),
    {
        self.lookups.push(Lookup { name: name.to_owned(), pairs });
    }
}

/// Well-formedness of an expression only bounds indices from above, so it
/// survives any growth of the registry.
pub proof fn lemma_expr_wf_grows(
    e: Expression,
    na1: int,
    nf1: int,
    ni1: int,
    ns1: int,
    na2: int,
    nf2: int,
    ni2: int,
    ns2: int,
)
    requires
        e.wf_in(na1, nf1, ni1, ns1),
        na1 <= na2,
        nf1 <= nf2,
        ni1 <= ni2,
        ns1 <= ns2,
    ensures
        e.wf_in(na2, nf2, ni2, ns2),
    decreases e,
{
    match e {
        Expression::Negated(inner) => {
            lemma_expr_wf_grows(*inner, na1, nf1, ni1, ns1, na2, nf2, ni2, ns2);
        },
        Expression::Sum(a, b) => {
            lemma_expr_wf_grows(*a, na1, nf1, ni1, ns1, na2, nf2, ni2, ns2);
            lemma_expr_wf_grows(*b, na1, nf1, ni1, ns1, na2, nf2, ni2, ns2);
        },
        Expression::Product(a, b) => {
            lemma_expr_wf_grows(*a, na1, nf1, ni1, ns1, na2, nf2, ni2, ns2);
            lemma_expr_wf_grows(*b, na1, nf1, ni1, ns1, na2, nf2, ni2, ns2);
        },
        _ => {},
    }
}

/// A registry stays well formed when counts only grow and the registered
/// items stay as they were.
proof fn lemma_wf_grows(a: ConstraintSystem, b: ConstraintSystem)
    requires
        b.gates == a.gates,
        b.lookups == a.lookups,
        b.equality == a.equality,
        a.num_advice <= b.num_advice,
        a.num_fixed <= b.num_fixed,
        a.num_instance <= b.num_instance,
        a.num_tables <= b.num_tables,
        a.num_selectors <= b.num_selectors,
    ensures
        a.wf() ==> b.wf(),
{
    if a.wf() {
        assert forall|g: int, j: int|
            0 <= g < b.gates@.len() && 0 <= j < b.gates@[g].polys@.len() implies (
        #[trigger] b.gates@[g].polys@[j]).wf_in(
            b.num_advice as int,
            b.num_fixed as int,
            b.num_instance as int,
            b.num_selectors as int,
        ) by {
            lemma_expr_wf_grows(
                b.gates@[g].polys@[j],
                a.num_advice as int,
                a.num_fixed as int,
                a.num_instance as int,
                a.num_selectors as int,
                b.num_advice as int,
                b.num_fixed as int,
                b.num_instance as int,
                b.num_selectors as int,
            );
        }
        assert forall|l: int, j: int|
            0 <= l < b.lookups@.len() && 0 <= j < b.lookups@[l].pairs@.len() implies (
        #[trigger] b.lookups@[l].pairs@[j]).0.wf_in(
            b.num_advice as int,
            b.num_fixed as int,
            b.num_instance as int,
            b.num_selectors as int,
        ) && b.lookups@[l].pairs@[j].1.index < b.num_tables by {
            lemma_expr_wf_grows(
                b.lookups@[l].pairs@[j].0,
                a.num_advice as int,
                a.num_fixed as int,
                a.num_instance as int,
                a.num_selectors as int,
                b.num_advice as int,
                b.num_fixed as int,
                b.num_instance as int,
                b.num_selectors as int,
            );
        }
    }
}

} // verus!
