//! Polynomial expressions over the columns of a circuit.
//!
//! A gate or lookup input is a tree built from column queries at a row
//! offset, selector queries, constants, and the ring operations.  The tree
//! is pure data: a gadget builds it at configure time, the constraint
//! system stores it, and evaluation happens against a concrete assignment,
//! row by row, with row offsets wrapping cyclically as the evaluation
//! domain does.

use vstd::prelude::*;

use crate::cs::{AdviceColumn, FixedColumn, InstanceColumn, Selector};
use crate::field::{fadd, fmul, fneg, Fp};
use crate::witness::Assignment;

verus! {

/// A row offset at which a column is queried: 0 is the current row, 1 the
/// next, and so on.
#[derive(Clone, Copy, Debug, PartialEq, Eq, Structural)]
pub struct Rotation {
    pub offset: u32,
}

impl Rotation {
    /// Query at the current row.
    pub fn cur() -> (r: Rotation)
        ensures
            r.offset == 0,
    {
        Rotation { offset: 0 }
    }

    /// Query at the next row.
    pub fn next() -> (r: Rotation)
        ensures
            r.offset == 1,
    {
        Rotation { offset: 1 }
    }
}

/// The row a query lands on: offsets wrap around the evaluation domain.
pub open spec fn rot_row(row: int, offset: int, num_rows: int) -> int {
    (row + offset) % num_rows
}

/// The field value of a cell; a cell never written evaluates as zero.
pub open spec fn cell_int(c: Option<Fp>) -> int {
    match c {
        Option::Some(x) => x.v as int,
        Option::None => 0,
    }
}

/// A polynomial expression over column queries.
pub enum Expression {
    /// A constant field element.
    Constant(Fp),
    /// The value of an advice cell, at a row offset.
    Advice(AdviceColumn, Rotation),
    /// The value of a fixed cell, at a row offset.
    Fixed(FixedColumn, Rotation),
    /// The value of an instance cell, at a row offset.
    Instance(InstanceColumn, Rotation),
    /// A selector: 1 where enabled, 0 elsewhere.
    Selector(Selector),
    /// Additive inverse.
    Negated(Box<Expression>),
    /// Sum of two expressions.
    Sum(Box<Expression>, Box<Expression>),
    /// Product of two expressions.
    Product(Box<Expression>, Box<Expression>),
}

impl Expression {
    /// Every constant reduced and every column or selector index below the
    /// given counts.
    pub open spec fn wf_in(self, na: int, nf: int, ni: int, ns: int) -> bool
        decreases self,
    {
        match self {
            Expression::Constant(c) => c.valid(),
            Expression::Advice(col, _) => col.index < na,
            Expression::Fixed(col, _) => col.index < nf,
            Expression::Instance(col, _) => col.index < ni,
            Expression::Selector(s) => s.index < ns,
            Expression::Negated(e) => e.wf_in(na, nf, ni, ns),
            Expression::Sum(a, b) => a.wf_in(na, nf, ni, ns) && b.wf_in(na, nf, ni, ns),
            Expression::Product(a, b) => a.wf_in(na, nf, ni, ns) && b.wf_in(na, nf, ni, ns),
        }
    }

    /// The value of the expression on a row of an assignment, as a
    /// canonical residue.
    pub open spec fn eval(self, asg: Assignment, row: int) -> int
        decreases self,
    {
        match self {
            Expression::Constant(c) => c.v as int,
            Expression::Advice(col, rot) => cell_int(
                asg.advice@[col.index as int]@[rot_row(
                    row,
                    rot.offset as int,
                    asg.num_rows as int,
                )],
            ),
            Expression::Fixed(col, rot) => cell_int(
                asg.fixed@[col.index as int]@[rot_row(row, rot.offset as int, asg.num_rows as int)],
            ),
            Expression::Instance(col, rot) => cell_int(
                asg.instance@[col.index as int]@[rot_row(
                    row,
                    rot.offset as int,
                    asg.num_rows as int,
                )],
            ),
            Expression::Selector(s) => {
                if asg.selectors@[s.index as int]@[row] {
                    1int
                } else {
                    0int
                }
            },
            Expression::Negated(e) => fneg(e.eval(asg, row)),
            Expression::Sum(a, b) => fadd(a.eval(asg, row), b.eval(asg, row)),
            Expression::Product(a, b) => fmul(a.eval(asg, row), b.eval(asg, row)),
        }
    }

    /// A structurally equal copy of the expression.
    pub fn dup(&self) -> (r: Expression)
        ensures
            r == *self,
        decreases *self,
    {
        match self {
            Expression::Constant(c) => Expression::Constant(*c),
            Expression::Advice(col, rot) => Expression::Advice(*col, *rot),
            Expression::Fixed(col, rot) => Expression::Fixed(*col, *rot),
            Expression::Instance(col, rot) => Expression::Instance(*col, *rot),
            Expression::Selector(s) => Expression::Selector(*s),
            Expression::Negated(e) => Expression::Negated(Box::new(e.dup())),
            Expression::Sum(a, b) => Expression::Sum(Box::new(a.dup()), Box::new(b.dup())),
            Expression::Product(a, b) => Expression::Product(Box::new(a.dup()), Box::new(b.dup())),
        }
    }

    /// Sum of two expressions.
    pub fn add(self, rhs: Expression) -> (r: Expression)
        ensures
            r == Expression::Sum(Box::new(self), Box::new(rhs)),
    {
        Expression::Sum(Box::new(self), Box::new(rhs))
    }

    /// Difference of two expressions, as a sum with a negation.
    pub fn sub(self, rhs: Expression) -> (r: Expression)
        ensures
            r == Expression::Sum(Box::new(self), Box::new(Expression::Negated(Box::new(rhs)))),
    {
        Expression::Sum(Box::new(self), Box::new(Expression::Negated(Box::new(rhs))))
    }

    /// Product of two expressions.
    pub fn mul(self, rhs: Expression) -> (r: Expression)
        ensures
            r == Expression::Product(Box::new(self), Box::new(rhs)),
    {
        Expression::Product(Box::new(self), Box::new(rhs))
    }

    /// Evaluate the expression on a row of an assignment.
    pub fn evaluate(&self, asg: &Assignment, row: usize) -> (r: Fp)
        requires
            asg.wf_dims(),
            self.wf_in(
                asg.advice@.len() as int,
                asg.fixed@.len() as int,
                asg.instance@.len() as int,
                asg.selectors@.len() as int,
            ),
            row < asg.num_rows,
        ensures
            r.valid(),
            r.v as int == self.eval(*asg, row as int),
        decreases *self,
    {
        match self {
            Expression::Constant(c) => *c,
            Expression::Advice(col, rot) => {
                let at = rotated_row(row, rot.offset, asg.num_rows);
                cell_value(&asg.advice[col.index], at)
            },
            Expression::Fixed(col, rot) => {
                let at = rotated_row(row, rot.offset, asg.num_rows);
                cell_value(&asg.fixed[col.index], at)
            },
            Expression::Instance(col, rot) => {
                let at = rotated_row(row, rot.offset, asg.num_rows);
                cell_value(&asg.instance[col.index], at)
            },
            Expression::Selector(s) => {
                if asg.selectors[s.index][row] {
                    Fp::one()
                } else {
                    Fp::zero()
                }
            },
            Expression::Negated(e) => e.evaluate(asg, row).neg(),
            Expression::Sum(a, b) => a.evaluate(asg, row).add(b.evaluate(asg, row)),
            Expression::Product(a, b) => a.evaluate(asg, row).mul(b.evaluate(asg, row)),
        }
    }
}

/// The concrete row a rotated query lands on.
fn rotated_row(row: usize, offset: u32, num_rows: usize) -> (r: usize)
    requires
        num_rows >= 1,
        row < num_rows,
    ensures
        r as int == rot_row(row as int, offset as int, num_rows as int),
        r < num_rows,
{
    ((row as u128 + offset as u128) % num_rows as u128) as usize
}

/// Read a cell, an unwritten cell reading as zero.
fn cell_value(column: &Vec<Option<Fp>>, row: usize) -> (r: Fp)
    requires
        row < column@.len(),
        column@[row as int] matches Option::Some(x) ==> x.valid(),
    ensures
        r.valid(),
        r.v as int == cell_int(column@[row as int]),
{
    match column[row] {
        Option::Some(x) => x,
        Option::None => Fp::zero(),
    }
}

} // verus!
