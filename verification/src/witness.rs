//! Witness assignment: the per-proof contents of a circuit's columns.
//!
//! One `Assignment` holds the cells of every column for one proof
//! instance, over a fixed number of rows.  A cell may be written once;
//! writing it again with the same value is allowed and writing a
//! different value is an error, so a finished assignment is independent
//! of the order the gadgets wrote it in.  Assignment is strictly
//! sequential: every write goes through `&mut self`, so exclusive access
//! to a region of rows is the borrow the writer already holds.

use vstd::prelude::*;

use crate::cs::{AdviceColumn, ConstraintSystem, Error, Selector, TableColumn};
use crate::field::Fp;

verus! {

/// One advice cell, named by column and absolute row.
#[derive(Clone, Copy, Debug, PartialEq, Eq, Structural)]
pub struct CopyCell {
    pub column: AdviceColumn,
    pub row: usize,
}

/// A declared equality between two advice cells.
#[derive(Clone, Copy, Debug, PartialEq, Eq, Structural)]
pub struct CopyConstraint {
    pub left: CopyCell,
    pub right: CopyCell,
}

/// A written cell holds a reduced field element.
pub open spec fn cell_valid(c: Option<Fp>) -> bool {
    match c {
        Option::Some(x) => x.valid(),
        Option::None => true,
    }
}

/// Cell family `b` is family `a` with the single cell `(ci, row)` set to
/// `value` and every other cell as it was.
pub open spec fn cols_updated(
    a: Seq<Vec<Option<Fp>>>,
    b: Seq<Vec<Option<Fp>>>,
    ci: int,
    row: int,
    value: Fp,
) -> bool {
    &&& b.len() == a.len()
    &&& forall|i: int| 0 <= i < a.len() && i != ci ==> #[trigger] b[i] == a[i]
    &&& b[ci]@.len() == a[ci]@.len()
    &&& b[ci]@[row] == Option::Some(value)
    &&& forall|j: int| 0 <= j < a[ci]@.len() && j != row ==> #[trigger] b[ci]@[j] == a[ci]@[j]
}

/// Selector family `b` is family `a` with flag `(si, row)` raised and
/// every other flag as it was.
pub open spec fn selectors_updated(a: Seq<Vec<bool>>, b: Seq<Vec<bool>>, si: int, row: int) -> bool {
    &&& b.len() == a.len()
    &&& forall|i: int| 0 <= i < a.len() && i != si ==> #[trigger] b[i] == a[i]
    &&& b[si]@.len() == a[si]@.len()
    &&& b[si]@[row] == true
    &&& forall|j: int| 0 <= j < a[si]@.len() && j != row ==> #[trigger] b[si]@[j] == a[si]@[j]
}

/// The witness of one proof instance.
pub struct Assignment {
    pub num_rows: usize,
    pub advice: Vec<Vec<Option<Fp>>>,
    pub fixed: Vec<Vec<Option<Fp>>>,
    pub instance: Vec<Vec<Option<Fp>>>,
    pub selectors: Vec<Vec<bool>>,
    pub tables: Vec<Vec<Fp>>,
    pub copies: Vec<CopyConstraint>,
}

impl Assignment {
    /// Shape-independent sanity: every column spans `num_rows` rows, every
    /// written cell is reduced, and every copy constraint is in bounds.
    pub open spec fn wf_dims(self) -> bool {
        &&& self.num_rows >= 1
        &&& forall|i: int|
            0 <= i < self.advice@.len() ==> (#[trigger] self.advice@[i])@.len() == self.num_rows
        &&& forall|i: int, j: int|
            0 <= i < self.advice@.len() && 0 <= j < self.advice@[i]@.len() ==> cell_valid(
                #[trigger] self.advice@[i]@[j],
            )
        &&& forall|i: int|
            0 <= i < self.fixed@.len() ==> (#[trigger] self.fixed@[i])@.len() == self.num_rows
        &&& forall|i: int, j: int|
            0 <= i < self.fixed@.len() && 0 <= j < self.fixed@[i]@.len() ==> cell_valid(
                #[trigger] self.fixed@[i]@[j],
            )
        &&& forall|i: int|
            0 <= i < self.instance@.len() ==> (#[trigger] self.instance@[i])@.len()
                == self.num_rows
        &&& forall|i: int, j: int|
            0 <= i < self.instance@.len() && 0 <= j < self.instance@[i]@.len() ==> cell_valid(
                #[trigger] self.instance@[i]@[j],
            )
        &&& forall|i: int|
            0 <= i < self.selectors@.len() ==> (#[trigger] self.selectors@[i])@.len()
                == self.num_rows
        &&& forall|i: int, j: int|
            0 <= i < self.tables@.len() && 0 <= j < self.tables@[i]@.len()
                ==> (#[trigger] self.tables@[i]@[j]).valid()
        &&& forall|k: int|
            0 <= k < self.copies@.len() ==> {
                let c = #[trigger] self.copies@[k];
                &&& c.left.column.index < self.advice@.len()
                &&& c.left.row < self.num_rows
                &&& c.right.column.index < self.advice@.len()
                &&& c.right.row < self.num_rows
            }
    }

    /// The assignment fits the registry it was created from.
    pub open spec fn wf(self, cs: ConstraintSystem) -> bool {
        &&& self.wf_dims()
        &&& self.advice@.len() == cs.num_advice
        &&& self.fixed@.len() == cs.num_fixed
        &&& self.instance@.len() == cs.num_instance
        &&& self.selectors@.len() == cs.num_selectors
        &&& self.tables@.len() == cs.num_tables
    }

    /// A fresh assignment: every cell unwritten, every selector off,
    /// every table empty.
    pub fn new(cs: &ConstraintSystem, num_rows: usize) -> (asg: Assignment)
        requires
            num_rows >= 1,
        ensures
            asg.wf(*cs),
            asg.num_rows == num_rows,
            forall|i: int, j: int|
                0 <= i < asg.advice@.len() && 0 <= j < num_rows ==> #[trigger] asg.advice@[i]@[j]
                    matches Option::None,
            forall|i: int, j: int|
                0 <= i < asg.fixed@.len() && 0 <= j < num_rows ==> #[trigger] asg.fixed@[i]@[j]
                    matches Option::None,
            forall|i: int, j: int|
                0 <= i < asg.instance@.len() && 0 <= j < num_rows
                    ==> #[trigger] asg.instance@[i]@[j] matches Option::None,
            forall|i: int, j: int|
                0 <= i < asg.selectors@.len() && 0 <= j < num_rows
                    ==> #[trigger] asg.selectors@[i]@[j] == false,
            forall|i: int| 0 <= i < asg.tables@.len() ==> (#[trigger] asg.tables@[i])@.len() == 0,
            asg.copies@.len() == 0,
    {
        Assignment {
            num_rows,
            advice: empty_cells(cs.num_advice, num_rows),
            fixed: empty_cells(cs.num_fixed, num_rows),
            instance: empty_cells(cs.num_instance, num_rows),
            selectors: empty_flags(cs.num_selectors, num_rows),
            tables: empty_tables(cs.num_tables),
            copies: Vec::new(),
        }
    }

    /// Write an advice cell.
    pub fn assign_advice(&mut self, col: AdviceColumn, row: usize, value: Fp) -> (r: Result<
        (),
        Error,
    >)
        requires
            value.valid(),
        ensures
            col.index < old(self).advice@.len() && row < old(self).advice@[col.index as int]@.len()
                ==> match old(self).advice@[col.index as int]@[row as int] {
                Option::None => r is Ok && cols_updated(
                    old(self).advice@,
                    final(self).advice@,
                    col.index as int,
                    row as int,
                    value,
                ) && unchanged_but_advice(*old(self), *final(self)),
                Option::Some(prev) => {
                    if prev == value {
                        r is Ok && *final(self) == *old(self)
                    } else {
                        r == Result::<(), Error>::Err(Error::CellReassigned) && *final(self)
                            == *old(self)
                    }
                },
            },
            !(col.index < old(self).advice@.len() && row < old(
                self,
            ).advice@[col.index as int]@.len()) ==> r == Result::<(), Error>::Err(
                Error::OutOfBounds,
            ) && *final(self) == *old(self),
            old(self).wf_dims() ==> final(self).wf_dims(),
    {
        if col.index >= self.advice.len() {
            return Result::Err(Error::OutOfBounds);
        }
        if row >= self.advice[col.index].len() {
            return Result::Err(Error::OutOfBounds);
        }
        match self.advice[col.index][row] {
            Option::None => {
                let column = &mut self.advice[col.index];
                column[row] = Option::Some(value);
                Result::Ok(())
            },
            Option::Some(prev) => {
                if prev.v == value.v {
                    Result::Ok(())
                } else {
                    Result::Err(Error::CellReassigned)
                }
            },
        }
    }

    /// Raise a selector flag at a row.  Raising it twice is harmless.
    pub fn enable_selector(&mut self, s: Selector, row: usize) -> (r: Result<(), Error>)
        ensures
            s.index < old(self).selectors@.len() && row < old(
                self,
            ).selectors@[s.index as int]@.len() ==> r is Ok && selectors_updated(
                old(self).selectors@,
                final(self).selectors@,
                s.index as int,
                row as int,
            ) && unchanged_but_selectors(*old(self), *final(self)),
            !(s.index < old(self).selectors@.len() && row < old(
                self,
            ).selectors@[s.index as int]@.len()) ==> r == Result::<(), Error>::Err(
                Error::OutOfBounds,
            ) && *final(self) == *old(self),
            old(self).wf_dims() ==> final(self).wf_dims(),
    {
        if s.index >= self.selectors.len() {
            return Result::Err(Error::OutOfBounds);
        }
        if row >= self.selectors[s.index].len() {
            return Result::Err(Error::OutOfBounds);
        }
        let flags = &mut self.selectors[s.index];
        flags[row] = true;
        Result::Ok(())
    }

    /// Write one cell of a lookup table during its load pass.  Rows are
    /// written in order; a row already written may only be repeated with
    /// the same value.
    pub fn assign_table_cell(&mut self, col: TableColumn, offset: usize, value: Fp) -> (r: Result<
        (),
        Error,
    >)
        requires
            value.valid(),
        ensures
            col.index < old(self).tables@.len() && offset == old(self).tables@[col.index as int]@.len()
                ==> r is Ok && tables_pushed(
                old(self).tables@,
                final(self).tables@,
                col.index as int,
                value,
            ) && unchanged_but_tables(*old(self), *final(self)),
            col.index < old(self).tables@.len() && offset < old(self).tables@[col.index as int]@.len()
                ==> *final(self) == *old(self) && (if old(
                self,
            ).tables@[col.index as int]@[offset as int] == value {
                r is Ok
            } else {
                r == Result::<(), Error>::Err(Error::CellReassigned)
            }),
            !(col.index < old(self).tables@.len() && offset <= old(
                self,
            ).tables@[col.index as int]@.len()) ==> r == Result::<(), Error>::Err(
                Error::OutOfBounds,
            ) && *final(self) == *old(self),
            old(self).wf_dims() ==> final(self).wf_dims(),
    {
        if col.index >= self.tables.len() {
            return Result::Err(Error::OutOfBounds);
        }
        let len = self.tables[col.index].len();
        if offset < len {
            let existing = self.tables[col.index][offset];
            if existing.v == value.v {
                return Result::Ok(());
            } else {
                return Result::Err(Error::CellReassigned);
            }
        }
        if offset > len {
            return Result::Err(Error::OutOfBounds);
        }
        let column = &mut self.tables[col.index];
        column.push(value);
        Result::Ok(())
    }

    /// Declare that two advice cells hold equal values.  Both columns must
    /// have been enabled for equality in the registry.
    pub fn constrain_equal(
        &mut self,
        cs: &ConstraintSystem,
        left: CopyCell,
        right: CopyCell,
    ) -> (r: Result<(), Error>)
        ensures
            ({
                let in_bounds = left.column.index < old(self).advice@.len() && left.row < old(
                    self,
                ).num_rows && right.column.index < old(self).advice@.len() && right.row < old(
                    self,
                ).num_rows;
                let enabled = cs.equality@.contains(left.column) && cs.equality@.contains(
                    right.column,
                );
                if !in_bounds {
                    r == Result::<(), Error>::Err(Error::OutOfBounds) && *final(self) == *old(self)
                } else if !enabled {
                    r == Result::<(), Error>::Err(Error::EqualityNotEnabled) && *final(self)
                        == *old(self)
                } else {
                    r is Ok && final(self).copies@ == old(self).copies@.push(
                        CopyConstraint { left, right },
                    ) && unchanged_but_copies(*old(self), *final(self))
                }
            }),
            old(self).wf_dims() ==> final(self).wf_dims(),
    {
        let in_bounds = left.column.index < self.advice.len() && left.row < self.num_rows
            && right.column.index < self.advice.len() && right.row < self.num_rows;
        if !in_bounds {
            return Result::Err(Error::OutOfBounds);
        }
        if !equality_enabled(cs, left.column) || !equality_enabled(cs, right.column) {
            return Result::Err(Error::EqualityNotEnabled);
        }
        self.copies.push(CopyConstraint { left, right });
        Result::Ok(())
    }
}

/// Table family `b` is family `a` with `value` appended to table `ci`.
pub open spec fn tables_pushed(a: Seq<Vec<Fp>>, b: Seq<Vec<Fp>>, ci: int, value: Fp) -> bool {
    &&& b.len() == a.len()
    &&& forall|i: int| 0 <= i < a.len() && i != ci ==> #[trigger] b[i] == a[i]
    &&& b[ci]@ == a[ci]@.push(value)
}

/// Everything of the assignment but the advice cells is as it was.
pub open spec fn unchanged_but_advice(a: Assignment, b: Assignment) -> bool {
    &&& b.num_rows == a.num_rows
    &&& b.fixed == a.fixed
    &&& b.instance == a.instance
    &&& b.selectors == a.selectors
    &&& b.tables == a.tables
    &&& b.copies == a.copies
}

/// Everything of the assignment but the selector flags is as it was.
pub open spec fn unchanged_but_selectors(a: Assignment, b: Assignment) -> bool {
    &&& b.num_rows == a.num_rows
    &&& b.advice == a.advice
    &&& b.fixed == a.fixed
    &&& b.instance == a.instance
    &&& b.tables == a.tables
    &&& b.copies == a.copies
}

/// Everything of the assignment but the table columns is as it was.
pub open spec fn unchanged_but_tables(a: Assignment, b: Assignment) -> bool {
    &&& b.num_rows == a.num_rows
    &&& b.advice == a.advice
    &&& b.fixed == a.fixed
    &&& b.instance == a.instance
    &&& b.selectors == a.selectors
    &&& b.copies == a.copies
}

/// Everything of the assignment but the copy constraints is as it was.
pub open spec fn unchanged_but_copies(a: Assignment, b: Assignment) -> bool {
    &&& b.num_rows == a.num_rows
    &&& b.advice == a.advice
    &&& b.fixed == a.fixed
    &&& b.instance == a.instance
    &&& b.selectors == a.selectors
    &&& b.tables == a.tables
}

/// Whether a column was enabled for equality in the registry.
fn equality_enabled(cs: &ConstraintSystem, col: AdviceColumn) -> (r: bool)
    ensures
        r == cs.equality@.contains(col),
{
    let n = cs.equality.len();
    let mut i: usize = 0;
    while i < n
        invariant
            i <= n,
            n == cs.equality@.len(),
            forall|k: int| 0 <= k < i ==> cs.equality@[k] != col,
        decreases n - i,
    {
        if cs.equality[i].index == col.index {
            return true;
        }
        i = i + 1;
    }
    false
}

/// A family of `count` cell columns, each of `rows` unwritten cells.
fn empty_cells(count: usize, rows: usize) -> (v: Vec<Vec<Option<Fp>>>)
    ensures
        v@.len() == count,
        forall|i: int| 0 <= i < count ==> (#[trigger] v@[i])@.len() == rows,
        forall|i: int, j: int|
            0 <= i < count && 0 <= j < rows ==> #[trigger] v@[i]@[j] matches Option::None,
{
    let mut v: Vec<Vec<Option<Fp>>> = Vec::new();
    let mut i: usize = 0;
    while i < count
        invariant
            i <= count,
            v@.len() == i,
            forall|k: int| 0 <= k < i ==> (#[trigger] v@[k])@.len() == rows,
            forall|k: int, j: int|
                0 <= k < i && 0 <= j < rows ==> #[trigger] v@[k]@[j] matches Option::None,
        decreases count - i,
    {
        v.push(empty_column(rows));
        i = i + 1;
    }
    v
}

/// One column of `rows` unwritten cells.
fn empty_column(rows: usize) -> (v: Vec<Option<Fp>>)
    ensures
        v@.len() == rows,
        forall|j: int| 0 <= j < rows ==> #[trigger] v@[j] matches Option::None,
{
    let mut v: Vec<Option<Fp>> = Vec::new();
    let mut j: usize = 0;
    while j < rows
        invariant
            j <= rows,
            v@.len() == j,
            forall|k: int| 0 <= k < j ==> #[trigger] v@[k] matches Option::None,
        decreases rows - j,
    {
        v.push(Option::None);
        j = j + 1;
    }
    v
}

/// A family of `count` flag columns, each of `rows` lowered flags.
fn empty_flags(count: usize, rows: usize) -> (v: Vec<Vec<bool>>)
    ensures
        v@.len() == count,
        forall|i: int| 0 <= i < count ==> (#[trigger] v@[i])@.len() == rows,
        forall|i: int, j: int| 0 <= i < count && 0 <= j < rows ==> #[trigger] v@[i]@[j] == false,
{
    let mut v: Vec<Vec<bool>> = Vec::new();
    let mut i: usize = 0;
    while i < count
        invariant
            i <= count,
            v@.len() == i,
            forall|k: int| 0 <= k < i ==> (#[trigger] v@[k])@.len() == rows,
            forall|k: int, j: int| 0 <= k < i && 0 <= j < rows ==> #[trigger] v@[k]@[j] == false,
        decreases count - i,
    {
        v.push(lowered_flags(rows));
        i = i + 1;
    }
    v
}

/// One column of `rows` lowered flags.
fn lowered_flags(rows: usize) -> (v: Vec<bool>)
    ensures
        v@.len() == rows,
        forall|j: int| 0 <= j < rows ==> #[trigger] v@[j] == false,
{
    let mut v: Vec<bool> = Vec::new();
    let mut j: usize = 0;
    while j < rows
        invariant
            j <= rows,
            v@.len() == j,
            forall|k: int| 0 <= k < j ==> #[trigger] v@[k] == false,
        decreases rows - j,
    {
        v.push(false);
        j = j + 1;
    }
    v
}

/// A family of `count` empty table columns.
fn empty_tables(count: usize) -> (v: Vec<Vec<Fp>>)
    ensures
        v@.len() == count,
        forall|i: int| 0 <= i < count ==> (#[trigger] v@[i])@.len() == 0,
{
    let mut v: Vec<Vec<Fp>> = Vec::new();
    let mut i: usize = 0;
    while i < count
        invariant
            i <= count,
            v@.len() == i,
            forall|k: int| 0 <= k < i ==> (#[trigger] v@[k])@.len() == 0,
        decreases count - i,
    {
        v.push(Vec::new());
        i = i + 1;
    }
    v
}

} // verus!
