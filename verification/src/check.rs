//! Whether an assignment satisfies a circuit's constraints.
//!
//! A shape is satisfied when every gate polynomial evaluates to zero on
//! every row, every lookup row's input tuple appears in its table, and
//! every copy-constrained pair of cells holds equal values.  A violated
//! witness is an expected outcome for invalid inputs, not a fault, so the
//! verdict names the offending gate or lookup and the row it failed on.

use vstd::prelude::*;

use crate::cs::ConstraintSystem;
use crate::expr::cell_int;
use crate::field::Fp;
use crate::witness::Assignment;

verus! {

/// Polynomial `j` of gate `g` evaluates to zero on `row`.
pub open spec fn gate_poly_ok(cs: ConstraintSystem, asg: Assignment, g: int, j: int, row: int) -> bool {
    cs.gates@[g].polys@[j].eval(asg, row) == 0
}

/// Every gate polynomial evaluates to zero on every row.
pub open spec fn gates_ok(cs: ConstraintSystem, asg: Assignment) -> bool {
    forall|g: int, j: int, row: int|
        0 <= g < cs.gates@.len() && 0 <= j < cs.gates@[g].polys@.len() && 0 <= row < asg.num_rows
            ==> #[trigger] gate_poly_ok(cs, asg, g, j, row)
}

/// The input tuple of lookup `l` on `row` equals table row `t`.
pub open spec fn lookup_tuple_at(
    cs: ConstraintSystem,
    asg: Assignment,
    l: int,
    row: int,
    t: int,
) -> bool {
    forall|j: int|
        0 <= j < cs.lookups@[l].pairs@.len() ==> {
            let pr = #[trigger] cs.lookups@[l].pairs@[j];
            &&& 0 <= t < asg.tables@[pr.1.index as int]@.len()
            &&& pr.0.eval(asg, row) == asg.tables@[pr.1.index as int]@[t].v as int
        }
}

/// The input tuple of lookup `l` on `row` appears somewhere in its table.
pub open spec fn lookup_row_ok(cs: ConstraintSystem, asg: Assignment, l: int, row: int) -> bool {
    exists|t: int| lookup_tuple_at(cs, asg, l, row, t)
}

/// Every lookup argument holds on every row.
pub open spec fn lookups_ok(cs: ConstraintSystem, asg: Assignment) -> bool {
    forall|l: int, row: int|
        0 <= l < cs.lookups@.len() && 0 <= row < asg.num_rows ==> #[trigger] lookup_row_ok(
            cs,
            asg,
            l,
            row,
        )
}

/// Copy constraint `k` holds: both cells carry the same value.
pub open spec fn copy_ok(asg: Assignment, k: int) -> bool {
    let c = asg.copies@[k];
    cell_int(asg.advice@[c.left.column.index as int]@[c.left.row as int]) == cell_int(
        asg.advice@[c.right.column.index as int]@[c.right.row as int],
    )
}

/// Every declared copy constraint holds.
pub open spec fn copies_ok(asg: Assignment) -> bool {
    forall|k: int| 0 <= k < asg.copies@.len() ==> #[trigger] copy_ok(asg, k)
}

/// The whole shape is satisfied by the assignment.
pub open spec fn satisfied(cs: ConstraintSystem, asg: Assignment) -> bool {
    gates_ok(cs, asg) && lookups_ok(cs, asg) && copies_ok(asg)
}

/// The verdict of a failed check: which constraint broke, and where.
#[derive(Clone, Debug, PartialEq, Eq)]
pub enum CheckFailure {
    /// A gate polynomial evaluated to a nonzero value.
    Gate { gate: usize, poly: usize, row: usize, name: String },
    /// A lookup row's tuple matched no table row.
    Lookup { lookup: usize, row: usize, name: String },
    /// A copy-constrained pair of cells differed.
    Copy { index: usize },
}

/// Check an assignment against a shape: `Ok` exactly when every gate,
/// lookup and copy constraint is satisfied; otherwise the verdict names a
/// violated constraint and row.
pub fn check(cs: &ConstraintSystem, asg: &Assignment) -> (r: Result<(), CheckFailure>)
    requires
        cs.wf(),
        asg.wf(*cs),
    ensures
        r is Ok <==> satisfied(*cs, *asg),
        match r {
            Result::Ok(_) => true,
            Result::Err(f) => match f {
                CheckFailure::Gate { gate, poly, row, name } => {
                    &&& gate < cs.gates@.len()
                    &&& poly < cs.gates@[gate as int].polys@.len()
                    &&& row < asg.num_rows
                    &&& !gate_poly_ok(*cs, *asg, gate as int, poly as int, row as int)
                    &&& name@ == cs.gates@[gate as int].name@
                },
                CheckFailure::Lookup { lookup, row, name } => {
                    &&& lookup < cs.lookups@.len()
                    &&& row < asg.num_rows
                    &&& !lookup_row_ok(*cs, *asg, lookup as int, row as int)
                    &&& name@ == cs.lookups@[lookup as int].name@
                },
                CheckFailure::Copy { index } => {
                    &&& index < asg.copies@.len()
                    &&& !copy_ok(*asg, index as int)
                },
            },
        },
{
    let num_rows = asg.num_rows;

    let mut g: usize = 0;
    while g < cs.gates.len()
        invariant
            cs.wf(),
            asg.wf(*cs),
            num_rows == asg.num_rows,
            g <= cs.gates@.len(),
            forall|gp: int, j: int, row: int|
                0 <= gp < g && 0 <= j < cs.gates@[gp].polys@.len() && 0 <= row < asg.num_rows
                    ==> #[trigger] gate_poly_ok(*cs, *asg, gp, j, row),
        decreases cs.gates@.len() - g,
    {
        let polys_len = cs.gates[g].polys.len();
        let mut j: usize = 0;
        while j < polys_len
            invariant
                cs.wf(),
                asg.wf(*cs),
                num_rows == asg.num_rows,
                g < cs.gates@.len(),
                polys_len == cs.gates@[g as int].polys@.len(),
                j <= polys_len,
                forall|gp: int, jp: int, row: int|
                    0 <= gp < g && 0 <= jp < cs.gates@[gp].polys@.len() && 0 <= row < asg.num_rows
                        ==> #[trigger] gate_poly_ok(*cs, *asg, gp, jp, row),
                forall|jp: int, row: int|
                    0 <= jp < j && 0 <= row < asg.num_rows ==> #[trigger] gate_poly_ok(
                        *cs,
                        *asg,
                        g as int,
                        jp,
                        row,
                    ),
            decreases polys_len - j,
        {
            let mut row: usize = 0;
            while row < num_rows
                invariant
                    cs.wf(),
                    asg.wf(*cs),
                    num_rows == asg.num_rows,
                    g < cs.gates@.len(),
                    polys_len == cs.gates@[g as int].polys@.len(),
                    j < polys_len,
                    row <= num_rows,
                    forall|rp: int|
                        0 <= rp < row ==> #[trigger] gate_poly_ok(*cs, *asg, g as int, j as int, rp),
                decreases num_rows - row,
            {
                let value = cs.gates[g].polys[j].evaluate(asg, row);
                if value.v != 0 {
                    proof {
                        assert(!gate_poly_ok(*cs, *asg, g as int, j as int, row as int));
                    }
                    let name = cs.gates[g].name.clone();
                    return Result::Err(CheckFailure::Gate { gate: g, poly: j, row, name });
                }
                row = row + 1;
            }
            j = j + 1;
        }
        g = g + 1;
    }

    let mut l: usize = 0;
    while l < cs.lookups.len()
        invariant
            cs.wf(),
            asg.wf(*cs),
            num_rows == asg.num_rows,
            l <= cs.lookups@.len(),
            gates_ok(*cs, *asg),
            forall|lp: int, row: int|
                0 <= lp < l && 0 <= row < asg.num_rows ==> #[trigger] lookup_row_ok(
                    *cs,
                    *asg,
                    lp,
                    row,
                ),
        decreases cs.lookups@.len() - l,
    {
        let mut row: usize = 0;
        while row < num_rows
            invariant
                cs.wf(),
                asg.wf(*cs),
                num_rows == asg.num_rows,
                l < cs.lookups@.len(),
                row <= num_rows,
                gates_ok(*cs, *asg),
                forall|lp: int, rp: int|
                    0 <= lp < l && 0 <= rp < asg.num_rows ==> #[trigger] lookup_row_ok(
                        *cs,
                        *asg,
                        lp,
                        rp,
                    ),
                forall|rp: int|
                    0 <= rp < row ==> #[trigger] lookup_row_ok(*cs, *asg, l as int, rp),
            decreases num_rows - row,
        {
            if !lookup_row_holds(cs, asg, l, row) {
                let name = cs.lookups[l].name.clone();
                return Result::Err(CheckFailure::Lookup { lookup: l, row, name });
            }
            row = row + 1;
        }
        l = l + 1;
    }

    let mut k: usize = 0;
    while k < asg.copies.len()
        invariant
            cs.wf(),
            asg.wf(*cs),
            k <= asg.copies@.len(),
            gates_ok(*cs, *asg),
            lookups_ok(*cs, *asg),
            forall|kp: int| 0 <= kp < k ==> #[trigger] copy_ok(*asg, kp),
        decreases asg.copies@.len() - k,
    {
        let c = asg.copies[k];
        let left = read_cell(asg, c.left.column.index, c.left.row);
        let right = read_cell(asg, c.right.column.index, c.right.row);
        if left != right {
            proof {
                assert(!copy_ok(*asg, k as int));
            }
            return Result::Err(CheckFailure::Copy { index: k });
        }
        k = k + 1;
    }

    Result::Ok(())
}

/// The value of one advice cell, an unwritten cell reading as zero.
fn read_cell(asg: &Assignment, ci: usize, row: usize) -> (r: u64)
    requires
        ci < asg.advice@.len(),
        row < asg.advice@[ci as int]@.len(),
    ensures
        r as int == cell_int(asg.advice@[ci as int]@[row as int]),
{
    match asg.advice[ci][row] {
        Option::Some(x) => x.v,
        Option::None => 0,
    }
}

/// Whether some table row matches the lookup's input tuple on this row.
fn lookup_row_holds(cs: &ConstraintSystem, asg: &Assignment, l: usize, row: usize) -> (b: bool)
    requires
        cs.wf(),
        asg.wf(*cs),
        l < cs.lookups@.len(),
        row < asg.num_rows,
    ensures
        b == lookup_row_ok(*cs, *asg, l as int, row as int),
{
    let pairs_len = cs.lookups[l].pairs.len();
    if pairs_len == 0 {
        proof {
            assert(lookup_tuple_at(*cs, *asg, l as int, row as int, 0));
        }
        return true;
    }
    let first_table = cs.lookups[l].pairs[0].1;
    let bound = asg.tables[first_table.index].len();
    let mut t: usize = 0;
    while t < bound
        invariant
            cs.wf(),
            asg.wf(*cs),
            l < cs.lookups@.len(),
            row < asg.num_rows,
            cs.lookups@[l as int].pairs@.len() > 0,
            first_table == cs.lookups@[l as int].pairs@[0].1,
            bound == asg.tables@[first_table.index as int]@.len(),
            t <= bound,
            forall|tp: int| 0 <= tp < t ==> !#[trigger] lookup_tuple_at(*cs, *asg, l as int, row as int, tp),
        decreases bound - t,
    {
        if lookup_tuple_matches(cs, asg, l, row, t) {
            return true;
        }
        t = t + 1;
    }
    proof {
        assert forall|tp: int| !#[trigger] lookup_tuple_at(*cs, *asg, l as int, row as int, tp) by {
            if 0 <= tp < bound {
            } else {
                if lookup_tuple_at(*cs, *asg, l as int, row as int, tp) {
                    let pr = cs.lookups@[l as int].pairs@[0];
                    assert(0 <= tp < asg.tables@[pr.1.index as int]@.len());
                }
            }
        }
    }
    false
}

/// Whether table row `t` matches the lookup's input tuple on this row.
fn lookup_tuple_matches(
    cs: &ConstraintSystem,
    asg: &Assignment,
    l: usize,
    row: usize,
    t: usize,
) -> (b: bool)
    requires
        cs.wf(),
        asg.wf(*cs),
        l < cs.lookups@.len(),
        row < asg.num_rows,
    ensures
        b == lookup_tuple_at(*cs, *asg, l as int, row as int, t as int),
{
    let pairs_len = cs.lookups[l].pairs.len();
    let mut j: usize = 0;
    while j < pairs_len
        invariant
            cs.wf(),
            asg.wf(*cs),
            l < cs.lookups@.len(),
            row < asg.num_rows,
            pairs_len == cs.lookups@[l as int].pairs@.len(),
            j <= pairs_len,
            forall|jp: int|
                0 <= jp < j ==> {
                    let pr = #[trigger] cs.lookups@[l as int].pairs@[jp];
                    &&& 0 <= t < asg.tables@[pr.1.index as int]@.len()
                    &&& pr.0.eval(*asg, row as int) == asg.tables@[pr.1.index as int]@[t as int].v as int
                },
        decreases pairs_len - j,
    {
        let input = cs.lookups[l].pairs[j].0.evaluate(asg, row);
        let table_col = cs.lookups[l].pairs[j].1;
        let table = &asg.tables[table_col.index];
        if t >= table.len() {
            return false;
        }
        if input.v != table[t].v {
            return false;
        }
        j = j + 1;
    }
    true
}

} // verus!
