//! Range check by table lookup.
//!
//! The value and its claimed bit length are gated by a selector and
//! looked up in the `NUM_BITS`-bit table: active rows must match a table
//! row exactly, so the value lies in the table's domain and the claimed
//! bit length follows the table's tag convention.  Rows whose selector
//! is off contribute the all-zero tuple, which matches the table's first
//! row `(0, 0)` — the reason the tag of 0 is fixed at 0.

use vstd::arithmetic::div_mod::lemma_small_mod;
use vstd::arithmetic::power2::{lemma2_to64, pow2};
use vstd::prelude::*;

use crate::check::{lookup_tuple_at, satisfied};
use crate::cs::{AdviceColumn, ConstraintSystem, Error, Selector, TableColumn};
use crate::expr::{Expression, Rotation};
use crate::field::{fmul, lemma_fmul_zero, Fp, MODULUS};
use crate::table::{lemma_log2_le, spec_log2, table_loaded, RangeCheckTable};
use crate::witness::{cols_updated, selectors_updated, Assignment};

verus! {

/// A selector-gated query of one advice column at the current row.
pub open spec fn spec_gated_query(q: Selector, col: AdviceColumn) -> Expression {
    Expression::Product(
        Box::new(Expression::Selector(q)),
        Box::new(Expression::Advice(col, Rotation { offset: 0 })),
    )
}

/// What `configure` leaves behind: one lookup argument pairing the gated
/// value with the table's value column and the gated bit length with the
/// table's tag column.
pub open spec fn lookup_config_shape(
    cs0: ConstraintSystem,
    cs: ConstraintSystem,
    value: AdviceColumn,
    num_bits: AdviceColumn,
    selector: Selector,
    table_value: TableColumn,
    table_num_bits: TableColumn,
) -> bool {
    &&& value.index < cs.num_advice
    &&& num_bits.index < cs.num_advice
    &&& selector.index == cs0.num_selectors
    &&& table_value.index == cs0.num_tables
    &&& table_num_bits.index == cs0.num_tables + 1
    &&& cs.num_selectors == cs0.num_selectors + 1
    &&& cs.num_tables == cs0.num_tables + 2
    &&& cs.num_advice == cs0.num_advice
    &&& cs.num_fixed == cs0.num_fixed
    &&& cs.num_instance == cs0.num_instance
    &&& cs.gates == cs0.gates
    &&& cs.lookups@.len() == cs0.lookups@.len() + 1
    &&& forall|l: int| 0 <= l < cs0.lookups@.len() ==> cs.lookups@[l] == cs0.lookups@[l]
    &&& cs.lookups@[cs0.lookups@.len() as int].pairs@.len() == 2
    &&& cs.lookups@[cs0.lookups@.len() as int].pairs@[0] == (
    spec_gated_query(selector, value),
    table_value,
    )
    &&& cs.lookups@[cs0.lookups@.len() as int].pairs@[1] == (
    spec_gated_query(selector, num_bits),
    table_num_bits,
    )
}

/// The lookup range-check gadget: values of at most `NUM_BITS` bits,
/// with their bit length, against a 3-bit table.
pub struct RangeCheckConfig<const RANGE: u64> {
    pub value: AdviceColumn,
    pub num_bits: AdviceColumn,
    pub selector: Selector,
    pub table: RangeCheckTable<3>,
}

impl<const RANGE: u64> RangeCheckConfig<RANGE> {
    /// Allocate the table and register the lookup argument over two
    /// existing advice columns.
    pub fn configure(
        meta: &mut ConstraintSystem,
        value: AdviceColumn,
        num_bits: AdviceColumn,
    ) -> (cfg: Self)
        requires
            value.index < old(meta).num_advice,
            num_bits.index < old(meta).num_advice,
            old(meta).num_selectors < usize::MAX,
            old(meta).num_tables + 2 <= usize::MAX,
        ensures
            cfg.value == value,
            cfg.num_bits == num_bits,
            lookup_config_shape(
                *old(meta),
                *final(meta),
                cfg.value,
                cfg.num_bits,
                cfg.selector,
                cfg.table.value,
                cfg.table.num_bits,
            ),
            final(meta).equality == old(meta).equality,
            old(meta).wf() ==> final(meta).wf(),
    {
        let selector = meta.complex_selector();
        let table: RangeCheckTable<3> = RangeCheckTable::configure(meta);

        let gated_value = Expression::Selector(selector).mul(
            Expression::Advice(value, Rotation::cur()),
        );
        let gated_num_bits = Expression::Selector(selector).mul(
            Expression::Advice(num_bits, Rotation::cur()),
        );
        proof {
            reveal_with_fuel(Expression::wf_in, 3);
        }
        meta.lookup(
            "range check lookup",
            vec![(gated_value, table.value), (gated_num_bits, table.num_bits)],
        );
        RangeCheckConfig { value, num_bits, selector, table }
    }

    /// Write the value and its claimed bit length, and raise the lookup's
    /// selector for the row.
    pub fn assign(&self, asg: &mut Assignment, row: usize, value: Fp, num_bits: u64) -> (r: Result<
        (),
        Error,
    >)
        requires
            value.valid(),
            num_bits < MODULUS,
            old(asg).wf_dims(),
            row < old(asg).num_rows,
            self.value.index < old(asg).advice@.len(),
            self.num_bits.index < old(asg).advice@.len(),
            self.value.index != self.num_bits.index,
            self.selector.index < old(asg).selectors@.len(),
            old(asg).advice@[self.value.index as int]@[row as int] matches Option::None,
            old(asg).advice@[self.num_bits.index as int]@[row as int] matches Option::None,
        ensures
            r is Ok,
            final(asg).wf_dims(),
            final(asg).advice@[self.value.index as int]@[row as int] == Option::Some(value),
            final(asg).advice@[self.num_bits.index as int]@[row as int] == Option::Some(
                (Fp { v: num_bits }),
            ),
            final(asg).advice@.len() == old(asg).advice@.len(),
            forall|i: int|
                0 <= i < old(asg).advice@.len() ==> (#[trigger] final(asg).advice@[i])@.len()
                    == old(asg).advice@[i]@.len(),
            forall|ci: int, rj: int|
                0 <= ci < old(asg).advice@.len() && 0 <= rj < old(asg).advice@[ci]@.len() && !(rj
                    == row && (ci == self.value.index || ci == self.num_bits.index))
                    ==> #[trigger] final(asg).advice@[ci]@[rj] == old(asg).advice@[ci]@[rj],
            selectors_updated(
                old(asg).selectors@,
                final(asg).selectors@,
                self.selector.index as int,
                row as int,
            ),
            final(asg).num_rows == old(asg).num_rows,
            final(asg).fixed == old(asg).fixed,
            final(asg).instance == old(asg).instance,
            final(asg).tables == old(asg).tables,
            final(asg).copies == old(asg).copies,
    {
        match asg.enable_selector(self.selector, row) {
            Result::Ok(_) => {},
            Result::Err(e) => {
                return Result::Err(e);
            },
        }
        match asg.assign_advice(self.value, row, value) {
            Result::Ok(_) => {},
            Result::Err(e) => {
                return Result::Err(e);
            },
        }
        match asg.assign_advice(self.num_bits, row, Fp { v: num_bits }) {
            Result::Ok(_) => {},
            Result::Err(e) => {
                return Result::Err(e);
            },
        }
        Result::Ok(())
    }
}

/// Completeness of the lookup range check: with the table loaded and a
/// value in its domain assigned with the matching tag, every lookup row
/// is satisfied — active rows match their own table row, and inactive
/// rows collapse to the `(0, 0)` tuple that the tag convention keeps in
/// the table.
pub proof fn lemma_lookup_range_check_satisfied(
    cs0: ConstraintSystem,
    cs: ConstraintSystem,
    value: AdviceColumn,
    num_bits: AdviceColumn,
    selector: Selector,
    table_value: TableColumn,
    table_num_bits: TableColumn,
    post: Assignment,
    row: int,
    v: Fp,
    nb: u64,
)
    requires
        lookup_config_shape(cs0, cs, value, num_bits, selector, table_value, table_num_bits),
        cs0.gates@.len() == 0,
        cs0.lookups@.len() == 0,
        post.wf(cs),
        0 <= row < post.num_rows,
        post.advice@[value.index as int]@[row] == Option::Some(v),
        post.advice@[num_bits.index as int]@[row] == Option::Some((Fp { v: nb })),
        forall|rp: int|
            0 <= rp < post.num_rows ==> (#[trigger] post.selectors@[selector.index as int]@[rp]) == (
            rp == row),
        post.copies@.len() == 0,
        table_loaded(post, table_value, table_num_bits, pow2(3)),
        v.valid(),
        (v.v as nat) < pow2(3),
        nb == spec_log2(v.v as nat),
    ensures
        satisfied(cs, post),
{
    lemma2_to64();
    assert(pow2(3) == 8);
    lemma_log2_le(v.v as nat);
    assert forall|l: int, rp: int|
        0 <= l < cs.lookups@.len() && 0 <= rp < post.num_rows implies #[trigger] crate::check::lookup_row_ok(
        cs,
        post,
        l,
        rp,
    ) by {
        reveal_with_fuel(Expression::eval, 4);
        lemma_small_mod(rp as nat, post.num_rows as nat);
        let pairs = cs.lookups@[0].pairs@;
        if rp == row {
            assert(Expression::Selector(selector).eval(post, rp) == 1);
            assert(pairs[0].0.eval(post, rp) == fmul(1, v.v as int));
            assert(pairs[1].0.eval(post, rp) == fmul(1, nb as int));
            assert(fmul(1, v.v as int) == v.v as int) by {
                lemma_small_mod(v.v as nat, MODULUS as nat);
            }
            assert(fmul(1, nb as int) == nb as int) by {
                lemma_small_mod(nb as nat, MODULUS as nat);
            }
            let t = v.v as int;
            assert(post.tables@[table_value.index as int]@[t].v == v.v);
            assert(post.tables@[table_num_bits.index as int]@[t].v == nb);
            assert(lookup_tuple_at(cs, post, l, rp, t));
        } else {
            assert(Expression::Selector(selector).eval(post, rp) == 0);
            lemma_fmul_zero(
                Expression::Advice(value, Rotation { offset: 0 }).eval(post, rp),
            );
            lemma_fmul_zero(
                Expression::Advice(num_bits, Rotation { offset: 0 }).eval(post, rp),
            );
            assert(pairs[0].0.eval(post, rp) == 0);
            assert(pairs[1].0.eval(post, rp) == 0);
            assert(post.tables@[table_value.index as int]@[0].v == 0);
            assert(post.tables@[table_num_bits.index as int]@[0].v == spec_log2(0));
            assert(lookup_tuple_at(cs, post, l, rp, 0));
        }
    }
}

} // verus!
