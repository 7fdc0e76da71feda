//! The range-check lookup table.
//!
//! A write-once table of every value in the `NUM_BITS`-bit domain, paired
//! with its bit-length tag.  The tag is `floor(log2(i))` for `i ≥ 1`, and
//! 0 for `i = 0` by explicit convention — log2 of zero is undefined, and
//! fixing the tag lets a row whose lookup is disabled (whose gated input
//! tuple collapses to all zeros) still match the table's first row.
//! Loading costs one pass over the `2^NUM_BITS` rows per circuit shape;
//! every later range check against it is a constant-size lookup.

use vstd::arithmetic::power2::pow2;
use vstd::prelude::*;

use crate::cs::{ConstraintSystem, Error, TableColumn};
use crate::field::{pow2_u64, Fp, MODULUS};
use crate::witness::{tables_pushed, unchanged_but_tables, Assignment};

verus! {

/// The bit-length tag: `floor(log2(x))` for positive `x`, and 0 for 0.
pub open spec fn spec_log2(x: nat) -> nat
    decreases x,
{
    if x <= 1 {
        0
    } else {
        1 + spec_log2(x / 2)
    }
}

/// The tag never exceeds its argument.
pub proof fn lemma_log2_le(x: nat)
    ensures
        spec_log2(x) <= x,
    decreases x,
{
    if x > 1 {
        lemma_log2_le(x / 2);
    }
}

/// What a finished load pass leaves in the two table columns.
pub open spec fn table_loaded(asg: Assignment, value: TableColumn, num_bits: TableColumn, size: nat) -> bool {
    &&& asg.tables@[value.index as int]@.len() == size
    &&& asg.tables@[num_bits.index as int]@.len() == size
    &&& forall|k: int|
        0 <= k < size ==> (#[trigger] asg.tables@[value.index as int]@[k]).v == k
    &&& forall|k: int|
        0 <= k < size ==> (#[trigger] asg.tables@[num_bits.index as int]@[k]).v == spec_log2(
            k as nat,
        )
}

/// A lookup table covering the whole `NUM_BITS`-bit domain, each value
/// tagged with its bit length.
pub struct RangeCheckTable<const NUM_BITS: u64> {
    pub value: TableColumn,
    pub num_bits: TableColumn,
}

impl<const NUM_BITS: u64> RangeCheckTable<NUM_BITS> {
    /// Allocate the two table columns.
    pub fn configure(meta: &mut ConstraintSystem) -> (table: Self)
        requires
            old(meta).num_tables + 2 <= usize::MAX,
        ensures
            table.value.index == old(meta).num_tables,
            table.num_bits.index == old(meta).num_tables + 1,
            final(meta).num_tables == old(meta).num_tables + 2,
            final(meta).num_advice == old(meta).num_advice,
            final(meta).num_fixed == old(meta).num_fixed,
            final(meta).num_instance == old(meta).num_instance,
            final(meta).num_selectors == old(meta).num_selectors,
            final(meta).gates == old(meta).gates,
            final(meta).lookups == old(meta).lookups,
            final(meta).equality == old(meta).equality,
            old(meta).wf() ==> final(meta).wf(),
    {
        let value = meta.lookup_table_column();
        let num_bits = meta.lookup_table_column();
        RangeCheckTable { value, num_bits }
    }

    /// The bit length of a value: how often it halves before reaching 1.
    fn log2(&self, x: u64) -> (r: u64)
        ensures
            r == spec_log2(x as nat),
    {
        let mut x = x;
        let mut result: u64 = 0;
        let ghost x0 = x;
        proof {
            lemma_log2_le(x0 as nat);
        }
        while x > 1
            invariant
                spec_log2(x0 as nat) == result + spec_log2(x as nat),
                spec_log2(x0 as nat) <= x0,
            decreases x,
        {
            x = x / 2;
            result = result + 1;
        }
        result
    }

    /// Load the table once per shape: row `i` holds `(i, tag(i))` for the
    /// whole domain `0 .. 2^NUM_BITS`.
    pub fn load(&self, asg: &mut Assignment) -> (r: Result<(), Error>)
        requires
            old(asg).wf_dims(),
            pow2(NUM_BITS as nat) < MODULUS,
            self.value.index < old(asg).tables@.len(),
            self.num_bits.index < old(asg).tables@.len(),
            self.value.index != self.num_bits.index,
            old(asg).tables@[self.value.index as int]@.len() == 0,
            old(asg).tables@[self.num_bits.index as int]@.len() == 0,
        ensures
            r is Ok,
            final(asg).wf_dims(),
            unchanged_but_tables(*old(asg), *final(asg)),
            final(asg).tables@.len() == old(asg).tables@.len(),
            forall|i: int|
                0 <= i < old(asg).tables@.len() && i != self.value.index && i
                    != self.num_bits.index ==> #[trigger] final(asg).tables@[i]
                    == old(asg).tables@[i],
            table_loaded(*final(asg), self.value, self.num_bits, pow2(NUM_BITS as nat)),
    {
        let size = pow2_u64(NUM_BITS);
        let mut offset: u64 = 0;
        while offset < size
            invariant
                asg.wf_dims(),
                unchanged_but_tables(*old(asg), *asg),
                size as nat == pow2(NUM_BITS as nat),
                size < MODULUS,
                self.value.index < asg.tables@.len(),
                self.num_bits.index < asg.tables@.len(),
                self.value.index != self.num_bits.index,
                asg.tables@.len() == old(asg).tables@.len(),
                forall|i: int|
                    0 <= i < old(asg).tables@.len() && i != self.value.index && i
                        != self.num_bits.index ==> #[trigger] asg.tables@[i] == old(
                        asg,
                    ).tables@[i],
                offset <= size,
                asg.tables@[self.value.index as int]@.len() == offset,
                asg.tables@[self.num_bits.index as int]@.len() == offset,
                forall|k: int|
                    0 <= k < offset ==> (#[trigger] asg.tables@[self.value.index as int]@[k]).v
                        == k,
                forall|k: int|
                    0 <= k < offset ==> (#[trigger] asg.tables@[self.num_bits.index as int]@[k]).v
                        == spec_log2(k as nat),
            decreases size - offset,
        {
            let cell = Fp::from_u64(offset);
            match asg.assign_table_cell(self.value, offset as usize, cell) {
                Result::Ok(_) => {},
                Result::Err(e) => {
                    return Result::Err(e);
                },
            }
            let nb = self.log2(offset);
            proof {
                lemma_log2_le(offset as nat);
            }
            let tag = Fp::from_u64(nb);
            match asg.assign_table_cell(self.num_bits, offset as usize, tag) {
                Result::Ok(_) => {},
                Result::Err(e) => {
                    return Result::Err(e);
                },
            }
            offset = offset + 1;
        }
        Result::Ok(())
    }
}

} // verus!
