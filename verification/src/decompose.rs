//! Decompose range check: a running sum over fixed-width chunks.
//!
//! A value meant to fit `N` bits, with `N` wider than the lookup table's
//! `K`-bit domain, is split into `C = ceil(N/K)` little-endian `K`-bit
//! chunks.  The witness is the running sum `z_0 = value`,
//! `z_{i+1} = (z_i − c_i) / 2^K`, one cell per row; each chunk is derived
//! from two adjacent cells as `z_i − z_{i+1}·2^K` and looked up in the
//! table, which both pins the recurrence and range-checks the chunk.  No
//! separate chunk column exists: the chunk is recomputed from the
//! rotation-derived pair of cells.  The terminal sum `z_C` must be zero
//! — rows past the window get no selector, and a nonzero `z_C` is
//! rejected while the witness is being computed, before anything is
//! written, rather than synthesizing an unsatisfiable circuit.

use vstd::arithmetic::div_mod::{
    lemma_div_denominator, lemma_div_is_ordered_by_denominator,
    lemma_fundamental_div_mod, lemma_mod_bound, lemma_small_mod,
};
use vstd::arithmetic::mul::lemma_mul_is_commutative;
use vstd::arithmetic::power2::{lemma_pow2_adds, lemma_pow2_pos, lemma_pow2_strictly_increases, pow2};
use vstd::prelude::*;

use crate::check::{lookup_tuple_at, satisfied};
use crate::cs::{AdviceColumn, ConstraintSystem, Error, Selector, TableColumn};
use crate::expr::{Expression, Rotation};
use crate::field::{fadd, fmul, fneg, lemma_fmul_zero, pow2_u64, Fp, MODULUS};
use crate::table::{table_loaded, RangeCheckTable};
use crate::witness::Assignment;

verus! {

/// How many `k`-bit chunks cover `num_bits` bits.
pub open spec fn chunk_count(num_bits: u64, k: u64) -> nat
    recommends
        k >= 1,
{
    ((num_bits + k - 1) as int / k as int) as nat
}

/// The running sum at step `i`: the value with `i` chunks shifted out.
pub open spec fn spec_z(value: nat, k: nat, i: nat) -> nat {
    value / pow2(k * i)
}

/// The lookup input: the chunk `z_i − z_{i+1}·2^K` derived from two
/// adjacent running-sum cells, gated by the selector.
pub open spec fn spec_chunk_expr(rs: AdviceColumn, q: Selector, two_k: u64) -> Expression {
    Expression::Product(
        Box::new(Expression::Selector(q)),
        Box::new(
            Expression::Sum(
                Box::new(Expression::Advice(rs, Rotation { offset: 0 })),
                Box::new(
                    Expression::Negated(
                        Box::new(
                            Expression::Product(
                                Box::new(Expression::Advice(rs, Rotation { offset: 1 })),
                                Box::new(Expression::Constant(Fp { v: two_k })),
                            ),
                        ),
                    ),
                ),
            ),
        ),
    )
}

/// What `configure` leaves behind: the running-sum column, the chunking
/// selector, the table, and one lookup argument on the derived chunk.
pub open spec fn decompose_config_shape(
    cs0: ConstraintSystem,
    cs: ConstraintSystem,
    rs: AdviceColumn,
    q: Selector,
    table_value: TableColumn,
    table_num_bits: TableColumn,
    two_k: u64,
) -> bool {
    &&& rs.index == cs0.num_advice
    &&& q.index == cs0.num_selectors
    &&& table_value.index == cs0.num_tables
    &&& table_num_bits.index == cs0.num_tables + 1
    &&& cs.num_advice == cs0.num_advice + 1
    &&& cs.num_selectors == cs0.num_selectors + 1
    &&& cs.num_tables == cs0.num_tables + 2
    &&& cs.num_fixed == cs0.num_fixed
    &&& cs.num_instance == cs0.num_instance
    &&& cs.gates == cs0.gates
    &&& cs.lookups@.len() == cs0.lookups@.len() + 1
    &&& forall|l: int| 0 <= l < cs0.lookups@.len() ==> cs.lookups@[l] == cs0.lookups@[l]
    &&& cs.lookups@[cs0.lookups@.len() as int].pairs@.len() == 1
    &&& cs.lookups@[cs0.lookups@.len() as int].pairs@[0] == (
    spec_chunk_expr(rs, q, two_k),
    table_value,
    )
}

/// What a successful `assign` writes: the running sums on their rows,
/// the selector on all but the last, and nothing else.
pub open spec fn decompose_assigned(
    pre: Assignment,
    post: Assignment,
    rs: AdviceColumn,
    q: Selector,
    row0: int,
    c: nat,
    k: nat,
    value: Fp,
) -> bool {
    &&& post.num_rows == pre.num_rows
    &&& post.advice@.len() == pre.advice@.len()
    &&& forall|i: int|
        0 <= i < pre.advice@.len() ==> (#[trigger] post.advice@[i])@.len()
            == pre.advice@[i]@.len()
    &&& forall|r: int|
        row0 <= r <= row0 + c ==> #[trigger] post.advice@[rs.index as int]@[r] == Option::Some(
            (Fp { v: spec_z(value.v as nat, k, (r - row0) as nat) as u64 }),
        )
    &&& forall|ci: int, rj: int|
        0 <= ci < pre.advice@.len() && 0 <= rj < pre.advice@[ci]@.len() && !(ci == rs.index
            && row0 <= rj <= row0 + c) ==> #[trigger] post.advice@[ci]@[rj]
            == pre.advice@[ci]@[rj]
    &&& post.selectors@.len() == pre.selectors@.len()
    &&& forall|i: int|
        0 <= i < pre.selectors@.len() ==> (#[trigger] post.selectors@[i])@.len()
            == pre.selectors@[i]@.len()
    &&& forall|r: int|
        row0 <= r < row0 + c ==> #[trigger] post.selectors@[q.index as int]@[r] == true
    &&& forall|si: int, rj: int|
        0 <= si < pre.selectors@.len() && 0 <= rj < pre.selectors@[si]@.len() && !(si == q.index
            && row0 <= rj < row0 + c) ==> #[trigger] post.selectors@[si]@[rj]
            == pre.selectors@[si]@[rj]
    &&& post.fixed == pre.fixed
    &&& post.instance == pre.instance
    &&& post.tables == pre.tables
    &&& post.copies == pre.copies
}

/// The decompose range-check gadget: values of up to `C·K` bits, checked
/// `K` bits at a time against the lookup table.
pub struct DecomposeConfig<const LOOKUP_NUM_BITS: u64> {
    pub running_sum: AdviceColumn,
    pub q_decompose: Selector,
    pub table: RangeCheckTable<LOOKUP_NUM_BITS>,
}

impl<const LOOKUP_NUM_BITS: u64> DecomposeConfig<LOOKUP_NUM_BITS> {
    /// Allocate the table, the chunking selector and the running-sum
    /// column, and register the chunk lookup.
    pub fn configure(meta: &mut ConstraintSystem) -> (cfg: Self)
        requires
            old(meta).num_advice < usize::MAX,
            old(meta).num_selectors < usize::MAX,
            old(meta).num_tables + 2 <= usize::MAX,
            pow2(LOOKUP_NUM_BITS as nat) < MODULUS,
        ensures
            decompose_config_shape(
                *old(meta),
                *final(meta),
                cfg.running_sum,
                cfg.q_decompose,
                cfg.table.value,
                cfg.table.num_bits,
                pow2(LOOKUP_NUM_BITS as nat) as u64,
            ),
            final(meta).equality == old(meta).equality,
            old(meta).wf() ==> final(meta).wf(),
    {
        let table: RangeCheckTable<LOOKUP_NUM_BITS> = RangeCheckTable::configure(meta);
        let q_decompose = meta.complex_selector();
        let running_sum = meta.advice_column();

        let two_k = pow2_u64(LOOKUP_NUM_BITS);
        let chunk = Expression::Advice(running_sum, Rotation::cur()).sub(
            Expression::Advice(running_sum, Rotation::next()).mul(
                Expression::Constant(Fp { v: two_k }),
            ),
        );
        let gated = Expression::Selector(q_decompose).mul(chunk);
        proof {
            reveal_with_fuel(Expression::wf_in, 8);
        }
        meta.lookup("decompose range check", vec![(gated, table.value)]);
        DecomposeConfig { running_sum, q_decompose, table }
    }

    /// Compute and write the running sum for `value`, claimed to fit
    /// `num_bits` bits.  A value whose true bit length exceeds the
    /// chunks' combined width is rejected before anything is written:
    /// its terminal running sum would not be zero.
    pub fn assign(&self, asg: &mut Assignment, row0: usize, value: Fp, num_bits: u64) -> (r: Result<
        (),
        Error,
    >)
        requires
            value.valid(),
            old(asg).wf_dims(),
            1 <= num_bits <= 64,
            1 <= LOOKUP_NUM_BITS <= 64,
            pow2((chunk_count(num_bits, LOOKUP_NUM_BITS) * LOOKUP_NUM_BITS as nat)) < MODULUS,
            row0 + chunk_count(num_bits, LOOKUP_NUM_BITS) < old(asg).num_rows,
            self.running_sum.index < old(asg).advice@.len(),
            self.q_decompose.index < old(asg).selectors@.len(),
            forall|r: int|
                row0 <= r <= row0 + chunk_count(num_bits, LOOKUP_NUM_BITS) ==> (#[trigger] old(
                    asg,
                ).advice@[self.running_sum.index as int]@[r]) matches Option::None,
        ensures
            ({
                let c = chunk_count(num_bits, LOOKUP_NUM_BITS);
                let k = LOOKUP_NUM_BITS as nat;
                if value.v as nat >= pow2(c * k) {
                    r == Result::<(), Error>::Err(Error::BitLengthExceeded) && *final(asg) == *old(
                        asg,
                    )
                } else {
                    r is Ok && final(asg).wf_dims() && decompose_assigned(
                        *old(asg),
                        *final(asg),
                        self.running_sum,
                        self.q_decompose,
                        row0 as int,
                        c,
                        k,
                        value,
                    )
                }
            }),
    {
        let k = LOOKUP_NUM_BITS;
        let c = (num_bits + k - 1) / k;
        proof {
            assert(c as nat == chunk_count(num_bits, k));
            assert(1 <= c <= 127) by (nonlinear_arith)
                requires
                    c == (num_bits + k - 1) as int / k as int,
                    1 <= num_bits <= 64,
                    1 <= k <= 64,
            ;
            assert(c * k <= 64 * 127) by (nonlinear_arith)
                requires
                    1 <= c <= 127,
                    1 <= k <= 64,
            ;
        }
        let limit = pow2_u64(c * k);
        if value.v >= limit {
            return Result::Err(Error::BitLengthExceeded);
        }
        proof {
            assert(k <= c * k) by (nonlinear_arith)
                requires
                    c >= 1,
                    k >= 1,
            ;
            if k < c * k {
                lemma_pow2_strictly_increases(k as nat, (c * k) as nat);
            }
        }
        let two_k = pow2_u64(k);
        let ghost pre = *asg;
        let mut z: u64 = value.v;
        let mut i: u64 = 0;
        proof {
            lemma_pow2_pos((k as nat) * 0);
            assert(pow2(0) == 1) by {
                vstd::arithmetic::power2::lemma2_to64();
            }
            lemma_basic_div_self(value.v as int, 1);
        }
        while i <= c
            invariant
                asg.wf_dims(),
                i <= c + 1,
                c as nat == chunk_count(num_bits, k),
                1 <= k <= 64,
                c >= 1,
                c * k <= 64 * 127,
                two_k as nat == pow2(k as nat),
                0 < two_k < MODULUS,
                value.v < MODULUS,
                row0 + c < asg.num_rows,
                self.running_sum.index < asg.advice@.len(),
                self.q_decompose.index < asg.selectors@.len(),
                z as nat == spec_z(value.v as nat, k as nat, i as nat),
                z <= value.v,
                asg.num_rows == pre.num_rows,
                asg.advice@.len() == pre.advice@.len(),
                forall|j: int|
                    0 <= j < pre.advice@.len() ==> (#[trigger] asg.advice@[j])@.len()
                        == pre.advice@[j]@.len(),
                forall|r: int|
                    row0 <= r < row0 + i ==> #[trigger] asg.advice@[self.running_sum.index as int]@[r]
                        == Option::Some(
                        (Fp { v: spec_z(value.v as nat, k as nat, (r - row0) as nat) as u64 }),
                    ),
                forall|r: int|
                    row0 + i <= r <= row0 + c ==> (#[trigger] asg.advice@[self.running_sum.index as int]@[r]) matches
                        Option::None,
                forall|ci: int, rj: int|
                    0 <= ci < pre.advice@.len() && 0 <= rj < pre.advice@[ci]@.len() && !(ci
                        == self.running_sum.index && row0 <= rj <= row0 + c)
                        ==> #[trigger] asg.advice@[ci]@[rj] == pre.advice@[ci]@[rj],
                asg.selectors@.len() == pre.selectors@.len(),
                forall|j: int|
                    0 <= j < pre.selectors@.len() ==> (#[trigger] asg.selectors@[j])@.len()
                        == pre.selectors@[j]@.len(),
                forall|r: int|
                    row0 <= r < row0 + i && r < row0 + c
                        ==> #[trigger] asg.selectors@[self.q_decompose.index as int]@[r] == true,
                forall|si: int, rj: int|
                    0 <= si < pre.selectors@.len() && 0 <= rj < pre.selectors@[si]@.len() && !(si
                        == self.q_decompose.index && row0 <= rj < row0 + c)
                        ==> #[trigger] asg.selectors@[si]@[rj] == pre.selectors@[si]@[rj],
                asg.fixed == pre.fixed,
                asg.instance == pre.instance,
                asg.tables == pre.tables,
                asg.copies == pre.copies,
            decreases c + 1 - i,
        {
            let cell = Fp { v: z };
            let at = row0 + (i as usize);
            match asg.assign_advice(self.running_sum, at, cell) {
                Result::Ok(_) => {},
                Result::Err(e) => {
                    return Result::Err(e);
                },
            }
            if i < c {
                match asg.enable_selector(self.q_decompose, at) {
                    Result::Ok(_) => {},
                    Result::Err(e) => {
                        return Result::Err(e);
                    },
                }
            }
            proof {
                lemma_pow2_pos((k * i) as nat);
                lemma_pow2_pos(k as nat);
                lemma_div_denominator(
                    value.v as int,
                    pow2((k * i) as nat) as int,
                    pow2(k as nat) as int,
                );
                lemma_pow2_adds((k * i) as nat, k as nat);
                assert((k * i + k) as nat == (k as nat) * ((i + 1) as nat)) by (nonlinear_arith);
                lemma_div_is_ordered_by_denominator(
                    z as int,
                    1,
                    pow2(k as nat) as int,
                );
                lemma_basic_div_self(z as int, 1);
            }
            z = z / two_k;
            i = i + 1;
        }
        Result::Ok(())
    }
}

/// Completeness of the decomposition: with the table loaded and the
/// running sum written for a value within the chunks' combined width,
/// every constraint is satisfied.  On an active row the derived chunk is
/// the corresponding `K`-bit group of the value, which the table holds;
/// on an inactive row the gated input collapses to zero, the table's
/// first entry.  The written terminal sum is zero, so no selector needs
/// to reach past the window.
pub proof fn lemma_decompose_satisfied(
    cs0: ConstraintSystem,
    cs: ConstraintSystem,
    rs: AdviceColumn,
    q: Selector,
    table_value: TableColumn,
    table_num_bits: TableColumn,
    post: Assignment,
    row0: int,
    c: nat,
    k: nat,
    value: Fp,
)
    requires
        decompose_config_shape(cs0, cs, rs, q, table_value, table_num_bits, pow2(k) as u64),
        cs0.gates@.len() == 0,
        cs0.lookups@.len() == 0,
        post.wf(cs),
        c >= 1,
        k >= 1,
        pow2(c * k) < MODULUS,
        0 <= row0,
        row0 + c < post.num_rows,
        value.valid(),
        (value.v as nat) < pow2(c * k),
        forall|r: int|
            row0 <= r <= row0 + c ==> #[trigger] post.advice@[rs.index as int]@[r] == Option::Some(
                (Fp { v: spec_z(value.v as nat, k, (r - row0) as nat) as u64 }),
            ),
        forall|rp: int|
            0 <= rp < post.num_rows ==> (#[trigger] post.selectors@[q.index as int]@[rp]) == (row0
                <= rp < row0 + c),
        post.copies@.len() == 0,
        table_loaded(post, table_value, table_num_bits, pow2(k)),
    ensures
        satisfied(cs, post),
{
    lemma_pow2_pos(k);
    assert(k <= c * k) by (nonlinear_arith)
        requires
            c >= 1,
            k >= 1,
    ;
    if k < c * k {
        lemma_pow2_strictly_increases(k, c * k);
    }
    assert(pow2(k) < MODULUS);
    assert forall|l: int, rp: int|
        0 <= l < cs.lookups@.len() && 0 <= rp < post.num_rows implies #[trigger] crate::check::lookup_row_ok(
        cs,
        post,
        l,
        rp,
    ) by {
        let tk = pow2(k) as int;
        let input = cs.lookups@[0].pairs@[0].0;
        assert(input == spec_chunk_expr(rs, q, pow2(k) as u64));
        if row0 <= rp < row0 + c {
            let i = (rp - row0) as nat;
            let zi = spec_z(value.v as nat, k, i);
            let zi1 = spec_z(value.v as nat, k, i + 1);
            lemma_pow2_pos(k * i);
            lemma_z_bounded(value.v as nat, k, i);
            lemma_z_bounded(value.v as nat, k, i + 1);
            assert(post.advice@[rs.index as int]@[rp] == Option::Some((Fp { v: zi as u64 })));
            assert(post.advice@[rs.index as int]@[rp + 1] == Option::Some(
                (Fp { v: zi1 as u64 }),
            ));
            // the recurrence: the next running sum drops one chunk
            lemma_div_denominator(value.v as int, pow2(k * i) as int, tk);
            lemma_pow2_adds(k * i, k);
            assert(k * i + k == k * (i + 1)) by (nonlinear_arith);
            assert(zi1 == zi as int / tk);
            lemma_mod_bound(zi as int, tk);
            let ci = zi as int % tk;
            lemma_chunk_eval_active(rs, q, post, rp, pow2(k) as u64, zi, zi1);
            assert(input.eval(post, rp) == ci);
            assert(post.tables@[table_value.index as int]@[ci].v == ci);
            assert(lookup_tuple_at(cs, post, l, rp, ci));
        } else {
            lemma_chunk_eval_off(rs, q, post, rp, pow2(k) as u64);
            assert(input.eval(post, rp) == 0);
            assert(post.tables@[table_value.index as int]@[0].v == 0);
            assert(lookup_tuple_at(cs, post, l, rp, 0));
        }
    }
}

/// On an active row the gated chunk input evaluates to the low bits of
/// the current running sum: the next cell scaled back up cancels the
/// rest.
#[verifier::rlimit(100)]
proof fn lemma_chunk_eval_active(
    rs: AdviceColumn,
    q: Selector,
    post: Assignment,
    rp: int,
    two_k: u64,
    zi: nat,
    zi1: nat,
)
    requires
        post.wf_dims(),
        0 <= rp,
        rp + 1 < post.num_rows,
        rs.index < post.advice@.len(),
        q.index < post.selectors@.len(),
        post.selectors@[q.index as int]@[rp] == true,
        post.advice@[rs.index as int]@[rp] == Option::Some((Fp { v: zi as u64 })),
        post.advice@[rs.index as int]@[rp + 1] == Option::Some((Fp { v: zi1 as u64 })),
        zi < MODULUS,
        zi1 < MODULUS,
        1 <= two_k < MODULUS,
        zi1 == zi as int / two_k as int,
    ensures
        spec_chunk_expr(rs, q, two_k).eval(post, rp) == zi as int % two_k as int,
{
    reveal_with_fuel(Expression::eval, 8);
    lemma_small_mod(rp as nat, post.num_rows as nat);
    lemma_small_mod((rp + 1) as nat, post.num_rows as nat);
    let tk = two_k as int;
    lemma_fundamental_div_mod(zi as int, tk);
    lemma_mod_bound(zi as int, tk);
    let ci = zi as int % tk;
    assert(zi as int - tk * zi1 == ci);
    assert(Expression::Selector(q).eval(post, rp) == 1);
    assert(Expression::Advice(rs, Rotation { offset: 0 }).eval(post, rp) == zi as int);
    assert(Expression::Advice(rs, Rotation { offset: 1 }).eval(post, rp) == zi1 as int);
    assert(zi1 * tk <= zi) by {
        lemma_mul_is_commutative(zi1 as int, tk);
    }
    assert(fmul(zi1 as int, tk) == zi1 * tk) by {
        lemma_small_mod((zi1 * tk) as nat, MODULUS as nat);
    }
    crate::field::lemma_fadd_fneg(zi as int, zi1 * tk);
    assert(fadd(zi as int, fneg(zi1 * tk)) == ci) by {
        lemma_mul_is_commutative(tk, zi1 as int);
    }
    assert(fmul(1, ci) == ci) by {
        lemma_small_mod(ci as nat, MODULUS as nat);
    }
}

/// On an inactive row the gated chunk input evaluates to zero.
proof fn lemma_chunk_eval_off(rs: AdviceColumn, q: Selector, post: Assignment, rp: int, two_k: u64)
    requires
        post.wf_dims(),
        0 <= rp < post.num_rows,
        rs.index < post.advice@.len(),
        q.index < post.selectors@.len(),
        post.selectors@[q.index as int]@[rp] == false,
    ensures
        spec_chunk_expr(rs, q, two_k).eval(post, rp) == 0,
{
    reveal_with_fuel(Expression::eval, 8);
    let inner = Expression::Sum(
        Box::new(Expression::Advice(rs, Rotation { offset: 0 })),
        Box::new(
            Expression::Negated(
                Box::new(
                    Expression::Product(
                        Box::new(Expression::Advice(rs, Rotation { offset: 1 })),
                        Box::new(Expression::Constant(Fp { v: two_k })),
                    ),
                ),
            ),
        ),
    );
    assert(Expression::Selector(q).eval(post, rp) == 0);
    lemma_fmul_zero(inner.eval(post, rp));
}

/// A running sum never exceeds the value it decomposes.
proof fn lemma_z_bounded(value: nat, k: nat, i: nat)
    ensures
        spec_z(value, k, i) <= value,
{
    lemma_pow2_pos(k * i);
    lemma_div_is_ordered_by_denominator(value as int, 1, pow2(k * i) as int);
    lemma_basic_div_self(value as int, 1);
}

/// Division by one is the identity.
proof fn lemma_basic_div_self(x: int, d: int)
    requires
        d == 1,
        x >= 0,
    ensures
        x / d == x,
{
    lemma_fundamental_div_mod(x, 1);
    lemma_small_mod(0, 1);
    assert(x % 1 == 0) by {
        lemma_mod_bound(x, 1);
    }
}

} // verus!
