//! Range check by polynomial identity.
//!
//! For a fixed bound `RANGE`, the emitted polynomial
//! `value · (value − 1) · … · (value − (RANGE − 1))` must be zero wherever
//! the selector is on, so the cell can only hold a value below `RANGE`.  The
//! product has degree `RANGE`: the largest gate degree the proving
//! backend supports is a hard precondition on how big `RANGE` may be, so
//! this gadget is for small ranges only.

use vstd::arithmetic::div_mod::lemma_small_mod;
use vstd::prelude::*;

use crate::check::{gate_poly_ok, satisfied};
use crate::cs::{AdviceColumn, ConstraintSystem, Error, Selector};
use crate::expr::{Expression, Rotation};
use crate::field::{fadd, fmul, fneg, lemma_add_neg_zero, lemma_fmul_zero, Fp, MODULUS};
use crate::witness::{cols_updated, selectors_updated, Assignment};

verus! {

/// The product `value · (value − 1) · … · (value − (n − 1))`.
pub open spec fn spec_range_product(value: Expression, n: nat) -> Expression
    decreases n,
{
    if n <= 1 {
        value
    } else {
        Expression::Product(
            Box::new(spec_range_product(value, (n - 1) as nat)),
            Box::new(
                Expression::Sum(
                    Box::new(value),
                    Box::new(
                        Expression::Negated(
                            Box::new(Expression::Constant(Fp { v: (n - 1) as u64 })),
                        ),
                    ),
                ),
            ),
        )
    }
}

/// What `configure` leaves behind: one gate whose single polynomial is
/// the selector times the range product.
pub open spec fn range_check_config_shape(
    cs0: ConstraintSystem,
    cs: ConstraintSystem,
    value: AdviceColumn,
    selector: Selector,
    range: nat,
) -> bool {
    &&& value.index < cs.num_advice
    &&& selector.index == cs0.num_selectors
    &&& cs.num_selectors == cs0.num_selectors + 1
    &&& cs.num_advice == cs0.num_advice
    &&& cs.num_fixed == cs0.num_fixed
    &&& cs.num_instance == cs0.num_instance
    &&& cs.num_tables == cs0.num_tables
    &&& cs.gates@.len() == cs0.gates@.len() + 1
    &&& forall|g: int| 0 <= g < cs0.gates@.len() ==> cs.gates@[g] == cs0.gates@[g]
    &&& cs.gates@[cs0.gates@.len() as int].polys@.len() == 1
    &&& cs.gates@[cs0.gates@.len() as int].polys@[0] == Expression::Product(
        Box::new(Expression::Selector(selector)),
        Box::new(spec_range_product(Expression::Advice(value, Rotation { offset: 0 }), range)),
    )
    &&& cs.lookups == cs0.lookups
}

/// The polynomial range-check gadget, for values below `RANGE`.
pub struct RangeCheckConfig<const RANGE: u64> {
    pub value: AdviceColumn,
    pub selector: Selector,
}

impl<const RANGE: u64> RangeCheckConfig<RANGE> {
    /// Register the range gate over an existing advice column.
    pub fn configure(meta: &mut ConstraintSystem, value: AdviceColumn) -> (cfg: Self)
        requires
            value.index < old(meta).num_advice,
            old(meta).num_selectors < usize::MAX,
            1 <= RANGE <= MODULUS,
        ensures
            cfg.value == value,
            range_check_config_shape(
                *old(meta),
                *final(meta),
                cfg.value,
                cfg.selector,
                RANGE as nat,
            ),
            final(meta).equality == old(meta).equality,
            old(meta).wf() ==> final(meta).wf(),
    {
        let selector = meta.selector();
        let ghost m1 = *meta;
        let value_query = Expression::Advice(value, Rotation::cur());
        let ghost vq = value_query;
        let mut acc = value_query;
        let mut i: u64 = 1;
        while i < RANGE
            invariant
                1 <= i <= RANGE,
                RANGE <= MODULUS,
                *meta == m1,
                value.index < m1.num_advice,
                acc == spec_range_product(vq, i as nat),
                vq == Expression::Advice(value, Rotation { offset: 0 }),
            decreases RANGE - i,
        {
            let term = Expression::Advice(value, Rotation::cur()).sub(
                Expression::Constant(Fp { v: i }),
            );
            acc = acc.mul(term);
            i = i + 1;
        }
        let poly = Expression::Selector(selector).mul(acc);
        proof {
            lemma_range_product_wf(
                vq,
                RANGE as nat,
                m1.num_advice as int,
                m1.num_fixed as int,
                m1.num_instance as int,
                m1.num_selectors as int,
            );
            reveal_with_fuel(Expression::wf_in, 3);
        }
        meta.create_gate("Range Check", vec![poly]);
        RangeCheckConfig { value, selector }
    }

    /// Write the value under test and raise the selector for the row.
    pub fn assign(&self, asg: &mut Assignment, row: usize, value: Fp) -> (r: Result<(), Error>)
        requires
            value.valid(),
            old(asg).wf_dims(),
            row < old(asg).num_rows,
            self.value.index < old(asg).advice@.len(),
            self.selector.index < old(asg).selectors@.len(),
            old(asg).advice@[self.value.index as int]@[row as int] matches Option::None,
        ensures
            r is Ok,
            final(asg).wf_dims(),
            cols_updated(
                old(asg).advice@,
                final(asg).advice@,
                self.value.index as int,
                row as int,
                value,
            ),
            selectors_updated(
                old(asg).selectors@,
                final(asg).selectors@,
                self.selector.index as int,
                row as int,
            ),
            final(asg).num_rows == old(asg).num_rows,
            final(asg).fixed == old(asg).fixed,
            final(asg).instance == old(asg).instance,
            final(asg).tables == old(asg).tables,
            final(asg).copies == old(asg).copies,
    {
        match asg.enable_selector(self.selector, row) {
            Result::Ok(_) => {},
            Result::Err(e) => {
                return Result::Err(e);
            },
        }
        match asg.assign_advice(self.value, row, value) {
            Result::Ok(_) => {},
            Result::Err(e) => {
                return Result::Err(e);
            },
        }
        Result::Ok(())
    }
}

/// The range product speaks only of its value query and reduced
/// constants, so it is well formed wherever the query is.
proof fn lemma_range_product_wf(value: Expression, n: nat, na: int, nf: int, ni: int, ns: int)
    requires
        value.wf_in(na, nf, ni, ns),
        n <= MODULUS,
    ensures
        spec_range_product(value, n).wf_in(na, nf, ni, ns),
    decreases n,
{
    reveal_with_fuel(Expression::wf_in, 5);
    if n > 1 {
        lemma_range_product_wf(value, (n - 1) as nat, na, nf, ni, ns);
    }
}

/// A value below the bound annihilates the range product: the factor at
/// its own index is zero.
pub proof fn lemma_range_product_zero(
    value_query: Expression,
    asg: Assignment,
    row: int,
    v: Fp,
    n: nat,
)
    requires
        asg.wf_dims(),
        0 <= row < asg.num_rows,
        value_query.eval(asg, row) == v.v as int,
        v.valid(),
        (v.v as nat) < n,
        n <= MODULUS,
    ensures
        spec_range_product(value_query, n).eval(asg, row) == 0,
    decreases n,
{
    reveal_with_fuel(Expression::eval, 5);
    if n <= 1 {
    } else {
        let prefix = spec_range_product(value_query, (n - 1) as nat);
        let factor = Expression::Sum(
            Box::new(value_query),
            Box::new(
                Expression::Negated(Box::new(Expression::Constant(Fp { v: (n - 1) as u64 }))),
            ),
        );
        assert(factor.eval(asg, row) == fadd(v.v as int, fneg((n - 1) as int)));
        if v.v == n - 1 {
            lemma_add_neg_zero(v.v as int);
            assert(factor.eval(asg, row) == 0);
            lemma_fmul_zero(prefix.eval(asg, row));
        } else {
            lemma_range_product_zero(value_query, asg, row, v, (n - 1) as nat);
            lemma_fmul_zero(factor.eval(asg, row));
        }
    }
}

/// Completeness of the polynomial range check: configured on a fresh
/// registry and assigned a value below the bound on one row of an
/// otherwise untouched assignment, every constraint is satisfied.
pub proof fn lemma_range_check_satisfied(
    cs0: ConstraintSystem,
    cs: ConstraintSystem,
    value: AdviceColumn,
    selector: Selector,
    post: Assignment,
    row: int,
    v: Fp,
    range: nat,
)
    requires
        range_check_config_shape(cs0, cs, value, selector, range),
        cs0.gates@.len() == 0,
        cs0.lookups@.len() == 0,
        post.wf(cs),
        0 <= row < post.num_rows,
        post.advice@[value.index as int]@[row] == Option::Some(v),
        forall|rp: int|
            0 <= rp < post.num_rows ==> (#[trigger] post.selectors@[selector.index as int]@[rp]) == (
            rp == row),
        post.copies@.len() == 0,
        v.valid(),
        (v.v as nat) < range,
        range <= MODULUS,
    ensures
        satisfied(cs, post),
{
    let value_query = Expression::Advice(value, Rotation { offset: 0 });
    let product = spec_range_product(value_query, range);
    let poly = cs.gates@[0].polys@[0];
    assert forall|g: int, j: int, rp: int|
        0 <= g < cs.gates@.len() && 0 <= j < cs.gates@[g].polys@.len() && 0 <= rp < post.num_rows
        implies #[trigger] gate_poly_ok(cs, post, g, j, rp) by {
        reveal_with_fuel(Expression::eval, 3);
        if rp == row {
            lemma_small_mod(rp as nat, post.num_rows as nat);
            assert(value_query.eval(post, rp) == v.v as int);
            lemma_range_product_zero(value_query, post, rp, v, range);
            assert(Expression::Selector(selector).eval(post, rp) == 1);
            lemma_fmul_zero(1);
            assert(poly.eval(post, rp) == fmul(1, product.eval(post, rp)));
        } else {
            assert(Expression::Selector(selector).eval(post, rp) == 0);
            lemma_fmul_zero(product.eval(post, rp));
            assert(poly.eval(post, rp) == fmul(0, product.eval(post, rp)));
        }
    }
}

} // verus!
