//! The equality-to-zero gadget, and the conditional-select gadget built
//! on it.
//!
//! The zero test wires one extra advice column holding a claimed inverse
//! and emits the single identity `enable · value · (1 − value·inverse)`.
//! If `value` is nonzero the identity forces `value·inverse = 1`, so the
//! derived expression `1 − value·inverse` is zero; if `value` is zero the
//! identity holds whatever the inverse cell says, and the derived
//! expression is 1.  One identity therefore serves both soundness and
//! completeness, and the derived expression is handed to downstream
//! gadgets as a reusable sub-expression.
//!
//! The conditional-select gadget gates `out` with that expression so that
//! `a = 0` selects `b` and any other `a` selects `c`.

use vstd::arithmetic::div_mod::lemma_small_mod;
use vstd::prelude::*;

use crate::cs::{AdviceColumn, ConstraintSystem, Error, Selector};
use crate::expr::{Expression, Rotation};
use crate::field::{fadd, fmul, fneg, lemma_add_neg_zero, lemma_fmul_zero, Fp, MODULUS};
use crate::witness::{cols_updated, selectors_updated, unchanged_but_advice, Assignment};

verus! {

/// The reusable sub-expression `1 − value·inverse`.
pub open spec fn spec_is_zero_expr(value: Expression, value_inv: AdviceColumn) -> Expression {
    Expression::Sum(
        Box::new(Expression::Constant(Fp { v: 1 })),
        Box::new(
            Expression::Negated(
                Box::new(
                    Expression::Product(
                        Box::new(value),
                        Box::new(Expression::Advice(value_inv, Rotation { offset: 0 })),
                    ),
                ),
            ),
        ),
    )
}

/// The single identity the gadget emits:
/// `zero_check · value · (1 − value·inverse)`.
pub open spec fn spec_is_zero_gate(
    zero_check: Expression,
    value: Expression,
    value_inv: AdviceColumn,
) -> Expression {
    Expression::Product(
        Box::new(Expression::Product(Box::new(zero_check), Box::new(value))),
        Box::new(spec_is_zero_expr(value, value_inv)),
    )
}

/// The configuration of one zero-test instance: the inverse column it
/// owns and the derived expression downstream gadgets may reuse.
pub struct IsZeroConfig {
    pub value_inv: AdviceColumn,
    pub is_zero_expr: Expression,
}

/// The zero-test gadget.
pub struct IsZeroChip {
    pub config: IsZeroConfig,
}

impl IsZeroChip {
    /// Wrap an existing configuration.
    pub fn construct(config: IsZeroConfig) -> (chip: IsZeroChip)
        ensures
            chip.config.value_inv == config.value_inv,
            chip.config.is_zero_expr == config.is_zero_expr,
    {
        IsZeroChip { config }
    }

    /// Register the zero-test gate.  `zero_check` is the enabling
    /// expression and `value` the expression under test; both are plain
    /// expression trees, so the gadget can be pointed at any existing
    /// columns.
    pub fn configure(
        meta: &mut ConstraintSystem,
        zero_check: Expression,
        value: Expression,
        value_inv: AdviceColumn,
    ) -> (cfg: IsZeroConfig)
        requires
            zero_check.wf_in(
                old(meta).num_advice as int,
                old(meta).num_fixed as int,
                old(meta).num_instance as int,
                old(meta).num_selectors as int,
            ),
            value.wf_in(
                old(meta).num_advice as int,
                old(meta).num_fixed as int,
                old(meta).num_instance as int,
                old(meta).num_selectors as int,
            ),
            value_inv.index < old(meta).num_advice,
        ensures
            cfg.value_inv == value_inv,
            cfg.is_zero_expr == spec_is_zero_expr(value, value_inv),
            final(meta).gates@.len() == old(meta).gates@.len() + 1,
            forall|g: int|
                0 <= g < old(meta).gates@.len() ==> final(meta).gates@[g] == old(meta).gates@[g],
            final(meta).gates@[old(meta).gates@.len() as int].polys@.len() == 1,
            final(meta).gates@[old(meta).gates@.len() as int].polys@[0] == spec_is_zero_gate(
                zero_check,
                value,
                value_inv,
            ),
            final(meta).num_advice == old(meta).num_advice,
            final(meta).num_fixed == old(meta).num_fixed,
            final(meta).num_instance == old(meta).num_instance,
            final(meta).num_tables == old(meta).num_tables,
            final(meta).num_selectors == old(meta).num_selectors,
            final(meta).lookups == old(meta).lookups,
            final(meta).equality == old(meta).equality,
            old(meta).wf() ==> final(meta).wf(),
    {
        let inv_query = Expression::Advice(value_inv, Rotation::cur());
        let is_zero_expr = Expression::Constant(Fp::one()).sub(value.dup().mul(inv_query));
        let poly = zero_check.mul(value).mul(is_zero_expr.dup());
        let ghost na = meta.num_advice as int;
        let ghost nf = meta.num_fixed as int;
        let ghost ni = meta.num_instance as int;
        let ghost ns = meta.num_selectors as int;
        proof {
            reveal_with_fuel(Expression::wf_in, 8);
            assert(is_zero_expr.wf_in(na, nf, ni, ns));
            assert(poly.wf_in(na, nf, ni, ns));
        }
        meta.create_gate("is zero check gate", vec![poly]);
        IsZeroConfig { value_inv, is_zero_expr }
    }

    /// Write the inverse cell for one row: the true inverse of a nonzero
    /// `value`, and the canonical placeholder 0 for `value = 0`, which the
    /// identity accepts whatever stands there.
    pub fn assign(&self, asg: &mut Assignment, row: usize, value: Fp) -> (r: Result<(), Error>)
        requires
            value.valid(),
            old(asg).wf_dims(),
            self.config.value_inv.index < old(asg).advice@.len(),
            row < old(asg).num_rows,
            old(asg).advice@[self.config.value_inv.index as int]@[row as int] matches Option::None,
        ensures
            r is Ok,
            final(asg).wf_dims(),
            unchanged_but_advice(*old(asg), *final(asg)),
            ({
                &&& final(asg).advice@[self.config.value_inv.index as int]@[row as int] matches
                    Option::Some(i)
                &&& i.valid()
                &&& (value.v == 0 ==> i.v == 0)
                &&& (value.v != 0 ==> fmul(value.as_int(), i.as_int()) == 1)
                &&& cols_updated(
                    old(asg).advice@,
                    final(asg).advice@,
                    self.config.value_inv.index as int,
                    row as int,
                    i,
                )
            }),
    {
        let value_inv = value.invert();
        let r = asg.assign_advice(self.config.value_inv, row, value_inv);
        r
    }
}

/// The branch active when `a = 0`: `sel · is_zero · (b − out)`, forcing
/// `out = b` there.
pub open spec fn spec_select_zero_poly(
    sel: Selector,
    is_zero: Expression,
    b: AdviceColumn,
    out: AdviceColumn,
) -> Expression {
    Expression::Product(
        Box::new(Expression::Product(Box::new(Expression::Selector(sel)), Box::new(is_zero))),
        Box::new(
            Expression::Sum(
                Box::new(Expression::Advice(b, Rotation { offset: 0 })),
                Box::new(
                    Expression::Negated(Box::new(Expression::Advice(out, Rotation { offset: 0 }))),
                ),
            ),
        ),
    )
}

/// The branch active when `a ≠ 0`: `sel · (1 − is_zero) · (c − out)`,
/// forcing `out = c` there.
pub open spec fn spec_select_nonzero_poly(
    sel: Selector,
    is_zero: Expression,
    c: AdviceColumn,
    out: AdviceColumn,
) -> Expression {
    Expression::Product(
        Box::new(
            Expression::Product(
                Box::new(Expression::Selector(sel)),
                Box::new(
                    Expression::Sum(
                        Box::new(Expression::Constant(Fp { v: 1 })),
                        Box::new(Expression::Negated(Box::new(is_zero))),
                    ),
                ),
            ),
        ),
        Box::new(
            Expression::Sum(
                Box::new(Expression::Advice(c, Rotation { offset: 0 })),
                Box::new(
                    Expression::Negated(Box::new(Expression::Advice(out, Rotation { offset: 0 }))),
                ),
            ),
        ),
    )
}

/// The configuration of the conditional-select gadget.
pub struct FunctionConfig {
    pub a: AdviceColumn,
    pub b: AdviceColumn,
    pub c: AdviceColumn,
    pub out: AdviceColumn,
    pub selector: Selector,
    pub a_is_zero_config: IsZeroConfig,
}

/// The conditional-select gadget: `out = b` when `a = 0`, else `out = c`.
pub struct FunctionChip {
    pub config: FunctionConfig,
}

/// What `FunctionChip::configure` leaves behind: the columns it
/// allocated, the derived zero-test expression, and the two gates it
/// registered on top of whatever the registry already held.
pub open spec fn function_config_shape(
    cs0: ConstraintSystem,
    cs: ConstraintSystem,
    cfg: FunctionConfig,
) -> bool {
    &&& cfg.a.index == cs0.num_advice
    &&& cfg.b.index == cs0.num_advice + 1
    &&& cfg.c.index == cs0.num_advice + 2
    &&& cfg.out.index == cs0.num_advice + 3
    &&& cfg.a_is_zero_config.value_inv.index == cs0.num_advice + 4
    &&& cfg.selector.index == cs0.num_selectors
    &&& cs.num_advice == cs0.num_advice + 5
    &&& cs.num_selectors == cs0.num_selectors + 1
    &&& cs.num_fixed == cs0.num_fixed
    &&& cs.num_instance == cs0.num_instance
    &&& cs.num_tables == cs0.num_tables
    &&& cfg.a_is_zero_config.is_zero_expr == spec_is_zero_expr(
        Expression::Advice(cfg.a, Rotation { offset: 0 }),
        cfg.a_is_zero_config.value_inv,
    )
    &&& cs.gates@.len() == cs0.gates@.len() + 2
    &&& forall|g: int| 0 <= g < cs0.gates@.len() ==> cs.gates@[g] == cs0.gates@[g]
    &&& cs.gates@[cs0.gates@.len() as int].polys@.len() == 1
    &&& cs.gates@[cs0.gates@.len() as int].polys@[0] == spec_is_zero_gate(
        Expression::Selector(cfg.selector),
        Expression::Advice(cfg.a, Rotation { offset: 0 }),
        cfg.a_is_zero_config.value_inv,
    )
    &&& cs.gates@[cs0.gates@.len() as int + 1].polys@.len() == 2
    &&& cs.gates@[cs0.gates@.len() as int + 1].polys@[0] == spec_select_zero_poly(
        cfg.selector,
        cfg.a_is_zero_config.is_zero_expr,
        cfg.b,
        cfg.out,
    )
    &&& cs.gates@[cs0.gates@.len() as int + 1].polys@[1] == spec_select_nonzero_poly(
        cfg.selector,
        cfg.a_is_zero_config.is_zero_expr,
        cfg.c,
        cfg.out,
    )
    &&& cs.lookups == cs0.lookups
}

/// What `FunctionChip::assign` writes for one row: the three inputs, the
/// selected output, the zero-test inverse, and the raised selector — and
/// nothing else.
pub open spec fn function_assigned(
    pre: Assignment,
    post: Assignment,
    cfg: FunctionConfig,
    row: int,
    a: Fp,
    b: Fp,
    c: Fp,
) -> bool {
    &&& post.num_rows == pre.num_rows
    &&& post.advice@.len() == pre.advice@.len()
    &&& forall|i: int|
        0 <= i < pre.advice@.len() ==> (#[trigger] post.advice@[i])@.len()
            == pre.advice@[i]@.len()
    &&& post.advice@[cfg.a.index as int]@[row] == Option::Some(a)
    &&& post.advice@[cfg.b.index as int]@[row] == Option::Some(b)
    &&& post.advice@[cfg.c.index as int]@[row] == Option::Some(c)
    &&& post.advice@[cfg.out.index as int]@[row] == Option::Some(
        if a.v == 0 {
            b
        } else {
            c
        },
    )
    &&& {
        &&& post.advice@[cfg.a_is_zero_config.value_inv.index as int]@[row] matches
            Option::Some(i)
        &&& i.valid()
        &&& (a.v == 0 ==> i.v == 0)
        &&& (a.v != 0 ==> fmul(a.as_int(), i.as_int()) == 1)
    }
    &&& forall|ci: int, rj: int|
        0 <= ci < pre.advice@.len() && 0 <= rj < pre.advice@[ci]@.len() && !(rj == row && (ci
            == cfg.a.index || ci == cfg.b.index || ci == cfg.c.index || ci == cfg.out.index || ci
            == cfg.a_is_zero_config.value_inv.index)) ==> #[trigger] post.advice@[ci]@[rj]
            == pre.advice@[ci]@[rj]
    &&& selectors_updated(pre.selectors@, post.selectors@, cfg.selector.index as int, row)
    &&& post.fixed == pre.fixed
    &&& post.instance == pre.instance
    &&& post.tables == pre.tables
    &&& post.copies == pre.copies
}

impl FunctionChip {
    /// Wrap an existing configuration.
    pub fn construct(config: FunctionConfig) -> (chip: FunctionChip)
        ensures
            chip.config == config,
    {
        FunctionChip { config }
    }

    /// Allocate the gadget's columns, embed the zero test over column
    /// `a`, and register the select gate, wired so that `a = 0` selects
    /// `b` and any other `a` selects `c`.
    pub fn configure(meta: &mut ConstraintSystem) -> (cfg: FunctionConfig)
        requires
            old(meta).num_advice + 5 <= usize::MAX,
            old(meta).num_selectors < usize::MAX,
        ensures
            function_config_shape(*old(meta), *final(meta), cfg),
            final(meta).equality@ == old(meta).equality@.push(cfg.a).push(cfg.b).push(
                cfg.c,
            ).push(cfg.out),
            final(meta).num_fixed == old(meta).num_fixed,
            final(meta).num_instance == old(meta).num_instance,
            final(meta).num_tables == old(meta).num_tables,
            old(meta).wf() ==> final(meta).wf(),
    {
        let a = meta.advice_column();
        let b = meta.advice_column();
        let c = meta.advice_column();
        let out = meta.advice_column();
        let selector = meta.selector();

        meta.enable_equality(a);
        meta.enable_equality(b);
        meta.enable_equality(c);
        meta.enable_equality(out);

        let zero_check_advice = meta.advice_column();

        let a_is_zero_config = IsZeroChip::configure(
            meta,
            Expression::Selector(selector),
            Expression::Advice(a, Rotation::cur()),
            zero_check_advice,
        );

        let is_zero = a_is_zero_config.is_zero_expr.dup();
        let b_minus_out = Expression::Advice(b, Rotation::cur()).sub(
            Expression::Advice(out, Rotation::cur()),
        );
        let c_minus_out = Expression::Advice(c, Rotation::cur()).sub(
            Expression::Advice(out, Rotation::cur()),
        );
        let zero_branch = Expression::Selector(selector).mul(is_zero.dup()).mul(b_minus_out);
        let nonzero_branch = Expression::Selector(selector).mul(
            Expression::Constant(Fp::one()).sub(is_zero),
        ).mul(c_minus_out);

        let ghost na = meta.num_advice as int;
        let ghost nf = meta.num_fixed as int;
        let ghost ni = meta.num_instance as int;
        let ghost ns = meta.num_selectors as int;
        proof {
            reveal_with_fuel(Expression::wf_in, 10);
            assert(zero_branch.wf_in(na, nf, ni, ns));
            assert(nonzero_branch.wf_in(na, nf, ni, ns));
        }
        meta.create_gate("if a == 0 { b } else { c }", vec![zero_branch, nonzero_branch]);

        FunctionConfig { a, b, c, out, selector, a_is_zero_config }
    }

    /// Write one row of the gadget: raise its selector, let the zero test
    /// fill the inverse cell, store the three inputs, and store the
    /// selected output.
    pub fn assign(&self, asg: &mut Assignment, row: usize, a: Fp, b: Fp, c: Fp) -> (r: Result<
        (),
        Error,
    >)
        requires
            a.valid(),
            b.valid(),
            c.valid(),
            old(asg).wf_dims(),
            row < old(asg).num_rows,
            self.config.a.index < old(asg).advice@.len(),
            self.config.b.index < old(asg).advice@.len(),
            self.config.c.index < old(asg).advice@.len(),
            self.config.out.index < old(asg).advice@.len(),
            self.config.a_is_zero_config.value_inv.index < old(asg).advice@.len(),
            self.config.selector.index < old(asg).selectors@.len(),
            self.config.a.index != self.config.b.index,
            self.config.a.index != self.config.c.index,
            self.config.a.index != self.config.out.index,
            self.config.a.index != self.config.a_is_zero_config.value_inv.index,
            self.config.b.index != self.config.c.index,
            self.config.b.index != self.config.out.index,
            self.config.b.index != self.config.a_is_zero_config.value_inv.index,
            self.config.c.index != self.config.out.index,
            self.config.c.index != self.config.a_is_zero_config.value_inv.index,
            self.config.out.index != self.config.a_is_zero_config.value_inv.index,
            old(asg).advice@[self.config.a.index as int]@[row as int] matches Option::None,
            old(asg).advice@[self.config.b.index as int]@[row as int] matches Option::None,
            old(asg).advice@[self.config.c.index as int]@[row as int] matches Option::None,
            old(asg).advice@[self.config.out.index as int]@[row as int] matches Option::None,
            old(asg).advice@[self.config.a_is_zero_config.value_inv.index as int]@[row as int]
                matches Option::None,
        ensures
            r is Ok,
            final(asg).wf_dims(),
            function_assigned(*old(asg), *final(asg), self.config, row as int, a, b, c),
    {
        match asg.enable_selector(self.config.selector, row) {
            Result::Ok(_) => {},
            Result::Err(e) => {
                return Result::Err(e);
            },
        }

        let a_is_zero_chip = IsZeroChip::construct(
            IsZeroConfig {
                value_inv: self.config.a_is_zero_config.value_inv,
                is_zero_expr: self.config.a_is_zero_config.is_zero_expr.dup(),
            },
        );
        match a_is_zero_chip.assign(asg, row, a) {
            Result::Ok(_) => {},
            Result::Err(e) => {
                return Result::Err(e);
            },
        }

        match asg.assign_advice(self.config.a, row, a) {
            Result::Ok(_) => {},
            Result::Err(e) => {
                return Result::Err(e);
            },
        }
        match asg.assign_advice(self.config.b, row, b) {
            Result::Ok(_) => {},
            Result::Err(e) => {
                return Result::Err(e);
            },
        }
        match asg.assign_advice(self.config.c, row, c) {
            Result::Ok(_) => {},
            Result::Err(e) => {
                return Result::Err(e);
            },
        }

        let out_value = if a.is_zero() {
            b
        } else {
            c
        };
        match asg.assign_advice(self.config.out, row, out_value) {
            Result::Ok(_) => {},
            Result::Err(e) => {
                return Result::Err(e);
            },
        }

        Result::Ok(())
    }
}

/// The conditional-select circuit: three field inputs, one selected
/// output, all witnessed on one row.
pub struct FunctionCircuit {
    pub a: Fp,
    pub b: Fp,
    pub c: Fp,
}

impl Default for FunctionCircuit {
    /// The all-zero instance.
    fn default() -> (circuit: FunctionCircuit)
        ensures
            circuit.a.v == 0,
            circuit.b.v == 0,
            circuit.c.v == 0,
    {
        FunctionCircuit { a: Fp::zero(), b: Fp::zero(), c: Fp::zero() }
    }
}

impl FunctionCircuit {
    /// The same circuit with its witnesses cleared.
    pub fn without_witnesses(&self) -> (circuit: FunctionCircuit)
        ensures
            circuit.a.v == 0,
            circuit.b.v == 0,
            circuit.c.v == 0,
    {
        FunctionCircuit::default()
    }

    /// Configure the underlying gadget.
    pub fn configure(meta: &mut ConstraintSystem) -> (cfg: FunctionConfig)
        requires
            old(meta).num_advice + 5 <= usize::MAX,
            old(meta).num_selectors < usize::MAX,
        ensures
            function_config_shape(*old(meta), *final(meta), cfg),
            final(meta).equality@ == old(meta).equality@.push(cfg.a).push(cfg.b).push(
                cfg.c,
            ).push(cfg.out),
            final(meta).num_fixed == old(meta).num_fixed,
            final(meta).num_instance == old(meta).num_instance,
            final(meta).num_tables == old(meta).num_tables,
            old(meta).wf() ==> final(meta).wf(),
    {
        FunctionChip::configure(meta)
    }

    /// Write the witness on row 0.
    pub fn synthesize(&self, config: FunctionConfig, asg: &mut Assignment) -> (r: Result<
        (),
        Error,
    >)
        requires
            self.a.valid(),
            self.b.valid(),
            self.c.valid(),
            old(asg).wf_dims(),
            old(asg).num_rows >= 1,
            config.a.index < old(asg).advice@.len(),
            config.b.index < old(asg).advice@.len(),
            config.c.index < old(asg).advice@.len(),
            config.out.index < old(asg).advice@.len(),
            config.a_is_zero_config.value_inv.index < old(asg).advice@.len(),
            config.selector.index < old(asg).selectors@.len(),
            config.a.index != config.b.index,
            config.a.index != config.c.index,
            config.a.index != config.out.index,
            config.a.index != config.a_is_zero_config.value_inv.index,
            config.b.index != config.c.index,
            config.b.index != config.out.index,
            config.b.index != config.a_is_zero_config.value_inv.index,
            config.c.index != config.out.index,
            config.c.index != config.a_is_zero_config.value_inv.index,
            config.out.index != config.a_is_zero_config.value_inv.index,
            old(asg).advice@[config.a.index as int]@[0] matches Option::None,
            old(asg).advice@[config.b.index as int]@[0] matches Option::None,
            old(asg).advice@[config.c.index as int]@[0] matches Option::None,
            old(asg).advice@[config.out.index as int]@[0] matches Option::None,
            old(asg).advice@[config.a_is_zero_config.value_inv.index as int]@[0] matches
                Option::None,
        ensures
            r is Ok,
            final(asg).wf_dims(),
            function_assigned(*old(asg), *final(asg), config, 0, self.a, self.b, self.c),
    {
        let chip = FunctionChip::construct(config);
        chip.assign(asg, 0, self.a, self.b, self.c)
    }
}

/// The zero test evaluated: with the inverse cell filled as `assign`
/// fills it, the derived expression is 1 exactly on a zero value and 0 on
/// a nonzero one, and the emitted identity vanishes either way — for a
/// zero value it vanishes whatever the inverse cell holds.
#[verifier::rlimit(100)]
pub proof fn lemma_is_zero_eval(
    zero_check: Expression,
    value: Expression,
    value_inv: AdviceColumn,
    asg: Assignment,
    row: int,
    v: Fp,
    i: Fp,
)
    requires
        asg.wf_dims(),
        0 <= row < asg.num_rows,
        value_inv.index < asg.advice@.len(),
        asg.advice@[value_inv.index as int]@[row] == Option::Some(i),
        value.eval(asg, row) == v.v as int,
        v.valid(),
        i.valid(),
    ensures
        v.v == 0 ==> spec_is_zero_expr(value, value_inv).eval(asg, row) == 1,
        v.v != 0 && fmul(v.as_int(), i.as_int()) == 1 ==> spec_is_zero_expr(
            value,
            value_inv,
        ).eval(asg, row) == 0,
        v.v == 0 || fmul(v.as_int(), i.as_int()) == 1 ==> spec_is_zero_gate(
            zero_check,
            value,
            value_inv,
        ).eval(asg, row) == 0,
{
    reveal_with_fuel(Expression::eval, 8);
    lemma_small_mod(row as nat, asg.num_rows as nat);
    let iz = spec_is_zero_expr(value, value_inv);
    let gate = spec_is_zero_gate(zero_check, value, value_inv);
    let zc = zero_check.eval(asg, row);
    assert(Expression::Advice(value_inv, Rotation { offset: 0 }).eval(asg, row) == i.v as int);
    assert(iz.eval(asg, row) == fadd(1, fneg(fmul(v.v as int, i.v as int))));
    assert(gate.eval(asg, row) == fmul(fmul(zc, v.v as int), iz.eval(asg, row)));
    if v.v == 0 {
        lemma_fmul_zero(i.v as int);
        assert(fneg(0) == 0) by {
            lemma_small_mod(0, MODULUS as nat);
        }
        assert(iz.eval(asg, row) == fadd(1, 0));
        assert(fadd(1, 0) == 1) by {
            lemma_small_mod(1, MODULUS as nat);
        }
        lemma_fmul_zero(zc);
        assert(fmul(zc, v.v as int) == 0);
        lemma_fmul_zero(iz.eval(asg, row));
        assert(gate.eval(asg, row) == 0);
    } else if fmul(v.as_int(), i.as_int()) == 1 {
        lemma_add_neg_zero(1);
        assert(iz.eval(asg, row) == 0);
        lemma_fmul_zero(fmul(zc, v.v as int));
        assert(gate.eval(asg, row) == 0);
    }
}

/// Soundness of the zero test: on an enabled row, a satisfied identity
/// with a nonzero value forces the inverse cell to hold the true
/// multiplicative inverse — `value·inverse = 1` — and the derived
/// expression to be zero.  No second constraint is needed for this.
#[verifier::rlimit(100)]
pub proof fn lemma_is_zero_sound(
    zero_check: Expression,
    value: Expression,
    value_inv: AdviceColumn,
    asg: Assignment,
    row: int,
    v: Fp,
    i: Fp,
)
    requires
        asg.wf_dims(),
        0 <= row < asg.num_rows,
        value_inv.index < asg.advice@.len(),
        asg.advice@[value_inv.index as int]@[row] == Option::Some(i),
        i.valid(),
        value.eval(asg, row) == v.v as int,
        v.valid(),
        v.v != 0,
        zero_check.eval(asg, row) == 1,
        spec_is_zero_gate(zero_check, value, value_inv).eval(asg, row) == 0,
    ensures
        fmul(v.as_int(), i.as_int()) == 1,
        spec_is_zero_expr(value, value_inv).eval(asg, row) == 0,
{
    reveal_with_fuel(Expression::eval, 8);
    lemma_small_mod(row as nat, asg.num_rows as nat);
    let m = MODULUS as int;
    let iz = spec_is_zero_expr(value, value_inv);
    let vi = fmul(v.v as int, i.v as int);
    assert(Expression::Advice(value_inv, Rotation { offset: 0 }).eval(asg, row) == i.v as int);
    assert(iz.eval(asg, row) == fadd(1, fneg(vi)));
    let izval = iz.eval(asg, row);
    assert(fmul(1, v.v as int) == v.v as int) by {
        lemma_small_mod(v.v as nat, MODULUS as nat);
    }
    assert(fmul(v.v as int, izval) == 0);
    assert(0 <= izval < m) by {
        vstd::arithmetic::div_mod::lemma_mod_bound(1 + fneg(vi), m);
    }
    crate::field::lemma_nonzero_cancel(v.v as nat, izval);
    // the derived expression is zero, so 1 − value·inverse vanishes and
    // the inverse cell holds the one true inverse
    assert(0 <= vi < m) by {
        vstd::arithmetic::div_mod::lemma_mod_bound(v.v as int * i.v as int, m);
    }
    assert(0 <= fneg(vi) < m) by {
        vstd::arithmetic::div_mod::lemma_mod_bound(0 - vi, m);
    }
    if 1 + fneg(vi) < m {
        lemma_small_mod((1 + fneg(vi)) as nat, MODULUS as nat);
        assert(false);
    }
    assert(fneg(vi) == m - 1);
    if vi == 0 {
        lemma_small_mod(0, MODULUS as nat);
        assert(false);
    }
    crate::field::lemma_shift_mod(0 - vi);
    lemma_small_mod((m - vi) as nat, MODULUS as nat);
    assert(vi == 1);
}

/// Both select-gate branches and the embedded zero-test identity vanish
/// on the row the gadget assigned, whatever the three inputs were.
pub proof fn lemma_function_row_satisfied(
    cs0: ConstraintSystem,
    cs: ConstraintSystem,
    cfg: FunctionConfig,
    pre: Assignment,
    post: Assignment,
    row: int,
    a: Fp,
    b: Fp,
    c: Fp,
)
    requires
        function_config_shape(cs0, cs, cfg),
        function_assigned(pre, post, cfg, row, a, b, c),
        post.wf_dims(),
        post.advice@.len() == cs.num_advice,
        post.selectors@.len() == cs.num_selectors,
        pre.advice@.len() == post.advice@.len(),
        0 <= row < post.num_rows,
        a.valid(),
        b.valid(),
        c.valid(),
    ensures
        cs.gates@[cs0.gates@.len() as int].polys@[0].eval(post, row) == 0,
        cs.gates@[cs0.gates@.len() as int + 1].polys@[0].eval(post, row) == 0,
        cs.gates@[cs0.gates@.len() as int + 1].polys@[1].eval(post, row) == 0,
{
    reveal_with_fuel(Expression::eval, 8);
    lemma_small_mod(row as nat, post.num_rows as nat);
    let inv_col = cfg.a_is_zero_config.value_inv;
    let i = choose|i: Fp| post.advice@[inv_col.index as int]@[row] == Option::Some(i);
    let a_query = Expression::Advice(cfg.a, Rotation { offset: 0 });
    assert(a_query.eval(post, row) == a.v as int);
    lemma_is_zero_eval(Expression::Selector(cfg.selector), a_query, inv_col, post, row, a, i);

    let iz = cfg.a_is_zero_config.is_zero_expr;
    let out = if a.v == 0 {
        b
    } else {
        c
    };
    assert(Expression::Advice(cfg.b, Rotation { offset: 0 }).eval(post, row) == b.v as int);
    assert(Expression::Advice(cfg.c, Rotation { offset: 0 }).eval(post, row) == c.v as int);
    assert(Expression::Advice(cfg.out, Rotation { offset: 0 }).eval(post, row) == out.v as int);
    assert(Expression::Selector(cfg.selector).eval(post, row) == 1);

    let zero_branch = spec_select_zero_poly(cfg.selector, iz, cfg.b, cfg.out);
    let nonzero_branch = spec_select_nonzero_poly(cfg.selector, iz, cfg.c, cfg.out);
    let izval = iz.eval(post, row);
    let diff_b = fadd(b.v as int, fneg(out.v as int));
    let diff_c = fadd(c.v as int, fneg(out.v as int));
    assert(zero_branch.eval(post, row) == fmul(fmul(1, izval), diff_b));
    assert(nonzero_branch.eval(post, row) == fmul(fmul(1, fadd(1, fneg(izval))), diff_c));

    if a.v == 0 {
        // out = b, so the zero branch carries the factor b − out = 0;
        // the nonzero branch carries 1 − is_zero = 0.
        lemma_add_neg_zero(b.v as int);
        assert(diff_b == 0);
        lemma_fmul_zero(fmul(1, izval));
        assert(zero_branch.eval(post, row) == 0);
        assert(izval == 1);
        lemma_add_neg_zero(1);
        assert(fadd(1, fneg(izval)) == 0);
        lemma_fmul_zero(1);
        assert(fmul(1, fadd(1, fneg(izval))) == 0);
        lemma_fmul_zero(diff_c);
        assert(nonzero_branch.eval(post, row) == 0);
    } else {
        // is_zero = 0 kills the zero branch; out = c kills the other.
        assert(izval == 0);
        lemma_fmul_zero(1);
        assert(fmul(1, izval) == 0);
        lemma_fmul_zero(diff_b);
        assert(zero_branch.eval(post, row) == 0);
        lemma_add_neg_zero(c.v as int);
        assert(diff_c == 0);
        lemma_fmul_zero(fmul(1, fadd(1, fneg(izval))));
        assert(nonzero_branch.eval(post, row) == 0);
    }
}

/// On a row whose selector is off, all three emitted polynomials vanish,
/// whatever the cells hold: each carries the selector as a factor.
pub proof fn lemma_function_gates_off_row(
    cs0: ConstraintSystem,
    cs: ConstraintSystem,
    cfg: FunctionConfig,
    asg: Assignment,
    row: int,
)
    requires
        function_config_shape(cs0, cs, cfg),
        asg.wf_dims(),
        asg.selectors@.len() == cs.num_selectors,
        0 <= row < asg.num_rows,
        asg.selectors@[cfg.selector.index as int]@[row] == false,
    ensures
        cs.gates@[cs0.gates@.len() as int].polys@[0].eval(asg, row) == 0,
        cs.gates@[cs0.gates@.len() as int + 1].polys@[0].eval(asg, row) == 0,
        cs.gates@[cs0.gates@.len() as int + 1].polys@[1].eval(asg, row) == 0,
{
    reveal_with_fuel(Expression::eval, 8);
    assert(Expression::Selector(cfg.selector).eval(asg, row) == 0);
    let iz = cfg.a_is_zero_config.is_zero_expr;
    let a_query = Expression::Advice(cfg.a, Rotation { offset: 0 });
    assert(fmul(0, a_query.eval(asg, row)) == 0);
    assert(fmul(0, iz.eval(asg, row)) == 0);
    assert(fmul(0, fadd(1, fneg(iz.eval(asg, row)))) == 0);
    assert(spec_is_zero_gate(Expression::Selector(cfg.selector), a_query, cfg.a_is_zero_config.value_inv).eval(asg, row) == 0) by {
        assert(fmul(0, spec_is_zero_expr(a_query, cfg.a_is_zero_config.value_inv).eval(asg, row))
            == 0);
    }
    assert(spec_select_zero_poly(cfg.selector, iz, cfg.b, cfg.out).eval(asg, row) == 0) by {
        let diff = Expression::Sum(
            Box::new(Expression::Advice(cfg.b, Rotation { offset: 0 })),
            Box::new(
                Expression::Negated(Box::new(Expression::Advice(cfg.out, Rotation { offset: 0 }))),
            ),
        );
        assert(fmul(0, diff.eval(asg, row)) == 0);
    }
    assert(spec_select_nonzero_poly(cfg.selector, iz, cfg.c, cfg.out).eval(asg, row) == 0) by {
        let diff = Expression::Sum(
            Box::new(Expression::Advice(cfg.c, Rotation { offset: 0 })),
            Box::new(
                Expression::Negated(Box::new(Expression::Advice(cfg.out, Rotation { offset: 0 }))),
            ),
        );
        assert(fmul(0, diff.eval(asg, row)) == 0);
    }
}

/// Completeness of the whole conditional-select circuit: configured on a
/// fresh registry and synthesized on a fresh assignment, the witness the
/// gadget writes satisfies every constraint, for every choice of inputs.
pub proof fn lemma_function_circuit_satisfied(
    cs0: ConstraintSystem,
    cs: ConstraintSystem,
    cfg: FunctionConfig,
    pre: Assignment,
    post: Assignment,
    row: int,
    a: Fp,
    b: Fp,
    c: Fp,
)
    requires
        function_config_shape(cs0, cs, cfg),
        cs0.gates@.len() == 0,
        cs0.lookups@.len() == 0,
        function_assigned(pre, post, cfg, row, a, b, c),
        post.wf(cs),
        pre.advice@.len() == post.advice@.len(),
        forall|j: int|
            0 <= j < pre.selectors@[cfg.selector.index as int]@.len() ==> #[trigger] pre.selectors@[cfg.selector.index as int]@[j] == false,
        pre.copies@.len() == 0,
        0 <= row < post.num_rows,
        a.valid(),
        b.valid(),
        c.valid(),
    ensures
        crate::check::satisfied(cs, post),
{
    assert forall|g: int, j: int, rp: int|
        0 <= g < cs.gates@.len() && 0 <= j < cs.gates@[g].polys@.len() && 0 <= rp < post.num_rows
        implies #[trigger] crate::check::gate_poly_ok(cs, post, g, j, rp) by {
        if rp == row {
            lemma_function_row_satisfied(cs0, cs, cfg, pre, post, row, a, b, c);
        } else {
            assert(post.selectors@[cfg.selector.index as int]@[rp] == pre.selectors@[cfg.selector.index as int]@[rp]);
            lemma_function_gates_off_row(cs0, cs, cfg, post, rp);
        }
    }
    assert(post.copies@.len() == 0);
    assert(cs.lookups@.len() == 0);
}

} // verus!
