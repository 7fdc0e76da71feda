//! A prime-field element type.
//!
//! Every gadget in this crate works over the fixed prime field of order
//! `MODULUS`, the Mersenne prime `2^17 - 1`.  The modulus is large enough
//! for every range the gadgets check (it exceeds `2^16`, the widest
//! decomposition the tests exercise), yet small enough that products of two
//! reduced values fit comfortably in a `u64`.

use vstd::arithmetic::div_mod::{
    lemma_add_mod_noop, lemma_fundamental_div_mod, lemma_mod_self_0, lemma_mod_twice,
    lemma_mul_mod_noop_left, lemma_mul_mod_noop_right, lemma_small_mod, lemma_sub_mod_noop,
};
use vstd::arithmetic::mul::{lemma_mul_is_commutative, lemma_mul_is_distributive_sub};
use vstd::prelude::*;

use crate::arith::{gcd, lemma_modulus_coprime};

verus! {

/// The order of the field: the Mersenne prime `2^17 - 1`.
pub const MODULUS: u64 = 131071;

/// An element of the prime field, held as its canonical residue.
///
/// The representation invariant `valid()` — the residue lies below the
/// modulus — is required and re-established by every operation.
#[derive(Clone, Copy, Debug, PartialEq, Eq, Structural)]
pub struct Fp {
    pub v: u64,
}

/// Addition of canonical residues.
pub open spec fn fadd(a: int, b: int) -> int {
    (a + b) % (MODULUS as int)
}

/// Subtraction of canonical residues (Euclidean remainder keeps it in range).
pub open spec fn fsub(a: int, b: int) -> int {
    (a - b) % (MODULUS as int)
}

/// Multiplication of canonical residues.
pub open spec fn fmul(a: int, b: int) -> int {
    (a * b) % (MODULUS as int)
}

/// Additive inverse of a canonical residue.
pub open spec fn fneg(a: int) -> int {
    (0 - a) % (MODULUS as int)
}

impl Fp {
    /// The representation invariant: the residue is canonical.
    pub open spec fn valid(self) -> bool {
        self.v < MODULUS
    }

    /// The residue as a mathematical integer.
    pub open spec fn as_int(self) -> int {
        self.v as int
    }

    /// The additive identity.
    pub fn zero() -> (r: Fp)
        ensures
            r.valid(),
            r.v == 0,
    {
        Fp { v: 0 }
    }

    /// The multiplicative identity.
    pub fn one() -> (r: Fp)
        ensures
            r.valid(),
            r.v == 1,
    {
        Fp { v: 1 }
    }

    /// The canonical residue of an arbitrary integer.
    pub fn from_u64(x: u64) -> (r: Fp)
        ensures
            r.valid(),
            r.v == x % MODULUS,
            x < MODULUS ==> r.v == x,
    {
        Fp { v: x % MODULUS }
    }

    /// Field addition.
    pub fn add(self, rhs: Fp) -> (r: Fp)
        requires
            self.valid(),
            rhs.valid(),
        ensures
            r.valid(),
            r.as_int() == fadd(self.as_int(), rhs.as_int()),
    {
        Fp { v: (self.v + rhs.v) % MODULUS }
    }

    /// Field subtraction.
    pub fn sub(self, rhs: Fp) -> (r: Fp)
        requires
            self.valid(),
            rhs.valid(),
        ensures
            r.valid(),
            r.as_int() == fsub(self.as_int(), rhs.as_int()),
    {
        let r = (self.v + MODULUS - rhs.v) % MODULUS;
        proof {
            lemma_shift_mod(self.as_int() - rhs.as_int());
        }
        Fp { v: r }
    }

    /// Field multiplication: products of reduced values stay below `2^34`.
    pub fn mul(self, rhs: Fp) -> (r: Fp)
        requires
            self.valid(),
            rhs.valid(),
        ensures
            r.valid(),
            r.as_int() == fmul(self.as_int(), rhs.as_int()),
    {
        proof {
            assert(self.v * rhs.v < 131071 * 131071) by (nonlinear_arith)
                requires
                    self.v < 131071,
                    rhs.v < 131071,
            ;
        }
        Fp { v: (self.v * rhs.v) % MODULUS }
    }

    /// Field negation.
    pub fn neg(self) -> (r: Fp)
        requires
            self.valid(),
        ensures
            r.valid(),
            r.as_int() == fneg(self.as_int()),
    {
        let r = (MODULUS - self.v) % MODULUS;
        proof {
            lemma_shift_mod(0 - self.as_int());
        }
        Fp { v: r }
    }

    /// Whether the element is the additive identity.
    pub fn is_zero(self) -> (r: bool)
        ensures
            r == (self.v == 0),
    {
        self.v == 0
    }

    /// Multiplicative inverse, with the conventional answer `0` for `0`.
    ///
    /// The extended Euclidean algorithm maintains a Bezout coefficient for
    /// each remainder, reduced modulo the field order; when the remainder
    /// reaches the gcd — which is 1, the modulus being prime — that
    /// coefficient is the inverse.
    pub fn invert(self) -> (r: Fp)
        requires
            self.valid(),
        ensures
            r.valid(),
            self.v == 0 ==> r.v == 0,
            self.v != 0 ==> fmul(self.as_int(), r.as_int()) == 1,
    {
        if self.v == 0 {
            return Fp { v: 0 };
        }
        let v = self.v;
        let mut r0: u64 = MODULUS;
        let mut r1: u64 = v;
        let mut t0: u64 = 0;
        let mut t1: u64 = 1;
        proof {
            lemma_mod_self_0(MODULUS as int);
            lemma_small_mod(0, MODULUS as nat);
            lemma_small_mod(v as nat, MODULUS as nat);
        }
        while r1 != 0
            invariant
                0 < v < MODULUS,
                0 < r0 <= MODULUS,
                r1 < r0,
                t0 < MODULUS,
                t1 < MODULUS,
                (t0 * v) % (MODULUS as int) == (r0 as int) % (MODULUS as int),
                (t1 * v) % (MODULUS as int) == r1 as int,
                gcd(r0 as nat, r1 as nat) == gcd(MODULUS as nat, v as nat),
            decreases r1,
        {
            let q = r0 / r1;
            proof {
                assert(q <= r0 && q * t1 <= 131071 * 131071) by (nonlinear_arith)
                    requires
                        q == r0 as int / r1 as int,
                        1 <= r1,
                        r0 <= 131071,
                        t1 < 131071,
                ;
            }
            let rem = r0 % r1;
            let qt = (q * t1) % MODULUS;
            let t2 = (t0 + MODULUS - qt) % MODULUS;
            proof {
                lemma_fundamental_div_mod(r0 as int, r1 as int);
                lemma_mul_is_commutative(r1 as int, q as int);
                assert(rem as int == r0 - q * r1);
                lemma_small_mod(rem as nat, MODULUS as nat);
                lemma_small_mod(r1 as nat, MODULUS as nat);
                lemma_bezout_step(
                    v as int,
                    t0 as int,
                    t1 as int,
                    r0 as int,
                    r1 as int,
                    q as int,
                );
                assert(gcd(r0 as nat, r1 as nat) == gcd(r1 as nat, rem as nat));
            }
            r0 = r1;
            r1 = rem;
            t0 = t1;
            t1 = t2;
        }
        proof {
            lemma_modulus_coprime(v as nat);
            assert(gcd(r0 as nat, 0) == r0 as nat);
            lemma_small_mod(r0 as nat, MODULUS as nat);
            lemma_mul_is_commutative(t0 as int, v as int);
        }
        Fp { v: t0 }
    }
}

/// A power of two below the modulus, as a machine word.
pub fn pow2_u64(e: u64) -> (r: u64)
    requires
        vstd::arithmetic::power2::pow2(e as nat) < MODULUS,
    ensures
        r as nat == vstd::arithmetic::power2::pow2(e as nat),
        0 < r < MODULUS,
{
    proof {
        vstd::arithmetic::power2::lemma2_to64();
    }
    let mut r: u64 = 1;
    let mut i: u64 = 0;
    while i < e
        invariant
            i <= e,
            r as nat == vstd::arithmetic::power2::pow2(i as nat),
            vstd::arithmetic::power2::pow2(e as nat) < MODULUS,
        decreases e - i,
    {
        proof {
            vstd::arithmetic::power2::lemma_pow2_unfold((i + 1) as nat);
            if i + 1 < e {
                vstd::arithmetic::power2::lemma_pow2_strictly_increases((i + 1) as nat, e as nat);
            }
        }
        r = r * 2;
        i = i + 1;
    }
    proof {
        vstd::arithmetic::power2::lemma_pow2_pos(e as nat);
    }
    r
}

/// The additive identity annihilates any product.
pub proof fn lemma_fmul_zero(x: int)
    ensures
        fmul(0, x) == 0,
        fmul(x, 0) == 0,
{
    lemma_small_mod(0, MODULUS as nat);
}

/// The field has no zero divisors: a product with a nonzero residue
/// vanishes only if the other factor does.  From Bezout's identity for
/// the residue and the prime modulus.
pub proof fn lemma_nonzero_cancel(v: nat, x: int)
    requires
        0 < v < MODULUS,
        0 <= x < MODULUS,
        fmul(v as int, x) == 0,
    ensures
        x == 0,
{
    let m = MODULUS as int;
    crate::arith::lemma_modulus_coprime(v);
    crate::arith::lemma_bezout(MODULUS as nat, v);
    let (s, t) = choose|s: int, t: int| #[trigger] crate::arith::is_bezout(s, t, MODULUS as nat, v);
    assert(s * m + t * (v as int) == 1);
    assert(x == (x * s) * m + t * ((v as int) * x)) by (nonlinear_arith)
        requires
            s * m + t * (v as int) == 1,
    ;
    lemma_mul_mod_noop_right(t, (v as int) * x, m);
    lemma_small_mod(0, MODULUS as nat);
    assert((t * ((v as int) * x)) % m == 0);
    vstd::arithmetic::div_mod::lemma_mod_multiples_basic(x * s, m);
    lemma_add_mod_noop((x * s) * m, t * ((v as int) * x), m);
    assert(x % m == 0);
    lemma_small_mod(x as nat, MODULUS as nat);
}

/// Adding the additive inverse of a smaller residue is subtraction.
pub proof fn lemma_fadd_fneg(a: int, b: int)
    requires
        0 <= b <= a < MODULUS,
    ensures
        fadd(a, fneg(b)) == a - b,
{
    let m = MODULUS as int;
    if b == 0 {
        lemma_small_mod(0, MODULUS as nat);
        lemma_small_mod(a as nat, MODULUS as nat);
    } else {
        lemma_shift_mod(0 - b);
        lemma_small_mod((m - b) as nat, MODULUS as nat);
        lemma_shift_mod(a - b);
        lemma_small_mod((a - b) as nat, MODULUS as nat);
    }
}

/// A residue and its additive inverse sum to the additive identity.
pub proof fn lemma_add_neg_zero(x: int)
    requires
        0 <= x < MODULUS,
    ensures
        fadd(x, fneg(x)) == 0,
{
    let m = MODULUS as int;
    if x == 0 {
        lemma_small_mod(0, MODULUS as nat);
    } else {
        lemma_shift_mod(0 - x);
        lemma_small_mod((m - x) as nat, MODULUS as nat);
        lemma_mod_self_0(m);
    }
}

/// Adding one full modulus before reducing does not change a remainder.
pub proof fn lemma_shift_mod(x: int)
    ensures
        (x + MODULUS) % (MODULUS as int) == x % (MODULUS as int),
{
    let m = MODULUS as int;
    lemma_mod_self_0(m);
    lemma_add_mod_noop(x, m, m);
    lemma_mod_twice(x, m);
}

/// One step of the extended Euclidean algorithm keeps the Bezout
/// congruences: if `t0·v ≡ r0` and `t1·v ≡ r1`, then the reduced
/// coefficient `t0 - q·t1` pairs with the next remainder `r0 - q·r1`.
proof fn lemma_bezout_step(v: int, t0: int, t1: int, r0: int, r1: int, q: int)
    requires
        0 <= q,
        (t0 * v) % (MODULUS as int) == (r0 as int) % (MODULUS as int),
        (t1 * v) % (MODULUS as int) == r1 % (MODULUS as int),
    ensures
        (((t0 + MODULUS - (q * t1) % (MODULUS as int)) % (MODULUS as int)) * v) % (MODULUS as int)
            == (r0 - q * r1) % (MODULUS as int),
{
    let m = MODULUS as int;
    let qt = (q * t1) % m;
    let t2 = (t0 + m - qt) % m;

    // t2 ≡ t0 - q·t1 (mod m)
    assert(t2 % m == (t0 - q * t1) % m) by {
        lemma_mod_twice(t0 + m - qt, m);
        lemma_shift_mod(t0 - qt);
        lemma_sub_mod_noop(t0, qt, m);
        lemma_mod_twice(q * t1, m);
        lemma_sub_mod_noop(t0, q * t1, m);
    }

    // (t0 - q·t1)·v = t0·v - q·(t1·v)
    assert((t0 - q * t1) * v == t0 * v - q * (t1 * v)) by {
        lemma_mul_is_commutative(t0 - q * t1, v);
        lemma_mul_is_distributive_sub(v, t0, q * t1);
        lemma_mul_is_commutative(t0, v);
        lemma_mul_is_commutative(q * t1, v);
        vstd::arithmetic::mul::lemma_mul_is_associative(q, t1, v);
    }

    // reduce both sides modulo m
    assert((t2 * v) % m == ((t0 - q * t1) * v) % m) by {
        lemma_mul_mod_noop_left(t0 - q * t1, v, m);
        lemma_mul_mod_noop_left(t2, v, m);
        lemma_mod_twice(t0 - q * t1, m);
    }

    assert((t0 * v - q * (t1 * v)) % m == (r0 - q * r1) % m) by {
        lemma_sub_mod_noop(t0 * v, q * (t1 * v), m);
        lemma_mul_mod_noop_right(q, t1 * v, m);
        lemma_mul_mod_noop_right(q, r1, m);
        lemma_sub_mod_noop(r0, q * r1, m);
    }
}

} // verus!
