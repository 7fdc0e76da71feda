//! Divisibility and greatest-common-divisor facts about the field modulus.
//!
//! The field implementation proves its multiplicative inverse correct from
//! Bezout coefficients maintained by the extended Euclidean algorithm; that
//! proof rests on `gcd(MODULUS, v) == 1` for every nonzero residue `v`,
//! which this module derives from a trial-division argument: the modulus has
//! no divisor between 2 and its square root, hence none below itself.

use vstd::arithmetic::div_mod::{
    lemma_add_mod_noop, lemma_fundamental_div_mod, lemma_mod_multiples_basic, lemma_mod_self_0,
    lemma_small_mod,
};
use vstd::arithmetic::mul::lemma_mul_is_commutative;
use vstd::prelude::*;

use crate::field::MODULUS;

verus! {

/// Greatest common divisor by the Euclidean algorithm.
pub open spec fn gcd(a: nat, b: nat) -> nat
    decreases b,
{
    if b == 0 {
        a
    } else {
        gcd(b, a % b)
    }
}

/// A divisor of two numbers divides any linear combination of them.
pub proof fn lemma_divides_combination(x: int, y: int, q: int, d: int)
    requires
        d > 0,
        x % d == 0,
        y % d == 0,
    ensures
        (x + q * y) % d == 0,
{
    lemma_mul_mod_noop_right_wrap(q, y, d);
    assert(q * (y % d) == 0);
    lemma_small_mod(0, d as nat);
    lemma_add_mod_noop(x, q * y, d);
}

proof fn lemma_mul_mod_noop_right_wrap(x: int, y: int, m: int)
    requires
        0 < m,
    ensures
        (x * (y % m)) % m == (x * y) % m,
{
    vstd::arithmetic::div_mod::lemma_mul_mod_noop_right(x, y, m);
}

/// The gcd is positive and divides both arguments, provided the first is positive.
pub proof fn lemma_gcd_divides(a: nat, b: nat)
    requires
        a > 0,
    ensures
        gcd(a, b) > 0,
        a % gcd(a, b) == 0,
        b % gcd(a, b) == 0,
    decreases b,
{
    let g = gcd(a, b);
    if b == 0 {
        lemma_mod_self_0(a as int);
        lemma_small_mod(0, a);
    } else {
        let r = a % b;
        lemma_gcd_divides(b, r);
        lemma_fundamental_div_mod(a as int, b as int);
        lemma_mul_is_commutative(b as int, a as int / b as int);
        lemma_divides_combination(r as int, b as int, a as int / b as int, g as int);
        assert(a as int == r as int + (a as int / b as int) * b as int);
    }
}

/// A positive divisor of a positive number is no larger than it.
pub proof fn lemma_divisor_le(x: nat, d: nat)
    requires
        x > 0,
        d > 0,
        x % d == 0,
    ensures
        d <= x,
{
    if d > x {
        lemma_small_mod(x, d);
    }
}

/// No integer in `[2, k]` divides `n`.
pub open spec fn no_divisor_upto(n: nat, k: nat) -> bool
    decreases k,
{
    if k < 2 {
        true
    } else {
        n % k != 0 && no_divisor_upto(n, (k - 1) as nat)
    }
}

pub proof fn lemma_no_divisor_upto_implies(n: nat, k: nat)
    requires
        no_divisor_upto(n, k),
    ensures
        forall|d: nat| 2 <= d <= k ==> #[trigger] (n % d) != 0,
    decreases k,
{
    if k >= 2 {
        lemma_no_divisor_upto_implies(n, (k - 1) as nat);
    }
}

/// The modulus has no divisor between 2 and its square root: trial division
/// over that whole interval, in four mechanical stretches.
pub proof fn lemma_modulus_no_small_divisor()
    ensures
        no_divisor_upto(MODULUS as nat, 362),
{
    lemma_modulus_trial_division_d();
}

/// The modulus has no divisor in `[2, MODULUS)` at all: a divisor above the
/// square root would pair with a cofactor below it.
pub proof fn lemma_modulus_no_divisor(d: nat)
    requires
        2 <= d < MODULUS,
    ensures
        (MODULUS as nat) % d != 0,
{
    let m = MODULUS as int;
    lemma_modulus_no_small_divisor();
    lemma_no_divisor_upto_implies(MODULUS as nat, 362);
    if (MODULUS as nat) % d == 0 && d > 362 {
        lemma_fundamental_div_mod(m, d as int);
        let e = m / d as int;
        assert(d * e == m);
        assert(e >= 2) by (nonlinear_arith)
            requires
                d * e == m,
                m == 131071,
                2 <= d < m,
        ;
        assert(e <= 362) by (nonlinear_arith)
            requires
                d * e == m,
                m == 131071,
                d >= 363,
                e >= 2,
        ;
        lemma_mod_multiples_basic(d as int, e);
        assert((MODULUS as nat) % (e as nat) != 0);
        assert(false);
    }
}

/// `s` and `t` witness Bezout's identity for `a` and `b`.
pub open spec fn is_bezout(s: int, t: int, a: nat, b: nat) -> bool {
    s * (a as int) + t * (b as int) == gcd(a, b)
}

/// The gcd is an integer combination of its arguments, by the same
/// recursion that computes it.
pub proof fn lemma_bezout(a: nat, b: nat)
    ensures
        exists|s: int, t: int| is_bezout(s, t, a, b),
    decreases b,
{
    if b == 0 {
        assert(is_bezout(1, 0, a, 0));
    } else {
        lemma_bezout(b, a % b);
        let (s1, t1) = choose|s1: int, t1: int| #[trigger] is_bezout(s1, t1, b, a % b);
        let q = a as int / b as int;
        let r = (a % b) as int;
        lemma_fundamental_div_mod(a as int, b as int);
        assert(t1 * (a as int) + (s1 - t1 * q) * (b as int) == s1 * (b as int) + t1 * r)
            by (nonlinear_arith)
            requires
                a as int == b as int * q + r,
        ;
        assert(is_bezout(t1, s1 - t1 * q, a, b));
    }
}

/// Every residue in `(0, MODULUS)` is coprime to the modulus.
pub proof fn lemma_modulus_coprime(v: nat)
    requires
        0 < v < MODULUS,
    ensures
        gcd(MODULUS as nat, v) == 1,
{
    let g = gcd(MODULUS as nat, v);
    lemma_gcd_divides(MODULUS as nat, v);
    lemma_divisor_le(v, g);
    if g >= 2 {
        lemma_modulus_no_divisor(g);
        assert(false);
    }
}

proof fn lemma_modulus_trial_division_a()
    ensures
        no_divisor_upto(MODULUS as nat, 92),
{
    assert(no_divisor_upto(MODULUS as nat, 1));
    assert(no_divisor_upto(MODULUS as nat, 2));
    assert(no_divisor_upto(MODULUS as nat, 3));
    assert(no_divisor_upto(MODULUS as nat, 4));
    assert(no_divisor_upto(MODULUS as nat, 5));
    assert(no_divisor_upto(MODULUS as nat, 6));
    assert(no_divisor_upto(MODULUS as nat, 7));
    assert(no_divisor_upto(MODULUS as nat, 8));
    assert(no_divisor_upto(MODULUS as nat, 9));
    assert(no_divisor_upto(MODULUS as nat, 10));
    assert(no_divisor_upto(MODULUS as nat, 11));
    assert(no_divisor_upto(MODULUS as nat, 12));
    assert(no_divisor_upto(MODULUS as nat, 13));
    assert(no_divisor_upto(MODULUS as nat, 14));
    assert(no_divisor_upto(MODULUS as nat, 15));
    assert(no_divisor_upto(MODULUS as nat, 16));
    assert(no_divisor_upto(MODULUS as nat, 17));
    assert(no_divisor_upto(MODULUS as nat, 18));
    assert(no_divisor_upto(MODULUS as nat, 19));
    assert(no_divisor_upto(MODULUS as nat, 20));
    assert(no_divisor_upto(MODULUS as nat, 21));
    assert(no_divisor_upto(MODULUS as nat, 22));
    assert(no_divisor_upto(MODULUS as nat, 23));
    assert(no_divisor_upto(MODULUS as nat, 24));
    assert(no_divisor_upto(MODULUS as nat, 25));
    assert(no_divisor_upto(MODULUS as nat, 26));
    assert(no_divisor_upto(MODULUS as nat, 27));
    assert(no_divisor_upto(MODULUS as nat, 28));
    assert(no_divisor_upto(MODULUS as nat, 29));
    assert(no_divisor_upto(MODULUS as nat, 30));
    assert(no_divisor_upto(MODULUS as nat, 31));
    assert(no_divisor_upto(MODULUS as nat, 32));
    assert(no_divisor_upto(MODULUS as nat, 33));
    assert(no_divisor_upto(MODULUS as nat, 34));
    assert(no_divisor_upto(MODULUS as nat, 35));
    assert(no_divisor_upto(MODULUS as nat, 36));
    assert(no_divisor_upto(MODULUS as nat, 37));
    assert(no_divisor_upto(MODULUS as nat, 38));
    assert(no_divisor_upto(MODULUS as nat, 39));
    assert(no_divisor_upto(MODULUS as nat, 40));
    assert(no_divisor_upto(MODULUS as nat, 41));
    assert(no_divisor_upto(MODULUS as nat, 42));
    assert(no_divisor_upto(MODULUS as nat, 43));
    assert(no_divisor_upto(MODULUS as nat, 44));
    assert(no_divisor_upto(MODULUS as nat, 45));
    assert(no_divisor_upto(MODULUS as nat, 46));
    assert(no_divisor_upto(MODULUS as nat, 47));
    assert(no_divisor_upto(MODULUS as nat, 48));
    assert(no_divisor_upto(MODULUS as nat, 49));
    assert(no_divisor_upto(MODULUS as nat, 50));
    assert(no_divisor_upto(MODULUS as nat, 51));
    assert(no_divisor_upto(MODULUS as nat, 52));
    assert(no_divisor_upto(MODULUS as nat, 53));
    assert(no_divisor_upto(MODULUS as nat, 54));
    assert(no_divisor_upto(MODULUS as nat, 55));
    assert(no_divisor_upto(MODULUS as nat, 56));
    assert(no_divisor_upto(MODULUS as nat, 57));
    assert(no_divisor_upto(MODULUS as nat, 58));
    assert(no_divisor_upto(MODULUS as nat, 59));
    assert(no_divisor_upto(MODULUS as nat, 60));
    assert(no_divisor_upto(MODULUS as nat, 61));
    assert(no_divisor_upto(MODULUS as nat, 62));
    assert(no_divisor_upto(MODULUS as nat, 63));
    assert(no_divisor_upto(MODULUS as nat, 64));
    assert(no_divisor_upto(MODULUS as nat, 65));
    assert(no_divisor_upto(MODULUS as nat, 66));
    assert(no_divisor_upto(MODULUS as nat, 67));
    assert(no_divisor_upto(MODULUS as nat, 68));
    assert(no_divisor_upto(MODULUS as nat, 69));
    assert(no_divisor_upto(MODULUS as nat, 70));
    assert(no_divisor_upto(MODULUS as nat, 71));
    assert(no_divisor_upto(MODULUS as nat, 72));
    assert(no_divisor_upto(MODULUS as nat, 73));
    assert(no_divisor_upto(MODULUS as nat, 74));
    assert(no_divisor_upto(MODULUS as nat, 75));
    assert(no_divisor_upto(MODULUS as nat, 76));
    assert(no_divisor_upto(MODULUS as nat, 77));
    assert(no_divisor_upto(MODULUS as nat, 78));
    assert(no_divisor_upto(MODULUS as nat, 79));
    assert(no_divisor_upto(MODULUS as nat, 80));
    assert(no_divisor_upto(MODULUS as nat, 81));
    assert(no_divisor_upto(MODULUS as nat, 82));
    assert(no_divisor_upto(MODULUS as nat, 83));
    assert(no_divisor_upto(MODULUS as nat, 84));
    assert(no_divisor_upto(MODULUS as nat, 85));
    assert(no_divisor_upto(MODULUS as nat, 86));
    assert(no_divisor_upto(MODULUS as nat, 87));
    assert(no_divisor_upto(MODULUS as nat, 88));
    assert(no_divisor_upto(MODULUS as nat, 89));
    assert(no_divisor_upto(MODULUS as nat, 90));
    assert(no_divisor_upto(MODULUS as nat, 91));
    assert(no_divisor_upto(MODULUS as nat, 92));
}

proof fn lemma_modulus_trial_division_b()
    ensures
        no_divisor_upto(MODULUS as nat, 182),
{
    lemma_modulus_trial_division_a();
    assert(no_divisor_upto(MODULUS as nat, 93));
    assert(no_divisor_upto(MODULUS as nat, 94));
    assert(no_divisor_upto(MODULUS as nat, 95));
    assert(no_divisor_upto(MODULUS as nat, 96));
    assert(no_divisor_upto(MODULUS as nat, 97));
    assert(no_divisor_upto(MODULUS as nat, 98));
    assert(no_divisor_upto(MODULUS as nat, 99));
    assert(no_divisor_upto(MODULUS as nat, 100));
    assert(no_divisor_upto(MODULUS as nat, 101));
    assert(no_divisor_upto(MODULUS as nat, 102));
    assert(no_divisor_upto(MODULUS as nat, 103));
    assert(no_divisor_upto(MODULUS as nat, 104));
    assert(no_divisor_upto(MODULUS as nat, 105));
    assert(no_divisor_upto(MODULUS as nat, 106));
    assert(no_divisor_upto(MODULUS as nat, 107));
    assert(no_divisor_upto(MODULUS as nat, 108));
    assert(no_divisor_upto(MODULUS as nat, 109));
    assert(no_divisor_upto(MODULUS as nat, 110));
    assert(no_divisor_upto(MODULUS as nat, 111));
    assert(no_divisor_upto(MODULUS as nat, 112));
    assert(no_divisor_upto(MODULUS as nat, 113));
    assert(no_divisor_upto(MODULUS as nat, 114));
    assert(no_divisor_upto(MODULUS as nat, 115));
    assert(no_divisor_upto(MODULUS as nat, 116));
    assert(no_divisor_upto(MODULUS as nat, 117));
    assert(no_divisor_upto(MODULUS as nat, 118));
    assert(no_divisor_upto(MODULUS as nat, 119));
    assert(no_divisor_upto(MODULUS as nat, 120));
    assert(no_divisor_upto(MODULUS as nat, 121));
    assert(no_divisor_upto(MODULUS as nat, 122));
    assert(no_divisor_upto(MODULUS as nat, 123));
    assert(no_divisor_upto(MODULUS as nat, 124));
    assert(no_divisor_upto(MODULUS as nat, 125));
    assert(no_divisor_upto(MODULUS as nat, 126));
    assert(no_divisor_upto(MODULUS as nat, 127));
    assert(no_divisor_upto(MODULUS as nat, 128));
    assert(no_divisor_upto(MODULUS as nat, 129));
    assert(no_divisor_upto(MODULUS as nat, 130));
    assert(no_divisor_upto(MODULUS as nat, 131));
    assert(no_divisor_upto(MODULUS as nat, 132));
    assert(no_divisor_upto(MODULUS as nat, 133));
    assert(no_divisor_upto(MODULUS as nat, 134));
    assert(no_divisor_upto(MODULUS as nat, 135));
    assert(no_divisor_upto(MODULUS as nat, 136));
    assert(no_divisor_upto(MODULUS as nat, 137));
    assert(no_divisor_upto(MODULUS as nat, 138));
    assert(no_divisor_upto(MODULUS as nat, 139));
    assert(no_divisor_upto(MODULUS as nat, 140));
    assert(no_divisor_upto(MODULUS as nat, 141));
    assert(no_divisor_upto(MODULUS as nat, 142));
    assert(no_divisor_upto(MODULUS as nat, 143));
    assert(no_divisor_upto(MODULUS as nat, 144));
    assert(no_divisor_upto(MODULUS as nat, 145));
    assert(no_divisor_upto(MODULUS as nat, 146));
    assert(no_divisor_upto(MODULUS as nat, 147));
    assert(no_divisor_upto(MODULUS as nat, 148));
    assert(no_divisor_upto(MODULUS as nat, 149));
    assert(no_divisor_upto(MODULUS as nat, 150));
    assert(no_divisor_upto(MODULUS as nat, 151));
    assert(no_divisor_upto(MODULUS as nat, 152));
    assert(no_divisor_upto(MODULUS as nat, 153));
    assert(no_divisor_upto(MODULUS as nat, 154));
    assert(no_divisor_upto(MODULUS as nat, 155));
    assert(no_divisor_upto(MODULUS as nat, 156));
    assert(no_divisor_upto(MODULUS as nat, 157));
    assert(no_divisor_upto(MODULUS as nat, 158));
    assert(no_divisor_upto(MODULUS as nat, 159));
    assert(no_divisor_upto(MODULUS as nat, 160));
    assert(no_divisor_upto(MODULUS as nat, 161));
    assert(no_divisor_upto(MODULUS as nat, 162));
    assert(no_divisor_upto(MODULUS as nat, 163));
    assert(no_divisor_upto(MODULUS as nat, 164));
    assert(no_divisor_upto(MODULUS as nat, 165));
    assert(no_divisor_upto(MODULUS as nat, 166));
    assert(no_divisor_upto(MODULUS as nat, 167));
    assert(no_divisor_upto(MODULUS as nat, 168));
    assert(no_divisor_upto(MODULUS as nat, 169));
    assert(no_divisor_upto(MODULUS as nat, 170));
    assert(no_divisor_upto(MODULUS as nat, 171));
    assert(no_divisor_upto(MODULUS as nat, 172));
    assert(no_divisor_upto(MODULUS as nat, 173));
    assert(no_divisor_upto(MODULUS as nat, 174));
    assert(no_divisor_upto(MODULUS as nat, 175));
    assert(no_divisor_upto(MODULUS as nat, 176));
    assert(no_divisor_upto(MODULUS as nat, 177));
    assert(no_divisor_upto(MODULUS as nat, 178));
    assert(no_divisor_upto(MODULUS as nat, 179));
    assert(no_divisor_upto(MODULUS as nat, 180));
    assert(no_divisor_upto(MODULUS as nat, 181));
    assert(no_divisor_upto(MODULUS as nat, 182));
}

proof fn lemma_modulus_trial_division_c()
    ensures
        no_divisor_upto(MODULUS as nat, 272),
{
    lemma_modulus_trial_division_b();
    assert(no_divisor_upto(MODULUS as nat, 183));
    assert(no_divisor_upto(MODULUS as nat, 184));
    assert(no_divisor_upto(MODULUS as nat, 185));
    assert(no_divisor_upto(MODULUS as nat, 186));
    assert(no_divisor_upto(MODULUS as nat, 187));
    assert(no_divisor_upto(MODULUS as nat, 188));
    assert(no_divisor_upto(MODULUS as nat, 189));
    assert(no_divisor_upto(MODULUS as nat, 190));
    assert(no_divisor_upto(MODULUS as nat, 191));
    assert(no_divisor_upto(MODULUS as nat, 192));
    assert(no_divisor_upto(MODULUS as nat, 193));
    assert(no_divisor_upto(MODULUS as nat, 194));
    assert(no_divisor_upto(MODULUS as nat, 195));
    assert(no_divisor_upto(MODULUS as nat, 196));
    assert(no_divisor_upto(MODULUS as nat, 197));
    assert(no_divisor_upto(MODULUS as nat, 198));
    assert(no_divisor_upto(MODULUS as nat, 199));
    assert(no_divisor_upto(MODULUS as nat, 200));
    assert(no_divisor_upto(MODULUS as nat, 201));
    assert(no_divisor_upto(MODULUS as nat, 202));
    assert(no_divisor_upto(MODULUS as nat, 203));
    assert(no_divisor_upto(MODULUS as nat, 204));
    assert(no_divisor_upto(MODULUS as nat, 205));
    assert(no_divisor_upto(MODULUS as nat, 206));
    assert(no_divisor_upto(MODULUS as nat, 207));
    assert(no_divisor_upto(MODULUS as nat, 208));
    assert(no_divisor_upto(MODULUS as nat, 209));
    assert(no_divisor_upto(MODULUS as nat, 210));
    assert(no_divisor_upto(MODULUS as nat, 211));
    assert(no_divisor_upto(MODULUS as nat, 212));
    assert(no_divisor_upto(MODULUS as nat, 213));
    assert(no_divisor_upto(MODULUS as nat, 214));
    assert(no_divisor_upto(MODULUS as nat, 215));
    assert(no_divisor_upto(MODULUS as nat, 216));
    assert(no_divisor_upto(MODULUS as nat, 217));
    assert(no_divisor_upto(MODULUS as nat, 218));
    assert(no_divisor_upto(MODULUS as nat, 219));
    assert(no_divisor_upto(MODULUS as nat, 220));
    assert(no_divisor_upto(MODULUS as nat, 221));
    assert(no_divisor_upto(MODULUS as nat, 222));
    assert(no_divisor_upto(MODULUS as nat, 223));
    assert(no_divisor_upto(MODULUS as nat, 224));
    assert(no_divisor_upto(MODULUS as nat, 225));
    assert(no_divisor_upto(MODULUS as nat, 226));
    assert(no_divisor_upto(MODULUS as nat, 227));
    assert(no_divisor_upto(MODULUS as nat, 228));
    assert(no_divisor_upto(MODULUS as nat, 229));
    assert(no_divisor_upto(MODULUS as nat, 230));
    assert(no_divisor_upto(MODULUS as nat, 231));
    assert(no_divisor_upto(MODULUS as nat, 232));
    assert(no_divisor_upto(MODULUS as nat, 233));
    assert(no_divisor_upto(MODULUS as nat, 234));
    assert(no_divisor_upto(MODULUS as nat, 235));
    assert(no_divisor_upto(MODULUS as nat, 236));
    assert(no_divisor_upto(MODULUS as nat, 237));
    assert(no_divisor_upto(MODULUS as nat, 238));
    assert(no_divisor_upto(MODULUS as nat, 239));
    assert(no_divisor_upto(MODULUS as nat, 240));
    assert(no_divisor_upto(MODULUS as nat, 241));
    assert(no_divisor_upto(MODULUS as nat, 242));
    assert(no_divisor_upto(MODULUS as nat, 243));
    assert(no_divisor_upto(MODULUS as nat, 244));
    assert(no_divisor_upto(MODULUS as nat, 245));
    assert(no_divisor_upto(MODULUS as nat, 246));
    assert(no_divisor_upto(MODULUS as nat, 247));
    assert(no_divisor_upto(MODULUS as nat, 248));
    assert(no_divisor_upto(MODULUS as nat, 249));
    assert(no_divisor_upto(MODULUS as nat, 250));
    assert(no_divisor_upto(MODULUS as nat, 251));
    assert(no_divisor_upto(MODULUS as nat, 252));
    assert(no_divisor_upto(MODULUS as nat, 253));
    assert(no_divisor_upto(MODULUS as nat, 254));
    assert(no_divisor_upto(MODULUS as nat, 255));
    assert(no_divisor_upto(MODULUS as nat, 256));
    assert(no_divisor_upto(MODULUS as nat, 257));
    assert(no_divisor_upto(MODULUS as nat, 258));
    assert(no_divisor_upto(MODULUS as nat, 259));
    assert(no_divisor_upto(MODULUS as nat, 260));
    assert(no_divisor_upto(MODULUS as nat, 261));
    assert(no_divisor_upto(MODULUS as nat, 262));
    assert(no_divisor_upto(MODULUS as nat, 263));
    assert(no_divisor_upto(MODULUS as nat, 264));
    assert(no_divisor_upto(MODULUS as nat, 265));
    assert(no_divisor_upto(MODULUS as nat, 266));
    assert(no_divisor_upto(MODULUS as nat, 267));
    assert(no_divisor_upto(MODULUS as nat, 268));
    assert(no_divisor_upto(MODULUS as nat, 269));
    assert(no_divisor_upto(MODULUS as nat, 270));
    assert(no_divisor_upto(MODULUS as nat, 271));
    assert(no_divisor_upto(MODULUS as nat, 272));
}

proof fn lemma_modulus_trial_division_d()
    ensures
        no_divisor_upto(MODULUS as nat, 362),
{
    lemma_modulus_trial_division_c();
    assert(no_divisor_upto(MODULUS as nat, 273));
    assert(no_divisor_upto(MODULUS as nat, 274));
    assert(no_divisor_upto(MODULUS as nat, 275));
    assert(no_divisor_upto(MODULUS as nat, 276));
    assert(no_divisor_upto(MODULUS as nat, 277));
    assert(no_divisor_upto(MODULUS as nat, 278));
    assert(no_divisor_upto(MODULUS as nat, 279));
    assert(no_divisor_upto(MODULUS as nat, 280));
    assert(no_divisor_upto(MODULUS as nat, 281));
    assert(no_divisor_upto(MODULUS as nat, 282));
    assert(no_divisor_upto(MODULUS as nat, 283));
    assert(no_divisor_upto(MODULUS as nat, 284));
    assert(no_divisor_upto(MODULUS as nat, 285));
    assert(no_divisor_upto(MODULUS as nat, 286));
    assert(no_divisor_upto(MODULUS as nat, 287));
    assert(no_divisor_upto(MODULUS as nat, 288));
    assert(no_divisor_upto(MODULUS as nat, 289));
    assert(no_divisor_upto(MODULUS as nat, 290));
    assert(no_divisor_upto(MODULUS as nat, 291));
    assert(no_divisor_upto(MODULUS as nat, 292));
    assert(no_divisor_upto(MODULUS as nat, 293));
    assert(no_divisor_upto(MODULUS as nat, 294));
    assert(no_divisor_upto(MODULUS as nat, 295));
    assert(no_divisor_upto(MODULUS as nat, 296));
    assert(no_divisor_upto(MODULUS as nat, 297));
    assert(no_divisor_upto(MODULUS as nat, 298));
    assert(no_divisor_upto(MODULUS as nat, 299));
    assert(no_divisor_upto(MODULUS as nat, 300));
    assert(no_divisor_upto(MODULUS as nat, 301));
    assert(no_divisor_upto(MODULUS as nat, 302));
    assert(no_divisor_upto(MODULUS as nat, 303));
    assert(no_divisor_upto(MODULUS as nat, 304));
    assert(no_divisor_upto(MODULUS as nat, 305));
    assert(no_divisor_upto(MODULUS as nat, 306));
    assert(no_divisor_upto(MODULUS as nat, 307));
    assert(no_divisor_upto(MODULUS as nat, 308));
    assert(no_divisor_upto(MODULUS as nat, 309));
    assert(no_divisor_upto(MODULUS as nat, 310));
    assert(no_divisor_upto(MODULUS as nat, 311));
    assert(no_divisor_upto(MODULUS as nat, 312));
    assert(no_divisor_upto(MODULUS as nat, 313));
    assert(no_divisor_upto(MODULUS as nat, 314));
    assert(no_divisor_upto(MODULUS as nat, 315));
    assert(no_divisor_upto(MODULUS as nat, 316));
    assert(no_divisor_upto(MODULUS as nat, 317));
    assert(no_divisor_upto(MODULUS as nat, 318));
    assert(no_divisor_upto(MODULUS as nat, 319));
    assert(no_divisor_upto(MODULUS as nat, 320));
    assert(no_divisor_upto(MODULUS as nat, 321));
    assert(no_divisor_upto(MODULUS as nat, 322));
    assert(no_divisor_upto(MODULUS as nat, 323));
    assert(no_divisor_upto(MODULUS as nat, 324));
    assert(no_divisor_upto(MODULUS as nat, 325));
    assert(no_divisor_upto(MODULUS as nat, 326));
    assert(no_divisor_upto(MODULUS as nat, 327));
    assert(no_divisor_upto(MODULUS as nat, 328));
    assert(no_divisor_upto(MODULUS as nat, 329));
    assert(no_divisor_upto(MODULUS as nat, 330));
    assert(no_divisor_upto(MODULUS as nat, 331));
    assert(no_divisor_upto(MODULUS as nat, 332));
    assert(no_divisor_upto(MODULUS as nat, 333));
    assert(no_divisor_upto(MODULUS as nat, 334));
    assert(no_divisor_upto(MODULUS as nat, 335));
    assert(no_divisor_upto(MODULUS as nat, 336));
    assert(no_divisor_upto(MODULUS as nat, 337));
    assert(no_divisor_upto(MODULUS as nat, 338));
    assert(no_divisor_upto(MODULUS as nat, 339));
    assert(no_divisor_upto(MODULUS as nat, 340));
    assert(no_divisor_upto(MODULUS as nat, 341));
    assert(no_divisor_upto(MODULUS as nat, 342));
    assert(no_divisor_upto(MODULUS as nat, 343));
    assert(no_divisor_upto(MODULUS as nat, 344));
    assert(no_divisor_upto(MODULUS as nat, 345));
    assert(no_divisor_upto(MODULUS as nat, 346));
    assert(no_divisor_upto(MODULUS as nat, 347));
    assert(no_divisor_upto(MODULUS as nat, 348));
    assert(no_divisor_upto(MODULUS as nat, 349));
    assert(no_divisor_upto(MODULUS as nat, 350));
    assert(no_divisor_upto(MODULUS as nat, 351));
    assert(no_divisor_upto(MODULUS as nat, 352));
    assert(no_divisor_upto(MODULUS as nat, 353));
    assert(no_divisor_upto(MODULUS as nat, 354));
    assert(no_divisor_upto(MODULUS as nat, 355));
    assert(no_divisor_upto(MODULUS as nat, 356));
    assert(no_divisor_upto(MODULUS as nat, 357));
    assert(no_divisor_upto(MODULUS as nat, 358));
    assert(no_divisor_upto(MODULUS as nat, 359));
    assert(no_divisor_upto(MODULUS as nat, 360));
    assert(no_divisor_upto(MODULUS as nat, 361));
    assert(no_divisor_upto(MODULUS as nat, 362));
}

} // verus!
