use zk_gadgets::field::{Fp, MODULUS};

#[test]
fn modulus_is_the_expected_mersenne_prime() {
    assert_eq!(MODULUS, 131071);
    assert_eq!(MODULUS, (1u64 << 17) - 1);
}

#[test]
fn addition_wraps_at_the_modulus() {
    let a = Fp::from_u64(MODULUS - 1);
    let b = Fp::from_u64(2);
    assert_eq!(a.add(b).v, 1);
    assert_eq!(Fp::from_u64(3).add(Fp::from_u64(5)).v, 8);
}

#[test]
fn subtraction_wraps_below_zero() {
    let a = Fp::from_u64(0);
    let b = Fp::from_u64(1);
    assert_eq!(a.sub(b).v, MODULUS - 1);
    assert_eq!(Fp::from_u64(9).sub(Fp::from_u64(4)).v, 5);
}

#[test]
fn multiplication_reduces() {
    assert_eq!(Fp::from_u64(7).mul(Fp::from_u64(11)).v, 77);
    let big = Fp::from_u64(MODULUS - 1);
    // (p − 1)² ≡ 1 (mod p)
    assert_eq!(big.mul(big).v, 1);
}

#[test]
fn negation_is_additive_inverse() {
    let a = Fp::from_u64(123);
    assert_eq!(a.add(a.neg()).v, 0);
    assert_eq!(Fp::from_u64(0).neg().v, 0);
}

#[test]
fn inverse_of_zero_is_zero_by_convention() {
    assert_eq!(Fp::from_u64(0).invert().v, 0);
}

#[test]
fn inverse_multiplies_to_one() {
    for x in [1u64, 2, 3, 256, 300, 65535, MODULUS - 1] {
        let v = Fp::from_u64(x);
        let inv = v.invert();
        assert_eq!(v.mul(inv).v, 1, "inverse failed for {x}");
    }
}

#[test]
fn from_u64_reduces_large_inputs() {
    assert_eq!(Fp::from_u64(MODULUS).v, 0);
    assert_eq!(Fp::from_u64(MODULUS + 5).v, 5);
}
