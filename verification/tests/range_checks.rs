use zk_gadgets::check::{check, CheckFailure};
use zk_gadgets::cs::ConstraintSystem;
use zk_gadgets::field::Fp;
use zk_gadgets::range_check::eg1_simple;
use zk_gadgets::range_check::eg3_numbits;
use zk_gadgets::witness::Assignment;

fn log2(x: u64) -> u64 {
    let mut x = x;
    let mut result = 0;

    while x > 1 {
        x >>= 1;
        result += 1;
    }

    result
}

fn run_simple(value: u64) -> Result<(), CheckFailure> {
    let mut meta = ConstraintSystem::new();
    let advice = meta.advice_column();
    let cfg: eg1_simple::RangeCheckConfig<8> = eg1_simple::RangeCheckConfig::configure(
        &mut meta,
        advice,
    );
    let mut asg = Assignment::new(&meta, 1 << 4);
    cfg.assign(&mut asg, 0, Fp::from_u64(value)).unwrap();
    check(&meta, &asg)
}

#[test]
fn eg1_simple_range_check_test() {
    const RANGE: u64 = 8;

    for i in 0..RANGE {
        assert!(run_simple(i).is_ok());
    }
}

#[test]
fn value_at_range_bound_violates_the_gate() {
    let verdict = run_simple(8);
    assert!(matches!(verdict, Err(CheckFailure::Gate { row: 0, .. })));
}

fn run_lookup(value: u64, num_bits: u64) -> Result<(), CheckFailure> {
    let mut meta = ConstraintSystem::new();
    let value_col = meta.advice_column();
    let num_bits_col = meta.advice_column();
    let cfg: eg3_numbits::RangeCheckConfig<8> = eg3_numbits::RangeCheckConfig::configure(
        &mut meta,
        value_col,
        num_bits_col,
    );
    let mut asg = Assignment::new(&meta, 1 << 10);
    cfg.table.load(&mut asg).unwrap();
    cfg.assign(&mut asg, 0, Fp::from_u64(value), num_bits).unwrap();
    check(&meta, &asg)
}

#[test]
fn eg3_numbits_range_check_test() {
    const RANGE: u64 = 8;

    for i in 0..RANGE {
        assert!(run_lookup(i, log2(i)).is_ok());
    }
}

#[test]
fn table_holds_every_value_with_its_tag() {
    let mut meta = ConstraintSystem::new();
    let value_col = meta.advice_column();
    let num_bits_col = meta.advice_column();
    let cfg: eg3_numbits::RangeCheckConfig<8> = eg3_numbits::RangeCheckConfig::configure(
        &mut meta,
        value_col,
        num_bits_col,
    );
    let mut asg = Assignment::new(&meta, 4);
    cfg.table.load(&mut asg).unwrap();

    let values = &asg.tables[cfg.table.value.index];
    let tags = &asg.tables[cfg.table.num_bits.index];
    assert_eq!(values.len(), 8);
    assert_eq!(tags.len(), 8);
    for i in 0..8u64 {
        assert_eq!(values[i as usize].v, i);
        assert_eq!(tags[i as usize].v, log2(i));
    }
    // the convention pins the first row to (0, 0)
    assert_eq!(values[0].v, 0);
    assert_eq!(tags[0].v, 0);
}

#[test]
fn lookup_fails_outside_the_domain() {
    let verdict = run_lookup(8, log2(8));
    assert!(matches!(verdict, Err(CheckFailure::Lookup { row: 0, .. })));
}

#[test]
fn lookup_fails_on_a_wrong_tag() {
    let verdict = run_lookup(6, 1);
    assert!(matches!(verdict, Err(CheckFailure::Lookup { row: 0, .. })));
}
