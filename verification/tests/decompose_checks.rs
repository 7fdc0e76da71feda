use zk_gadgets::check::check;
use zk_gadgets::cs::{ConstraintSystem, Error};
use zk_gadgets::decompose::DecomposeConfig;
use zk_gadgets::field::Fp;
use zk_gadgets::witness::Assignment;

fn setup() -> (ConstraintSystem, DecomposeConfig<8>, Assignment) {
    let mut meta = ConstraintSystem::new();
    let cfg: DecomposeConfig<8> = DecomposeConfig::configure(&mut meta);
    let mut asg = Assignment::new(&meta, 16);
    cfg.table.load(&mut asg).unwrap();
    (meta, cfg, asg)
}

#[test]
fn sixteen_bit_decomposition_of_300() {
    let (meta, cfg, mut asg) = setup();
    cfg.assign(&mut asg, 0, Fp::from_u64(300), 16).unwrap();

    let z0 = asg.advice[cfg.running_sum.index][0].unwrap().v;
    let z1 = asg.advice[cfg.running_sum.index][1].unwrap().v;
    let z2 = asg.advice[cfg.running_sum.index][2].unwrap().v;
    assert_eq!(z0, 300);
    assert_eq!(z1, 1);
    assert_eq!(z2, 0);

    // the implicit chunks, recomputed as the lookup derives them
    let c0 = z0 - z1 * 256;
    let c1 = z1 - z2 * 256;
    assert_eq!(c0, 44);
    assert_eq!(c1, 1);
    assert!(c0 < 256 && c1 < 256);

    assert!(check(&meta, &asg).is_ok());
}

#[test]
fn oversized_value_is_rejected_at_synthesis() {
    let (_meta, cfg, mut asg) = setup();
    let verdict = cfg.assign(&mut asg, 0, Fp::from_u64(70000), 16);
    assert_eq!(verdict, Err(Error::BitLengthExceeded));
    // rejected fast: nothing was written
    assert!(asg.advice[cfg.running_sum.index][0].is_none());
}

#[test]
fn tampered_running_sum_violates_the_chunk_lookup() {
    let (meta, cfg, mut asg) = setup();
    cfg.assign(&mut asg, 0, Fp::from_u64(300), 16).unwrap();
    // claim a different middle running sum: the derived chunk leaves the table
    asg.advice[cfg.running_sum.index][1] = Some(Fp::from_u64(2));
    let verdict = check(&meta, &asg);
    assert!(matches!(
        verdict,
        Err(zk_gadgets::check::CheckFailure::Lookup { .. })
    ));
}

#[test]
fn zero_value_decomposes_to_all_zero_sums() {
    let (meta, cfg, mut asg) = setup();
    cfg.assign(&mut asg, 0, Fp::from_u64(0), 16).unwrap();
    assert_eq!(asg.advice[cfg.running_sum.index][0].unwrap().v, 0);
    assert_eq!(asg.advice[cfg.running_sum.index][2].unwrap().v, 0);
    assert!(check(&meta, &asg).is_ok());
}

#[test]
fn largest_sixteen_bit_value_passes() {
    let (meta, cfg, mut asg) = setup();
    cfg.assign(&mut asg, 0, Fp::from_u64(65535), 16).unwrap();
    let z1 = asg.advice[cfg.running_sum.index][1].unwrap().v;
    assert_eq!(z1, 255);
    assert!(check(&meta, &asg).is_ok());
}
