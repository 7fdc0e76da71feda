use zk_gadgets::check::check;
use zk_gadgets::cs::ConstraintSystem;
use zk_gadgets::field::{Fp, MODULUS};
use zk_gadgets::is_zero::FunctionCircuit;
use zk_gadgets::witness::Assignment;

fn run_circuit(a: u64, b: u64, c: u64) -> (ConstraintSystem, Assignment, zk_gadgets::is_zero::FunctionConfig) {
    let circuit = FunctionCircuit {
        a: Fp::from_u64(a),
        b: Fp::from_u64(b),
        c: Fp::from_u64(c),
    };
    let mut meta = ConstraintSystem::new();
    let config = FunctionCircuit::configure(&mut meta);
    let mut asg = Assignment::new(&meta, 1 << 5);
    let cfg_copy = zk_gadgets::is_zero::FunctionConfig {
        a: config.a,
        b: config.b,
        c: config.c,
        out: config.out,
        selector: config.selector,
        a_is_zero_config: zk_gadgets::is_zero::IsZeroConfig {
            value_inv: config.a_is_zero_config.value_inv,
            is_zero_expr: config.a_is_zero_config.is_zero_expr.dup(),
        },
    };
    circuit.synthesize(config, &mut asg).unwrap();
    (meta, asg, cfg_copy)
}

#[test]
fn test_is_zero() {
    let (meta, asg, _) = run_circuit(0, 1, 2);
    assert!(check(&meta, &asg).is_ok());
}

#[test]
fn is_zero_assigns_true_inverse_for_nonzero() {
    let (meta, asg, cfg) = run_circuit(5, 1, 2);
    let inv_cell = asg.advice[cfg.a_is_zero_config.value_inv.index][0].unwrap();
    assert_eq!((5 * inv_cell.v) % MODULUS, 1);
    let is_zero = cfg.a_is_zero_config.is_zero_expr.evaluate(&asg, 0);
    assert_eq!(is_zero.v, 0);
    assert!(check(&meta, &asg).is_ok());
}

#[test]
fn is_zero_on_zero_value() {
    let (meta, asg, cfg) = run_circuit(0, 1, 2);
    let inv_cell = asg.advice[cfg.a_is_zero_config.value_inv.index][0].unwrap();
    assert_eq!(inv_cell.v, 0);
    let is_zero = cfg.a_is_zero_config.is_zero_expr.evaluate(&asg, 0);
    assert_eq!(is_zero.v, 1);
    assert!(check(&meta, &asg).is_ok());
}

#[test]
fn select_takes_b_when_a_is_zero() {
    let (meta, asg, cfg) = run_circuit(0, 7, 9);
    assert_eq!(asg.advice[cfg.out.index][0].unwrap().v, 7);
    assert!(check(&meta, &asg).is_ok());
}

#[test]
fn select_takes_c_when_a_is_nonzero() {
    let (meta, asg, cfg) = run_circuit(3, 7, 9);
    assert_eq!(asg.advice[cfg.out.index][0].unwrap().v, 9);
    assert!(check(&meta, &asg).is_ok());
}

#[test]
fn conditional_select_end_to_end() {
    let (meta, asg, cfg) = run_circuit(0, 1, 2);
    assert_eq!(asg.advice[cfg.out.index][0].unwrap().v, 1);
    assert!(check(&meta, &asg).is_ok());

    let (meta2, asg2, cfg2) = run_circuit(5, 1, 2);
    assert_eq!(asg2.advice[cfg2.out.index][0].unwrap().v, 2);
    assert!(check(&meta2, &asg2).is_ok());
}

#[test]
fn tampered_output_violates_the_select_gate() {
    let (meta, mut asg, cfg) = run_circuit(0, 7, 9);
    // overwrite the output cell with the wrong branch
    asg.advice[cfg.out.index][0] = Some(Fp::from_u64(9));
    let verdict = check(&meta, &asg);
    assert!(matches!(
        verdict,
        Err(zk_gadgets::check::CheckFailure::Gate { row: 0, .. })
    ));
}
