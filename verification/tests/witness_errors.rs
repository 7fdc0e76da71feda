use zk_gadgets::check::{check, CheckFailure};
use zk_gadgets::cs::{ConstraintSystem, Error};
use zk_gadgets::field::Fp;
use zk_gadgets::witness::{Assignment, CopyCell};

#[test]
fn rewriting_a_cell_with_the_same_value_is_allowed() {
    let mut meta = ConstraintSystem::new();
    let col = meta.advice_column();
    let mut asg = Assignment::new(&meta, 4);
    assert_eq!(asg.assign_advice(col, 0, Fp::from_u64(5)), Ok(()));
    assert_eq!(asg.assign_advice(col, 0, Fp::from_u64(5)), Ok(()));
}

#[test]
fn rewriting_a_cell_with_a_different_value_is_an_error() {
    let mut meta = ConstraintSystem::new();
    let col = meta.advice_column();
    let mut asg = Assignment::new(&meta, 4);
    assert_eq!(asg.assign_advice(col, 0, Fp::from_u64(5)), Ok(()));
    assert_eq!(asg.assign_advice(col, 0, Fp::from_u64(6)), Err(Error::CellReassigned));
    // the first write stands
    assert_eq!(asg.advice[col.index][0].unwrap().v, 5);
}

#[test]
fn writing_outside_the_declared_extent_is_an_error() {
    let mut meta = ConstraintSystem::new();
    let col = meta.advice_column();
    let mut asg = Assignment::new(&meta, 4);
    assert_eq!(asg.assign_advice(col, 4, Fp::from_u64(1)), Err(Error::OutOfBounds));
}

#[test]
fn copy_constraint_needs_equality_enabled() {
    let mut meta = ConstraintSystem::new();
    let a = meta.advice_column();
    let b = meta.advice_column();
    let mut asg = Assignment::new(&meta, 4);
    let left = CopyCell { column: a, row: 0 };
    let right = CopyCell { column: b, row: 0 };
    assert_eq!(asg.constrain_equal(&meta, left, right), Err(Error::EqualityNotEnabled));
}

#[test]
fn violated_copy_constraint_is_reported() {
    let mut meta = ConstraintSystem::new();
    let a = meta.advice_column();
    let b = meta.advice_column();
    meta.enable_equality(a);
    meta.enable_equality(b);
    let mut asg = Assignment::new(&meta, 4);
    asg.assign_advice(a, 0, Fp::from_u64(3)).unwrap();
    asg.assign_advice(b, 0, Fp::from_u64(4)).unwrap();
    let left = CopyCell { column: a, row: 0 };
    let right = CopyCell { column: b, row: 0 };
    asg.constrain_equal(&meta, left, right).unwrap();
    assert!(matches!(check(&meta, &asg), Err(CheckFailure::Copy { index: 0 })));
}

#[test]
fn satisfied_copy_constraint_passes() {
    let mut meta = ConstraintSystem::new();
    let a = meta.advice_column();
    let b = meta.advice_column();
    meta.enable_equality(a);
    meta.enable_equality(b);
    let mut asg = Assignment::new(&meta, 4);
    asg.assign_advice(a, 0, Fp::from_u64(3)).unwrap();
    asg.assign_advice(b, 0, Fp::from_u64(3)).unwrap();
    let left = CopyCell { column: a, row: 0 };
    let right = CopyCell { column: b, row: 0 };
    asg.constrain_equal(&meta, left, right).unwrap();
    assert!(check(&meta, &asg).is_ok());
}

#[test]
fn table_rows_load_in_order_only() {
    let mut meta = ConstraintSystem::new();
    let table_col = meta.lookup_table_column();
    let mut asg = Assignment::new(&meta, 4);
    assert_eq!(asg.assign_table_cell(table_col, 1, Fp::from_u64(0)), Err(Error::OutOfBounds));
    assert_eq!(asg.assign_table_cell(table_col, 0, Fp::from_u64(9)), Ok(()));
    assert_eq!(asg.assign_table_cell(table_col, 0, Fp::from_u64(9)), Ok(()));
    assert_eq!(asg.assign_table_cell(table_col, 0, Fp::from_u64(8)), Err(Error::CellReassigned));
}
