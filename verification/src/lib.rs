//! Finite-field arithmetic-circuit gadgets.
//!
//! The crate models a small constraint system — columns, selectors,
//! polynomial gates and lookup arguments over a prime field — and builds
//! verified gadgets on top of it: an equality-to-zero test, a conditional
//! select, a polynomial range check, a lookup-table range check, and a
//! running-sum decomposition that range-checks wide values chunk by chunk.

pub mod arith;
pub mod check;
pub mod cs;
pub mod decompose;
pub mod expr;
pub mod field;
pub mod is_zero;
pub mod minigrep;
pub mod range_check;
pub mod table;
pub mod witness;
