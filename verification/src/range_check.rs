//! Two range-check strategies over the same field.
//!
//! The direct strategy multiplies out one factor for every admissible
//! value and forces the whole product to zero: no table is needed, but
//! the polynomial's degree grows with the range, so it only suits small
//! ranges.  The lookup strategy wants the value (with its bit length) to appear
//! in a precomputed table: a one-time setup cost of a full pass over the
//! domain, then constant per-use cost, the better trade once the range
//! outgrows what a low-degree polynomial can check economically.

pub mod eg1_simple;
pub mod eg3_numbits;
