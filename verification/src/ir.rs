//! The algebra of rank-1 constraints.

pub mod expression;
pub mod laws;
pub mod operators;
pub mod sums;
