//! Semantic analysis and algebraic core of a compiler from a small
//! programming language to rank-1 constraint systems.

pub mod text;
pub mod natural;
pub mod field;
pub mod flat_absy;
pub mod typed_absy;
pub mod embed;
pub mod collections;
pub mod absy;
pub mod parser;
pub mod semantics;
pub mod static_analysis;
pub mod ir;
pub mod json;
