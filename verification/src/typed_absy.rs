//! The typed program: what semantic analysis produces.

pub mod abi;
pub mod copy;
pub mod display;
pub mod encoding;
pub mod expression;
pub mod folder;
pub mod identifier;
pub mod identity;
pub mod listing;
pub mod parameter;
pub mod program;
pub mod symbols;
pub mod typed;
pub mod types;
pub mod variable;
pub mod walk;
