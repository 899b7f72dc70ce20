//! Passes over the typed program.

pub mod constant_reads;
pub mod laws;
pub mod removed;
pub mod variable_read_remover;
