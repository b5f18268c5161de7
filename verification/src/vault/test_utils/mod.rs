//! Checks that hold of every vault, for trying a vault out.

pub mod basic_sig;
pub mod multi_sig;
