//! The two instructions of the vault program.

pub mod deposit;
pub mod withdraw;
