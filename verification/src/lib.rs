//! A custodial balance vault keyed by a P-256 public key.
//!
//! A deposit funds the vault whose address is derived from the owner's
//! compressed public key. A withdrawal drains the vault to a payer, and is
//! allowed only when the instruction that follows it in the same transaction
//! is a secp256r1 signature verification whose single signer derives the
//! vault and whose signed message names that payer and an expiry that has not
//! passed.
//!
//! The handlers here decide; they never touch the ledger. Each returns the
//! transfer that the caller has to invoke, or the error with which the
//! instruction fails.

pub mod account;
pub mod address;
pub mod bytes;
pub mod error;
pub mod instructions;
pub mod lifecycle;
pub mod secp256r1;
pub mod transfer;
