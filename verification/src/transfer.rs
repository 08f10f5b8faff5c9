//! The balance transfers that the handlers ask for, and what they do to a
//! balance.

use vstd::prelude::*;
use crate::address::{signer_seeds, signer_seeds_of};

verus! {

/// A transfer of lamports for the system program to carry out.
#[derive(Clone, Copy, Debug)]
pub struct Transfer {
    /// The account that pays.
    pub from: [u8; 32],
    /// The account that receives.
    pub to: [u8; 32],
    /// The amount.
    pub lamports: u64,
}

/// A transfer out of a vault, for which the program signs with the vault's
/// seeds: the label, the owner's key in two parts, and the bump.
#[derive(Clone, Copy, Debug)]
pub struct SignedTransfer {
    /// The transfer itself.
    pub transfer: Transfer,
    /// The compressed public key of the vault's owner.
    pub owner: [u8; 33],
    /// The bump seed of the vault's address.
    pub bump: [u8; 1],
}

impl SignedTransfer {
    /// The seeds with which the program signs for the vault, in order: the
    /// label, the first byte of the owner's key, its other 32 bytes, the bump.
    pub fn seeds(&self) -> (seeds: [&[u8]; 4])
        ensures
            seeds@.map_values(|seed: &[u8]| seed@) == signer_seeds(self.owner@, self.bump@[0]),
    {
        signer_seeds_of(&self.owner, &self.bump)
    }
}

impl Transfer {
    /// The balance of the account at `key` once the transfer has been carried
    /// out, given its balance before. The transfer is all or nothing, and an
    /// account that pays itself keeps its balance.
    pub open spec fn balance_after(self, key: Seq<u8>, before: int) -> int {
        before - (if self.from@ == key {
            self.lamports as int
        } else {
            0
        }) + (if self.to@ == key {
            self.lamports as int
        } else {
            0
        })
    }
}

} // verus!
