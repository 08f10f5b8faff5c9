//! The ledger's accounts, as far as the vault reads them.

use vstd::prelude::*;
use crate::bytes::bytes_eq;

verus! {

/// What an instruction sees of one account: its address, the program that
/// owns it, its balance in lamports, and whether it signed the transaction.
#[derive(Clone, Copy, Debug)]
pub struct Account {
    pub key: [u8; 32],
    pub owner: [u8; 32],
    pub lamports: u64,
    pub is_signer: bool,
}

/// The address of the system program, which owns every plain balance-holding
/// account: thirty-two zero bytes.
pub open spec fn system_program_bytes() -> Seq<u8> {
    Seq::new(32, |i: int| 0u8)
}

/// `pinocchio_system::id`: the address of the system program.
#[verifier::external_body]
fn system_program() -> (id: [u8; 32])
    ensures
        id@ == system_program_bytes(),
{
    pinocchio_system::id()
}

impl Account {
    /// Whether the system program owns the account.
    pub open spec fn system_owned(&self) -> bool {
        self.owner@ == system_program_bytes()
    }

    /// Whether `program` owns the account.
    pub fn is_owned_by(&self, program: &[u8; 32]) -> (owned: bool)
        ensures
            owned == (self.owner@ == program@),
    {
        bytes_eq(self.owner.as_slice(), program.as_slice())
    }

    /// Whether the system program owns the account.
    pub fn is_system_owned(&self) -> (owned: bool)
        ensures
            owned == self.system_owned(),
    {
        let system: [u8; 32] = system_program();
        self.is_owned_by(&system)
    }
}

} // verus!
