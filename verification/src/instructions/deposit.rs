//! Deposit: fund the empty vault of an owner key.

use vstd::prelude::*;
use vstd::slice::slice_subrange;
use crate::account::Account;
use crate::address::find_vault_address;
use crate::bytes::{bytes_eq, le_u64, read_u64_le};
use crate::error::VaultError;
use crate::transfer::Transfer;

verus! {

/// The accounts of a deposit, in the order in which the instruction lists
/// them.
#[derive(Clone, Copy, Debug)]
pub struct DepositAccounts<'a> {
    pub payer: &'a Account,
    pub vault: &'a Account,
    pub system_program: &'a Account,
}

/// The payload of a deposit: the owner's compressed P-256 public key and the
/// amount to put into the vault.
#[derive(Clone, Copy, Debug)]
pub struct DepositInstructionData {
    pub pubkey: [u8; 33],
    pub amount: u64,
}

/// A deposit whose accounts and payload have been accepted.
#[derive(Clone, Copy, Debug)]
pub struct Deposit<'a> {
    pub accounts: DepositAccounts<'a>,
    pub instruction_data: DepositInstructionData,
}

impl<'a> DepositAccounts<'a> {
    /// Why a list of accounts is refused, if it is: it does not hold three
    /// accounts, the payer did not sign, the system program does not own the
    /// vault, or the vault already holds a balance.
    pub open spec fn rejection(accounts: Seq<Account>) -> Option<VaultError> {
        if accounts.len() != 3 {
            Some(VaultError::NotEnoughAccountKeys)
        } else if !accounts[0].is_signer {
            Some(VaultError::InvalidAccountOwner)
        } else if !accounts[1].system_owned() {
            Some(VaultError::InvalidAccountOwner)
        } else if accounts[1].lamports != 0 {
            Some(VaultError::InvalidAccountData)
        } else {
            None
        }
    }

    /// What holds of accepted accounts: the payer signed, and the vault is an
    /// empty account of the system program.
    pub open spec fn valid(&self) -> bool {
        &&& self.payer.is_signer
        &&& self.vault.system_owned()
        &&& self.vault.lamports == 0
    }

    /// Checks the accounts of a deposit: payer, vault and system program.
    pub fn try_from(accounts: &'a [Account]) -> (r: Result<DepositAccounts<'a>, VaultError>)
        ensures
            match r {
                Ok(found) => {
                    &&& found.valid()
                    &&& Self::rejection(accounts@) is None
                    &&& *found.payer == accounts@[0]
                    &&& *found.vault == accounts@[1]
                    &&& *found.system_program == accounts@[2]
                },
                Err(e) => Self::rejection(accounts@) == Some(e),
            },
    {
        if accounts.len() != 3 {
            return Err(VaultError::NotEnoughAccountKeys);
        }
        let payer: &Account = &accounts[0];
        let vault: &Account = &accounts[1];
        let system_program: &Account = &accounts[2];
        if !payer.is_signer {
            return Err(VaultError::InvalidAccountOwner);
        }
        if !vault.is_system_owned() {
            return Err(VaultError::InvalidAccountOwner);
        }
        if vault.lamports != 0 {
            return Err(VaultError::InvalidAccountData);
        }
        Ok(DepositAccounts { payer, vault, system_program })
    }
}

impl DepositInstructionData {
    /// Why a payload is refused, if it is: it is not exactly 41 bytes long, or
    /// the amount in its last eight bytes is zero.
    pub open spec fn rejection(data: Seq<u8>) -> Option<VaultError> {
        if data.len() != 41 {
            Some(VaultError::InvalidInstructionData)
        } else if le_u64(data.subrange(33, 41)) == 0 {
            Some(VaultError::InvalidInstructionData)
        } else {
            None
        }
    }

    /// What holds of an accepted payload: the amount is not zero.
    pub open spec fn valid(&self) -> bool {
        self.amount != 0
    }

    /// Decodes the payload of a deposit: a 33-byte public key, then the
    /// amount as an unsigned 64-bit little-endian integer.
    pub fn try_from(data: &[u8]) -> (r: Result<DepositInstructionData, VaultError>)
        ensures
            match r {
                Ok(decoded) => {
                    &&& decoded.valid()
                    &&& Self::rejection(data@) is None
                    &&& decoded.pubkey@ == data@.subrange(0, 33)
                    &&& decoded.amount == le_u64(data@.subrange(33, 41))
                },
                Err(e) => Self::rejection(data@) == Some(e),
            },
    {
        if data.len() != 41 {
            return Err(VaultError::InvalidInstructionData);
        }
        let mut pubkey: [u8; 33] = [0u8; 33];
        let mut i: usize = 0;
        while i < 33
            invariant
                data@.len() == 41,
                i <= 33,
                forall|j: int| 0 <= j < i ==> pubkey@[j] == data@[j],
            decreases 33 - i,
        {
            pubkey[i] = data[i];
            i = i + 1;
        }
        assert(pubkey@ =~= data@.subrange(0, 33));
        let amount: u64 = read_u64_le(slice_subrange(data, 33, 41));
        if amount == 0 {
            return Err(VaultError::InvalidInstructionData);
        }
        Ok(DepositInstructionData { pubkey, amount })
    }
}

impl<'a> Deposit<'a> {
    /// The first byte of a deposit instruction.
    pub const DISCRIMINATOR: &'a u8 = &0;

    /// Why a payload and a list of accounts are refused, if they are. The
    /// accounts are looked at first.
    pub open spec fn rejection(data: Seq<u8>, accounts: Seq<Account>) -> Option<VaultError> {
        match DepositAccounts::rejection(accounts) {
            Some(e) => Some(e),
            None => DepositInstructionData::rejection(data),
        }
    }

    /// Whether a search for the vault's address found the address `vault`.
    pub open spec fn derives(derived: Option<([u8; 32], u8)>, vault: Seq<u8>) -> bool {
        derived matches Some(found) && found.0@ == vault
    }

    /// What holds of an accepted deposit: its accounts and its payload are
    /// valid.
    pub open spec fn valid(&self) -> bool {
        self.accounts.valid() && self.instruction_data.valid()
    }

    /// Whether this deposit is the one that the payload and the accounts
    /// describe: none of them is refused, the accounts are the three listed,
    /// and the key and the amount are those of the payload.
    pub open spec fn decoded_from(&self, data: Seq<u8>, accounts: Seq<Account>) -> bool {
        &&& Self::rejection(data, accounts) is None
        &&& *self.accounts.payer == accounts[0]
        &&& *self.accounts.vault == accounts[1]
        &&& *self.accounts.system_program == accounts[2]
        &&& self.instruction_data.pubkey@ == data.subrange(0, 33)
        &&& self.instruction_data.amount == le_u64(data.subrange(33, 41))
    }

    /// What the deposit comes to, given what the search for the vault
    /// address of the owner's key found: the transfer of the amount from the
    /// payer to the vault where the address found is the vault account's,
    /// `InvalidAccountOwner` where it is another or none was found.
    pub open spec fn outcome(&self, derived: Option<([u8; 32], u8)>) -> Result<
        Transfer,
        VaultError,
    > {
        if Self::derives(derived, self.accounts.vault.key@) {
            Ok(
                Transfer {
                    from: self.accounts.payer.key,
                    to: self.accounts.vault.key,
                    lamports: self.instruction_data.amount,
                },
            )
        } else {
            Err(VaultError::InvalidAccountOwner)
        }
    }

    /// Checks the accounts of a deposit, then decodes its payload.
    pub fn try_from(input: (&'a [u8], &'a [Account])) -> (r: Result<Deposit<'a>, VaultError>)
        ensures
            match r {
                Ok(d) => d.valid() && d.decoded_from(input.0@, input.1@),
                Err(e) => Self::rejection(input.0@, input.1@) == Some(e),
            },
    {
        let accounts = match DepositAccounts::try_from(input.1) {
            Ok(accounts) => accounts,
            Err(e) => {
                return Err(e);
            },
        };
        match DepositInstructionData::try_from(input.0) {
            Ok(instruction_data) => Ok(Deposit { accounts, instruction_data }),
            Err(e) => Err(e),
        }
    }

    /// Decides a deposit, given what the search for the vault address of the
    /// owner's key found: the address and its bump, or nothing.
    ///
    /// Where the address found is the vault account's, the payer is to
    /// transfer the amount to the vault. Where it is another, or none was
    /// found, the deposit fails with `InvalidAccountOwner`.
    pub fn process_derived(&self, derived: Option<([u8; 32], u8)>) -> (r: Result<
        Transfer,
        VaultError,
    >)
        ensures
            r == self.outcome(derived),
    {
        let vault: &Account = self.accounts.vault;
        let payer: &Account = self.accounts.payer;
        match derived {
            Some(found) => {
                if !bytes_eq(found.0.as_slice(), vault.key.as_slice()) {
                    return Err(VaultError::InvalidAccountOwner);
                }
            },
            None => {
                return Err(VaultError::InvalidAccountOwner);
            },
        }
        Ok(Transfer { from: payer.key, to: vault.key, lamports: self.instruction_data.amount })
    }

    /// Decides a deposit into a vault of the program `program_id`: searches
    /// for the vault address of the owner's key and goes on as
    /// `process_derived` does with what the search found.
    ///
    /// Whatever the search finds, a deposit that succeeds transfers the
    /// amount from the payer to the vault account, and one that fails fails
    /// with `InvalidAccountOwner`.
    pub fn process(&mut self, program_id: &[u8; 32]) -> (r: Result<Transfer, VaultError>)
        ensures
            *final(self) == *old(self),
            exists|derived: Option<([u8; 32], u8)>| r == old(self).outcome(derived),
    {
        let derived = find_vault_address(&self.instruction_data.pubkey, program_id);
        self.process_derived(derived)
    }
}

/// A deposit of a non-zero amount into the empty vault of an owner key is
/// accepted, and succeeds where the vault account is the address that the key
/// derives: it then asks for a transfer that leaves exactly the amount in the
/// vault. The payer and the vault are taken to be two accounts.
pub proof fn deposit_funds_vault(
    d: Deposit,
    data: Seq<u8>,
    accounts: Seq<Account>,
    derived: Option<([u8; 32], u8)>,
)
    requires
        data.len() == 41,
        le_u64(data.subrange(33, 41)) != 0,
        accounts.len() == 3,
        accounts[0].is_signer,
        accounts[1].system_owned(),
        accounts[1].lamports == 0,
        Deposit::derives(derived, accounts[1].key@),
        accounts[0].key@ != accounts[1].key@,
    ensures
        Deposit::rejection(data, accounts) is None,
        d.decoded_from(data, accounts) ==> d.outcome(derived) is Ok,
        d.decoded_from(data, accounts) ==> d.outcome(derived)->Ok_0.balance_after(
            accounts[1].key@,
            accounts[1].lamports as int,
        ) == le_u64(data.subrange(33, 41)),
{
}

/// A deposit whose payer did not sign the transaction is refused, whatever
/// its payload.
pub proof fn deposit_needs_signature(data: Seq<u8>, accounts: Seq<Account>)
    requires
        accounts.len() == 3,
        !accounts[0].is_signer,
    ensures
        Deposit::rejection(data, accounts) == Some(VaultError::InvalidAccountOwner),
{
}

/// A deposit of the amount zero is refused, whatever its accounts; its
/// payload alone is refused as invalid instruction data.
pub proof fn deposit_rejects_zero_amount(data: Seq<u8>, accounts: Seq<Account>)
    requires
        data.len() == 41,
        le_u64(data.subrange(33, 41)) == 0,
    ensures
        DepositInstructionData::rejection(data) == Some(VaultError::InvalidInstructionData),
        Deposit::rejection(data, accounts) is Some,
{
}

/// A deposit fails with `InvalidAccountOwner` where the vault account is not
/// the address that the owner's key derives, also where the accounts and the
/// payload have been accepted.
pub proof fn deposit_rejects_foreign_vault(d: Deposit, derived: Option<([u8; 32], u8)>)
    requires
        !Deposit::derives(derived, d.accounts.vault.key@),
    ensures
        d.outcome(derived) == Err::<Transfer, VaultError>(VaultError::InvalidAccountOwner),
{
}

/// A deposit into a vault that already holds a balance is refused, whatever
/// its payload: as invalid account data where the other account checks pass.
pub proof fn deposit_rejects_funded_vault(data: Seq<u8>, accounts: Seq<Account>)
    requires
        accounts.len() > 1,
        accounts[1].lamports != 0,
    ensures
        Deposit::rejection(data, accounts) is Some,
        accounts.len() == 3 && accounts[0].is_signer && accounts[1].system_owned()
            ==> Deposit::rejection(data, accounts) == Some(VaultError::InvalidAccountData),
{
}

} // verus!
