//! Withdraw: drain a vault to the payer that its owner's signature names.

use vstd::prelude::*;
use crate::account::Account;
use crate::bytes::{bytes_eq, le_i64, read_i64_le};
use crate::error::VaultError;
use crate::secp256r1::{framed, program_id_bytes, proof_of, AdjacentInstruction, SignatureProof};
use crate::transfer::{SignedTransfer, Transfer};

verus! {

/// The accounts of a withdrawal, in the order in which the instruction lists
/// them. The payer need not sign: the signature proof authorizes it.
#[derive(Clone, Copy, Debug)]
pub struct WithdrawAccounts<'a> {
    pub payer: &'a Account,
    pub vault: &'a Account,
    pub instructions: &'a Account,
    pub system_program: &'a Account,
}

/// The payload of a withdrawal: the bump seed of the vault's address.
#[derive(Clone, Copy, Debug)]
pub struct WithdrawInstructionData {
    pub bump: [u8; 1],
}

/// A withdrawal whose accounts and payload have been accepted.
#[derive(Clone, Copy, Debug)]
pub struct Withdraw<'a> {
    pub accounts: WithdrawAccounts<'a>,
    pub instruction_data: WithdrawInstructionData,
}

impl<'a> WithdrawAccounts<'a> {
    /// Why a list of accounts is refused, if it is: it does not hold four
    /// accounts, the system program does not own the vault, or the vault is
    /// empty.
    pub open spec fn rejection(accounts: Seq<Account>) -> Option<VaultError> {
        if accounts.len() != 4 {
            Some(VaultError::NotEnoughAccountKeys)
        } else if !accounts[1].system_owned() {
            Some(VaultError::InvalidAccountOwner)
        } else if accounts[1].lamports == 0 {
            Some(VaultError::InvalidAccountData)
        } else {
            None
        }
    }

    /// What holds of accepted accounts: the vault is a funded account of the
    /// system program.
    pub open spec fn valid(&self) -> bool {
        &&& self.vault.system_owned()
        &&& self.vault.lamports != 0
    }

    /// Checks the accounts of a withdrawal: payer, vault, instructions sysvar
    /// and system program.
    pub fn try_from(accounts: &'a [Account]) -> (r: Result<WithdrawAccounts<'a>, VaultError>)
        ensures
            match r {
                Ok(found) => {
                    &&& found.valid()
                    &&& Self::rejection(accounts@) is None
                    &&& *found.payer == accounts@[0]
                    &&& *found.vault == accounts@[1]
                    &&& *found.instructions == accounts@[2]
                    &&& *found.system_program == accounts@[3]
                },
                Err(e) => Self::rejection(accounts@) == Some(e),
            },
    {
        if accounts.len() != 4 {
            return Err(VaultError::NotEnoughAccountKeys);
        }
        let payer: &Account = &accounts[0];
        let vault: &Account = &accounts[1];
        let instructions: &Account = &accounts[2];
        let system_program: &Account = &accounts[3];
        if !vault.is_system_owned() {
            return Err(VaultError::InvalidAccountOwner);
        }
        if vault.lamports == 0 {
            return Err(VaultError::InvalidAccountData);
        }
        Ok(WithdrawAccounts { payer, vault, instructions, system_program })
    }
}

impl WithdrawInstructionData {
    /// Why a payload is refused, if it is: it is not exactly one byte long.
    pub open spec fn rejection(data: Seq<u8>) -> Option<VaultError> {
        if data.len() != 1 {
            Some(VaultError::InvalidInstructionData)
        } else {
            None
        }
    }

    /// Decodes the payload of a withdrawal: a single byte, the bump.
    pub fn try_from(data: &[u8]) -> (r: Result<WithdrawInstructionData, VaultError>)
        ensures
            match r {
                Ok(decoded) => Self::rejection(data@) is None && decoded.bump@ == data@,
                Err(e) => Self::rejection(data@) == Some(e),
            },
    {
        if data.len() != 1 {
            return Err(VaultError::InvalidInstructionData);
        }
        let decoded = WithdrawInstructionData { bump: [data[0]] };
        assert(decoded.bump@ =~= data@);
        Ok(decoded)
    }
}

/// The signer and the message of the adjacent signature proof, once the
/// message has been found to name the payer: its first 32 bytes are the
/// payer's address. Otherwise the error with which the withdrawal fails.
pub open spec fn authorization(payer: Seq<u8>, program_id: Seq<u8>, data: Seq<u8>) -> Result<
    (Seq<u8>, Seq<u8>),
    VaultError,
> {
    match proof_of(program_id, data) {
        Err(e) => Err(e),
        Ok((signer, message)) => if message.len() < 32 {
            Err(VaultError::InvalidInstructionData)
        } else if message.subrange(0, 32) != payer {
            Err(VaultError::InvalidAccountOwner)
        } else {
            Ok((signer, message))
        },
    }
}

/// The expiry that a signed message carries: it has to be 40 bytes long, and
/// its last eight bytes are a signed little-endian unix timestamp.
pub open spec fn expiry_of(message: Seq<u8>) -> Result<int, VaultError> {
    if message.len() != 40 {
        Err(VaultError::InvalidInstructionData)
    } else {
        Ok(le_i64(message.subrange(32, 40)))
    }
}

impl<'a> Withdraw<'a> {
    /// The first byte of a withdraw instruction.
    pub const DISCRIMINATOR: &'a u8 = &1;

    /// Why a payload and a list of accounts are refused, if they are. The
    /// accounts are looked at first.
    pub open spec fn rejection(data: Seq<u8>, accounts: Seq<Account>) -> Option<VaultError> {
        match WithdrawAccounts::rejection(accounts) {
            Some(e) => Some(e),
            None => WithdrawInstructionData::rejection(data),
        }
    }

    /// What holds of an accepted withdrawal: its accounts are valid.
    pub open spec fn valid(&self) -> bool {
        self.accounts.valid()
    }

    /// Whether this withdrawal is the one that the payload and the accounts
    /// describe: none of them is refused, the accounts are the four listed,
    /// and the bump is the payload's byte.
    pub open spec fn decoded_from(&self, data: Seq<u8>, accounts: Seq<Account>) -> bool {
        &&& Self::rejection(data, accounts) is None
        &&& *self.accounts.payer == accounts[0]
        &&& *self.accounts.vault == accounts[1]
        &&& *self.accounts.instructions == accounts[2]
        &&& *self.accounts.system_program == accounts[3]
        &&& self.instruction_data.bump@ == data
    }

    /// The owner key for which the withdrawal is carried out at the time
    /// `now`, or the error with which it fails.
    ///
    /// `program_id` and `data` are those of the instruction that follows the
    /// withdrawal. `derived` is the address that the vault's seeds for the
    /// key that signed, followed by the bump, derive; `None` where they
    /// derive none.
    pub open spec fn decision(
        &self,
        program_id: Seq<u8>,
        data: Seq<u8>,
        now: int,
        derived: Option<[u8; 32]>,
    ) -> Result<Seq<u8>, VaultError> {
        match authorization(self.accounts.payer.key@, program_id, data) {
            Err(e) => Err(e),
            Ok((signer, message)) => match expiry_of(message) {
                Err(e) => Err(e),
                Ok(expiry) => if now > expiry {
                    Err(VaultError::InvalidInstructionData)
                } else if !(derived matches Some(address) && address@ == self.accounts.vault.key@) {
                    Err(VaultError::InvalidAccountOwner)
                } else {
                    Ok(signer)
                },
            },
        }
    }

    /// Whether `signed` is the transfer of the vault's whole balance to the
    /// payer, signed for with the seeds of `owner` and this withdrawal's bump.
    pub open spec fn drains(&self, signed: SignedTransfer, owner: Seq<u8>) -> bool {
        &&& signed.owner@ == owner
        &&& signed.bump@ == self.instruction_data.bump@
        &&& signed.transfer.from@ == self.accounts.vault.key@
        &&& signed.transfer.to@ == self.accounts.payer.key@
        &&& signed.transfer.lamports == self.accounts.vault.lamports
    }

    /// Checks the accounts of a withdrawal, then decodes its payload.
    pub fn try_from(input: (&'a [u8], &'a [Account])) -> (r: Result<Withdraw<'a>, VaultError>)
        ensures
            match r {
                Ok(w) => w.valid() && w.decoded_from(input.0@, input.1@),
                Err(e) => Self::rejection(input.0@, input.1@) == Some(e),
            },
    {
        let accounts = match WithdrawAccounts::try_from(input.1) {
            Ok(accounts) => accounts,
            Err(e) => {
                return Err(e);
            },
        };
        match WithdrawInstructionData::try_from(input.0) {
            Ok(instruction_data) => Ok(Withdraw { accounts, instruction_data }),
            Err(e) => Err(e),
        }
    }

    /// Reads the signature proof out of the instruction that follows this one
    /// and checks that the signed message names this withdrawal's payer.
    ///
    /// Fails as `SignatureProof::verify_adjacent` does; with
    /// `InvalidInstructionData` when the message is shorter than an address;
    /// with `InvalidAccountOwner` when it names another payer.
    pub fn authorize(&self, instruction: &AdjacentInstruction) -> (r: Result<
        SignatureProof,
        VaultError,
    >)
        ensures
            authorization(self.accounts.payer.key@, instruction.program_id@, instruction.data@)
                == match r {
                Ok(found) => Ok((found.signer@, found.message@)),
                Err(e) => Err(e),
            },
    {
        let found = match SignatureProof::verify_adjacent(instruction) {
            Ok(found) => found,
            Err(e) => {
                return Err(e);
            },
        };
        if found.message.len() < 32 {
            return Err(VaultError::InvalidInstructionData);
        }
        let (payer, _) = found.message.as_slice().split_at(32);
        if !bytes_eq(self.accounts.payer.key.as_slice(), payer) {
            return Err(VaultError::InvalidAccountOwner);
        }
        Ok(found)
    }

    /// Decides a withdrawal at the time `now`.
    ///
    /// `instruction` is the instruction that follows this one in the
    /// transaction. `derived` is the address that the runtime derives from the
    /// vault's seeds for the key that signed, followed by this withdrawal's
    /// bump; `None` where it derives none.
    ///
    /// On success the whole balance of the vault goes to the payer, and the
    /// program signs for the vault with the seeds of the key that signed. The
    /// withdrawal fails as `authorize` does; with `InvalidInstructionData`
    /// when the signed message is not 40 bytes long or `now` is past its
    /// expiry; with `InvalidAccountOwner` when `derived` is not the vault.
    pub fn process(
        &mut self,
        instruction: &AdjacentInstruction,
        now: i64,
        derived: Option<[u8; 32]>,
    ) -> (r: Result<SignedTransfer, VaultError>)
        ensures
            *final(self) == *old(self),
            old(self).decision(instruction.program_id@, instruction.data@, now as int, derived)
                == match r {
                Ok(signed) => Ok(signed.owner@),
                Err(e) => Err(e),
            },
            r matches Ok(signed) ==> old(self).drains(signed, signed.owner@),
    {
        let found = match self.authorize(instruction) {
            Ok(found) => found,
            Err(e) => {
                return Err(e);
            },
        };
        let (_, expiry) = found.message.as_slice().split_at(32);
        if expiry.len() != 8 {
            return Err(VaultError::InvalidInstructionData);
        }
        assert(expiry@ =~= found.message@.subrange(32, 40));
        let expiry: i64 = read_i64_le(expiry);
        if now > expiry {
            return Err(VaultError::InvalidInstructionData);
        }
        let vault: &Account = self.accounts.vault;
        let payer: &Account = self.accounts.payer;
        match derived {
            Some(address) => {
                if !bytes_eq(address.as_slice(), vault.key.as_slice()) {
                    return Err(VaultError::InvalidAccountOwner);
                }
            },
            None => {
                return Err(VaultError::InvalidAccountOwner);
            },
        }
        Ok(
            SignedTransfer {
                transfer: Transfer { from: vault.key, to: payer.key, lamports: vault.lamports },
                owner: found.signer,
                bump: self.instruction_data.bump,
            },
        )
    }
}

/// A withdrawal from an empty vault is refused, whatever its payload: as
/// invalid account data where the other account checks pass.
pub proof fn withdraw_rejects_empty_vault(data: Seq<u8>, accounts: Seq<Account>)
    requires
        accounts.len() > 1,
        accounts[1].lamports == 0,
    ensures
        Withdraw::rejection(data, accounts) is Some,
        accounts.len() == 4 && accounts[1].system_owned() ==> Withdraw::rejection(data, accounts)
            == Some(VaultError::InvalidAccountData),
{
}

/// A withdrawal succeeds exactly when the instruction that follows it proves
/// a single signature, the signed message is 40 bytes long, names the payer
/// in its first 32 bytes and carries an expiry that `now` is not past, and
/// the address derived for the key that signed is the vault account's. It is
/// then carried out for the key that signed.
pub proof fn withdraw_succeeds_iff(
    w: Withdraw,
    program_id: Seq<u8>,
    data: Seq<u8>,
    now: int,
    derived: Option<[u8; 32]>,
)
    ensures
        w.decision(program_id, data, now, derived) is Ok <==> {
            &&& proof_of(program_id, data) matches Ok(found)
            &&& found.1.len() == 40
            &&& found.1.subrange(0, 32) == w.accounts.payer.key@
            &&& now <= le_i64(found.1.subrange(32, 40))
            &&& derived matches Some(address)
            &&& address@ == w.accounts.vault.key@
        },
        w.decision(program_id, data, now, derived) matches Ok(owner) ==> proof_of(
            program_id,
            data,
        ) matches Ok(found) && found.0 == owner,
        proof_of(program_id, data) is Ok ==> program_id == program_id_bytes() && framed(data)
            && data[0] == 1,
{
}

/// The transfer of a withdrawal that succeeds leaves nothing in the vault
/// and adds what the vault held to the payer's balance. The payer and the
/// vault are taken to be two accounts.
pub proof fn withdraw_drains_vault(
    w: Withdraw,
    signed: SignedTransfer,
    owner: Seq<u8>,
    payer_balance: int,
)
    requires
        w.drains(signed, owner),
        w.accounts.payer.key@ != w.accounts.vault.key@,
    ensures
        signed.transfer.balance_after(w.accounts.vault.key@, w.accounts.vault.lamports as int)
            == 0,
        signed.transfer.balance_after(w.accounts.payer.key@, payer_balance) == payer_balance
            + w.accounts.vault.lamports,
{
}

/// A withdrawal fails where the instruction that follows it reports no
/// signature or more than one: with `InvalidInstructionData` where that
/// instruction is addressed to the secp256r1 program.
pub proof fn withdraw_rejects_other_signature_counts(
    w: Withdraw,
    program_id: Seq<u8>,
    data: Seq<u8>,
    now: int,
    derived: Option<[u8; 32]>,
)
    requires
        data.len() > 0,
        data[0] != 1,
    ensures
        w.decision(program_id, data, now, derived) is Err,
        program_id == program_id_bytes() ==> w.decision(program_id, data, now, derived) == Err::<
            Seq<u8>,
            VaultError,
        >(VaultError::InvalidInstructionData),
{
}

/// The expiry is inclusive: a withdrawal that nothing else stands against
/// succeeds at the second of its expiry, and fails one second later with
/// `InvalidInstructionData`.
pub proof fn expiry_is_inclusive(
    w: Withdraw,
    program_id: Seq<u8>,
    data: Seq<u8>,
    expiry: int,
    derived: Option<[u8; 32]>,
)
    requires
        authorization(w.accounts.payer.key@, program_id, data) matches Ok(found) && expiry_of(
            found.1,
        ) == Ok::<int, VaultError>(expiry),
        derived matches Some(address) && address@ == w.accounts.vault.key@,
    ensures
        w.decision(program_id, data, expiry, derived) is Ok,
        w.decision(program_id, data, expiry + 1, derived) == Err::<Seq<u8>, VaultError>(
            VaultError::InvalidInstructionData,
        ),
{
}

} // verus!
