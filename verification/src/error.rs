//! The errors with which an instruction fails, and their runtime codes.

use vstd::prelude::*;

verus! {

/// Runtime code of "the arguments provided to a program instruction were invalid".
pub const INVALID_ARGUMENT: u64 = 8589934592;

/// Runtime code of "an instruction's data contents was invalid".
pub const INVALID_INSTRUCTION_DATA: u64 = 12884901888;

/// Runtime code of "an account's data contents was invalid".
pub const INVALID_ACCOUNT_DATA: u64 = 17179869184;

/// Runtime code of "the account did not have the expected program id".
pub const INCORRECT_PROGRAM_ID: u64 = 30064771072;

/// Runtime code of "the instruction expected additional account keys".
pub const NOT_ENOUGH_ACCOUNT_KEYS: u64 = 47244640256;

/// Runtime code of "invalid account owner".
pub const INVALID_ACCOUNT_OWNER: u64 = 98784247808;

/// Why an instruction was rejected.
#[derive(Clone, Copy, Debug, PartialEq, Eq, Structural)]
pub enum VaultError {
    /// The account list has the wrong number of entries.
    NotEnoughAccountKeys,
    /// An authorization check failed: a missing signature, a vault that the
    /// system program does not own, a vault address that the owner key does
    /// not derive, or a signed message that names another payer.
    InvalidAccountOwner,
    /// The vault's balance is not what the instruction needs: already funded
    /// on deposit, empty on withdrawal.
    InvalidAccountData,
    /// The payload or the adjacent signature instruction is malformed, the
    /// amount is zero, the signature count is not one, or the signed
    /// authorization has expired.
    InvalidInstructionData,
    /// The adjacent instruction is not addressed to the secp256r1 program.
    IncorrectProgramId,
    /// An index into the adjacent instruction's signatures is out of range.
    InvalidArgument,
    /// Any other runtime code.
    Other(u64),
}

impl VaultError {
    /// The error that a runtime code stands for.
    pub open spec fn of_code(code: u64) -> VaultError {
        if code == INVALID_ARGUMENT {
            VaultError::InvalidArgument
        } else if code == INVALID_INSTRUCTION_DATA {
            VaultError::InvalidInstructionData
        } else if code == INVALID_ACCOUNT_DATA {
            VaultError::InvalidAccountData
        } else if code == INCORRECT_PROGRAM_ID {
            VaultError::IncorrectProgramId
        } else if code == NOT_ENOUGH_ACCOUNT_KEYS {
            VaultError::NotEnoughAccountKeys
        } else if code == INVALID_ACCOUNT_OWNER {
            VaultError::InvalidAccountOwner
        } else {
            VaultError::Other(code)
        }
    }

    /// The runtime code of an error.
    pub open spec fn spec_code(self) -> u64 {
        match self {
            VaultError::NotEnoughAccountKeys => NOT_ENOUGH_ACCOUNT_KEYS,
            VaultError::InvalidAccountOwner => INVALID_ACCOUNT_OWNER,
            VaultError::InvalidAccountData => INVALID_ACCOUNT_DATA,
            VaultError::InvalidInstructionData => INVALID_INSTRUCTION_DATA,
            VaultError::IncorrectProgramId => INCORRECT_PROGRAM_ID,
            VaultError::InvalidArgument => INVALID_ARGUMENT,
            VaultError::Other(code) => code,
        }
    }

    /// Reads a runtime code as an error. A code that names none of the
    /// variants is kept as it is.
    pub fn from_code(code: u64) -> (e: VaultError)
        ensures
            e == VaultError::of_code(code),
    {
        if code == INVALID_ARGUMENT {
            VaultError::InvalidArgument
        } else if code == INVALID_INSTRUCTION_DATA {
            VaultError::InvalidInstructionData
        } else if code == INVALID_ACCOUNT_DATA {
            VaultError::InvalidAccountData
        } else if code == INCORRECT_PROGRAM_ID {
            VaultError::IncorrectProgramId
        } else if code == NOT_ENOUGH_ACCOUNT_KEYS {
            VaultError::NotEnoughAccountKeys
        } else if code == INVALID_ACCOUNT_OWNER {
            VaultError::InvalidAccountOwner
        } else {
            VaultError::Other(code)
        }
    }

    /// The runtime code to report for this error.
    #[verifier::when_used_as_spec(spec_code)]
    pub fn code(self) -> (code: u64)
        ensures
            code == self.spec_code(),
    {
        match self {
            VaultError::NotEnoughAccountKeys => NOT_ENOUGH_ACCOUNT_KEYS,
            VaultError::InvalidAccountOwner => INVALID_ACCOUNT_OWNER,
            VaultError::InvalidAccountData => INVALID_ACCOUNT_DATA,
            VaultError::InvalidInstructionData => INVALID_INSTRUCTION_DATA,
            VaultError::IncorrectProgramId => INCORRECT_PROGRAM_ID,
            VaultError::InvalidArgument => INVALID_ARGUMENT,
            VaultError::Other(code) => code,
        }
    }
}

/// Reading back the code of an error gives an error with that same code, and
/// reading a code and reporting it again gives the code unchanged.
pub proof fn code_round_trip(e: VaultError, code: u64)
    ensures
        VaultError::of_code(e.spec_code()).spec_code() == e.spec_code(),
        VaultError::of_code(code).spec_code() == code,
{
}

} // verus!
