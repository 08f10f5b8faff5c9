use pinocchio::program_error::ProgramError;
use secp256r1_vault::error::VaultError;

#[test]
fn codes_are_those_of_the_runtime() {
    assert_eq!(
        VaultError::NotEnoughAccountKeys.code(),
        u64::from(ProgramError::NotEnoughAccountKeys)
    );
    assert_eq!(
        VaultError::InvalidAccountOwner.code(),
        u64::from(ProgramError::InvalidAccountOwner)
    );
    assert_eq!(
        VaultError::InvalidAccountData.code(),
        u64::from(ProgramError::InvalidAccountData)
    );
    assert_eq!(
        VaultError::InvalidInstructionData.code(),
        u64::from(ProgramError::InvalidInstructionData)
    );
    assert_eq!(
        VaultError::IncorrectProgramId.code(),
        u64::from(ProgramError::IncorrectProgramId)
    );
    assert_eq!(VaultError::InvalidArgument.code(), u64::from(ProgramError::InvalidArgument));
}

#[test]
fn codes_have_their_exact_values() {
    assert_eq!(VaultError::InvalidArgument.code(), 2 << 32);
    assert_eq!(VaultError::InvalidInstructionData.code(), 3 << 32);
    assert_eq!(VaultError::InvalidAccountData.code(), 4 << 32);
    assert_eq!(VaultError::IncorrectProgramId.code(), 7 << 32);
    assert_eq!(VaultError::NotEnoughAccountKeys.code(), 11 << 32);
    assert_eq!(VaultError::InvalidAccountOwner.code(), 23 << 32);
    assert_eq!(VaultError::Other(77).code(), 77);
}

#[test]
fn codes_are_read_back() {
    let all = [
        VaultError::NotEnoughAccountKeys,
        VaultError::InvalidAccountOwner,
        VaultError::InvalidAccountData,
        VaultError::InvalidInstructionData,
        VaultError::IncorrectProgramId,
        VaultError::InvalidArgument,
        VaultError::Other(5),
    ];
    for e in all {
        assert_eq!(VaultError::from_code(e.code()), e);
    }
}

#[test]
fn unknown_codes_are_kept() {
    assert_eq!(VaultError::from_code(0), VaultError::Other(0));
    assert_eq!(VaultError::from_code(1 << 32), VaultError::Other(1 << 32));
    assert_eq!(
        VaultError::from_code(u64::from(ProgramError::UnsupportedSysvar)),
        VaultError::Other(17 << 32)
    );
    assert_eq!(VaultError::from_code(u64::MAX).code(), u64::MAX);
}

#[test]
fn the_runtime_reads_the_codes_as_the_same_errors() {
    assert_eq!(
        ProgramError::from(VaultError::InvalidAccountOwner.code()),
        ProgramError::InvalidAccountOwner
    );
    assert_eq!(
        ProgramError::from(VaultError::InvalidInstructionData.code()),
        ProgramError::InvalidInstructionData
    );
    assert_eq!(
        ProgramError::from(VaultError::NotEnoughAccountKeys.code()),
        ProgramError::NotEnoughAccountKeys
    );
    assert_eq!(
        ProgramError::from(VaultError::InvalidAccountData.code()),
        ProgramError::InvalidAccountData
    );
}
