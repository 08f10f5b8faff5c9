use secp256r1_vault::account::Account;
use secp256r1_vault::error::VaultError;
use secp256r1_vault::instructions::deposit::{Deposit, DepositAccounts, DepositInstructionData};

const SYSTEM: [u8; 32] = [0; 32];
const PROGRAM: [u8; 32] = [0x22; 32];
const PAYER: [u8; 32] = [0xA1; 32];
const VAULT: [u8; 32] = [0xB2; 32];

fn owner_key() -> [u8; 33] {
    let mut key = [0u8; 33];
    key[0] = 0x02;
    for i in 1..33 {
        key[i] = i as u8;
    }
    key
}

fn payer(is_signer: bool) -> Account {
    Account { key: PAYER, owner: SYSTEM, lamports: 5_000_000, is_signer }
}

fn vault(owner: [u8; 32], lamports: u64) -> Account {
    Account { key: VAULT, owner, lamports, is_signer: false }
}

fn system() -> Account {
    Account { key: SYSTEM, owner: [0x0E; 32], lamports: 1, is_signer: false }
}

fn good_accounts() -> Vec<Account> {
    vec![payer(true), vault(SYSTEM, 0), system()]
}

fn payload(key: &[u8; 33], amount: u64) -> Vec<u8> {
    let mut data = key.to_vec();
    data.extend_from_slice(&amount.to_le_bytes());
    data
}

fn accounts_error(accounts: &[Account]) -> VaultError {
    match DepositAccounts::try_from(accounts) {
        Ok(_) => panic!("the accounts were accepted"),
        Err(e) => e,
    }
}

fn payload_error(data: &[u8]) -> VaultError {
    match DepositInstructionData::try_from(data) {
        Ok(_) => panic!("the payload was accepted"),
        Err(e) => e,
    }
}

fn deposit_error(data: &[u8], accounts: &[Account]) -> VaultError {
    match Deposit::try_from((data, accounts)) {
        Ok(_) => panic!("the deposit was accepted"),
        Err(e) => e,
    }
}

#[test]
fn deposit_discriminator_is_zero() {
    assert_eq!(*Deposit::DISCRIMINATOR, 0);
}

#[test]
fn deposit_accounts_are_taken_in_order() {
    let accounts = good_accounts();
    let found = DepositAccounts::try_from(&accounts).unwrap();
    assert_eq!(found.payer.key, PAYER);
    assert!(found.payer.is_signer);
    assert_eq!(found.payer.lamports, 5_000_000);
    assert_eq!(found.vault.key, VAULT);
    assert_eq!(found.vault.lamports, 0);
    assert_eq!(found.system_program.key, SYSTEM);
    assert_eq!(found.system_program.owner, [0x0E; 32]);
}

#[test]
fn deposit_needs_three_accounts() {
    assert_eq!(accounts_error(&[]), VaultError::NotEnoughAccountKeys);
    assert_eq!(accounts_error(&good_accounts()[..2]), VaultError::NotEnoughAccountKeys);
    let mut four = good_accounts();
    four.push(system());
    assert_eq!(accounts_error(&four), VaultError::NotEnoughAccountKeys);
}

#[test]
fn deposit_needs_the_payer_to_sign() {
    let accounts = vec![payer(false), vault(SYSTEM, 0), system()];
    assert_eq!(accounts_error(&accounts), VaultError::InvalidAccountOwner);
}

#[test]
fn deposit_needs_a_system_owned_vault() {
    let accounts = vec![payer(true), vault(PROGRAM, 0), system()];
    assert_eq!(accounts_error(&accounts), VaultError::InvalidAccountOwner);
    let mut almost = SYSTEM;
    almost[31] = 1;
    let accounts = vec![payer(true), vault(almost, 0), system()];
    assert_eq!(accounts_error(&accounts), VaultError::InvalidAccountOwner);
}

#[test]
fn deposit_rejects_a_funded_vault() {
    let accounts = vec![payer(true), vault(SYSTEM, 1), system()];
    assert_eq!(accounts_error(&accounts), VaultError::InvalidAccountData);
    let accounts = vec![payer(true), vault(SYSTEM, u64::MAX), system()];
    assert_eq!(accounts_error(&accounts), VaultError::InvalidAccountData);
}

#[test]
fn deposit_account_checks_come_in_order() {
    // Payer before owner before balance.
    let accounts = vec![payer(false), vault(PROGRAM, 7), system()];
    assert_eq!(accounts_error(&accounts), VaultError::InvalidAccountOwner);
    let accounts = vec![payer(true), vault(PROGRAM, 7), system()];
    assert_eq!(accounts_error(&accounts), VaultError::InvalidAccountOwner);
    let accounts = vec![payer(false), vault(SYSTEM, 7), system()];
    assert_eq!(accounts_error(&accounts), VaultError::InvalidAccountOwner);
}

#[test]
fn deposit_payload_is_key_then_amount() {
    let key = owner_key();
    let decoded = DepositInstructionData::try_from(&payload(&key, 1_000_000)).unwrap();
    assert_eq!(decoded.pubkey, key);
    assert_eq!(decoded.amount, 1_000_000);
}

#[test]
fn deposit_amount_is_little_endian() {
    let mut data = owner_key().to_vec();
    data.extend_from_slice(&[0x01, 0x02, 0, 0, 0, 0, 0, 0]);
    assert_eq!(DepositInstructionData::try_from(&data).unwrap().amount, 513);
    let mut data = owner_key().to_vec();
    data.extend_from_slice(&[0, 0, 0, 0, 0, 0, 0, 0x80]);
    assert_eq!(DepositInstructionData::try_from(&data).unwrap().amount, 1 << 63);
}

#[test]
fn deposit_amount_bounds() {
    let key = owner_key();
    assert_eq!(DepositInstructionData::try_from(&payload(&key, 1)).unwrap().amount, 1);
    assert_eq!(
        DepositInstructionData::try_from(&payload(&key, u64::MAX)).unwrap().amount,
        u64::MAX
    );
}

#[test]
fn deposit_rejects_a_zero_amount() {
    assert_eq!(payload_error(&payload(&owner_key(), 0)), VaultError::InvalidInstructionData);
    assert_eq!(payload_error(&[0; 41]), VaultError::InvalidInstructionData);
}

#[test]
fn deposit_rejects_a_zero_amount_whatever_the_accounts() {
    let data = payload(&owner_key(), 0);
    assert_eq!(deposit_error(&data, &good_accounts()), VaultError::InvalidInstructionData);
    assert_eq!(deposit_error(&data, &[]), VaultError::NotEnoughAccountKeys);
    let funded = vec![payer(true), vault(SYSTEM, 3), system()];
    assert_eq!(deposit_error(&data, &funded), VaultError::InvalidAccountData);
}

#[test]
fn deposit_rejects_other_payload_lengths() {
    let good = payload(&owner_key(), 9);
    assert_eq!(payload_error(&[]), VaultError::InvalidInstructionData);
    assert_eq!(payload_error(&good[..40]), VaultError::InvalidInstructionData);
    assert_eq!(payload_error(&good[..33]), VaultError::InvalidInstructionData);
    let mut long = good.clone();
    long.push(0);
    assert_eq!(payload_error(&long), VaultError::InvalidInstructionData);
}

#[test]
fn deposit_looks_at_the_accounts_first() {
    let accounts = vec![payer(true), vault(SYSTEM, 1), system()];
    assert_eq!(deposit_error(&[], &accounts), VaultError::InvalidAccountData);
    assert_eq!(deposit_error(&[], &good_accounts()), VaultError::InvalidInstructionData);
}

#[test]
fn deposit_holds_what_was_decoded() {
    let key = owner_key();
    let accounts = good_accounts();
    let data = payload(&key, 77);
    let deposit = Deposit::try_from((&data[..], &accounts[..])).unwrap();
    assert_eq!(deposit.accounts.payer.key, PAYER);
    assert_eq!(deposit.accounts.vault.key, VAULT);
    assert_eq!(deposit.accounts.system_program.key, SYSTEM);
    assert_eq!(deposit.instruction_data.pubkey, key);
    assert_eq!(deposit.instruction_data.amount, 77);
}

#[test]
fn deposit_into_the_derived_vault_transfers_the_amount() {
    let accounts = good_accounts();
    let data = payload(&owner_key(), 1_500);
    let deposit = Deposit::try_from((&data[..], &accounts[..])).unwrap();
    let transfer = deposit.process_derived(Some((VAULT, 254))).unwrap();
    assert_eq!(transfer.from, PAYER);
    assert_eq!(transfer.to, VAULT);
    assert_eq!(transfer.lamports, 1_500);
}

#[test]
fn deposit_does_not_depend_on_the_bump_found() {
    let accounts = good_accounts();
    let data = payload(&owner_key(), 8);
    let deposit = Deposit::try_from((&data[..], &accounts[..])).unwrap();
    for bump in [0u8, 1, 128, 255] {
        let transfer = deposit.process_derived(Some((VAULT, bump))).unwrap();
        assert_eq!(transfer.lamports, 8);
        assert_eq!(transfer.to, VAULT);
    }
}

#[test]
fn deposit_rejects_a_vault_that_is_not_derived() {
    let accounts = good_accounts();
    let data = payload(&owner_key(), 1_500);
    let deposit = Deposit::try_from((&data[..], &accounts[..])).unwrap();
    let mut other = VAULT;
    other[0] ^= 1;
    assert_eq!(
        deposit.process_derived(Some((other, 255))).unwrap_err(),
        VaultError::InvalidAccountOwner
    );
    assert_eq!(
        deposit.process_derived(Some((PAYER, 255))).unwrap_err(),
        VaultError::InvalidAccountOwner
    );
}

#[test]
fn deposit_rejects_when_no_address_is_derived() {
    let accounts = good_accounts();
    let data = payload(&owner_key(), 1_500);
    let deposit = Deposit::try_from((&data[..], &accounts[..])).unwrap();
    assert_eq!(deposit.process_derived(None).unwrap_err(), VaultError::InvalidAccountOwner);
}

#[test]
fn deposit_off_chain_finds_no_address() {
    // Addresses are derived by the runtime; without it none is found.
    let accounts = good_accounts();
    let data = payload(&owner_key(), 1_500);
    let mut deposit = Deposit::try_from((&data[..], &accounts[..])).unwrap();
    assert_eq!(deposit.process(&PROGRAM).unwrap_err(), VaultError::InvalidAccountOwner);
    // The deposit itself is left as it was.
    assert_eq!(deposit.instruction_data.amount, 1_500);
    assert_eq!(deposit.accounts.vault.key, VAULT);
}
