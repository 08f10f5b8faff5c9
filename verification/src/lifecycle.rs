//! The life of a vault: empty, funded by a deposit, emptied by a withdrawal.

use vstd::prelude::*;
use crate::account::Account;
use crate::error::VaultError;
use crate::instructions::deposit::{Deposit, DepositAccounts};
use crate::instructions::withdraw::Withdraw;
use crate::transfer::{SignedTransfer, Transfer};

verus! {

/// A deposit for an owner key followed by a withdrawal that succeeds for the
/// same key, from the same vault to the same payer, gives the payer back all
/// that it put in and leaves the vault empty, as it was before the deposit;
/// the accounts then pass the checks of a deposit again. The payer and the
/// vault are taken to be two accounts.
///
/// `deposited` is the transfer of the deposit `d`, and `withdrawn` the one of
/// the withdrawal `w`, which finds in the vault the balance that the deposit
/// left there. `emptied` is the vault account after the withdrawal.
pub proof fn round_trip(
    d: Deposit,
    data: Seq<u8>,
    accounts: Seq<Account>,
    derived: Option<([u8; 32], u8)>,
    deposited: Transfer,
    w: Withdraw,
    program_id: Seq<u8>,
    signed_data: Seq<u8>,
    now: int,
    derived_with_bump: Option<[u8; 32]>,
    withdrawn: SignedTransfer,
    payer_balance: int,
    emptied: Account,
)
    requires
        d.decoded_from(data, accounts),
        d.outcome(derived) == Ok::<Transfer, VaultError>(deposited),
        d.accounts.payer.key@ != d.accounts.vault.key@,
        w.accounts.payer.key@ == d.accounts.payer.key@,
        w.accounts.vault.key@ == d.accounts.vault.key@,
        w.accounts.vault.lamports == deposited.balance_after(
            d.accounts.vault.key@,
            d.accounts.vault.lamports as int,
        ),
        w.decision(program_id, signed_data, now, derived_with_bump) == Ok::<Seq<u8>, VaultError>(
            d.instruction_data.pubkey@,
        ),
        w.drains(withdrawn, d.instruction_data.pubkey@),
        emptied.key@ == d.accounts.vault.key@,
        emptied.owner@ == d.accounts.vault.owner@,
        emptied.lamports == withdrawn.transfer.balance_after(
            w.accounts.vault.key@,
            w.accounts.vault.lamports as int,
        ),
    ensures
        withdrawn.transfer.lamports == d.instruction_data.amount,
        withdrawn.transfer.balance_after(
            d.accounts.payer.key@,
            deposited.balance_after(d.accounts.payer.key@, payer_balance),
        ) == payer_balance,
        emptied.lamports == 0,
        DepositAccounts::rejection(seq![accounts[0], emptied, accounts[2]]) is None,
{
}

} // verus!
