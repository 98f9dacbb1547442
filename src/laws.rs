use vstd::prelude::*;
use crate::address::authority_reconstructs;
use crate::vault::{deposit_error, deposited, withdraw_error, withdrawn, Deposit, Withdraw};

verus! {

/// The balance recorded for the depositing customer before a deposit: that of
/// the existing record, or nothing for a first deposit.
pub open spec fn recorded_before(ctx: Deposit) -> u64 {
    match ctx.customer_vault_account {
        Some(rec) => rec.balance,
        None => 0,
    }
}

/// A withdrawal sees the ledger that a deposit left behind, for the same
/// program, vault and customer.
pub open spec fn continues(d: Deposit, w: Withdraw) -> bool {
    &&& w.program_id == d.program_id
    &&& w.vault_address == d.vault_address
    &&& w.vault == d.vault
    &&& w.customer == d.customer
    &&& d.customer_vault_account == Some(w.customer_vault_account)
}

/// Depositing an amount and then withdrawing the same amount, for the same
/// customer, where each transfer moves exactly that amount through the custody
/// account: the withdrawal is accepted, and afterwards the recorded balance and
/// the vault's deposit total are back at their values before the deposit.
pub proof fn lemma_deposit_withdraw_round_trip(
    d0: Deposit,
    amount: u64,
    d1: Deposit,
    w0: Withdraw,
    w1: Withdraw,
)
    requires
        recorded_before(d0) + amount <= u64::MAX,
        d0.customer_vault_account matches Some(rec) ==> authority_reconstructs(
            d0.program_id@,
            d0.vault_address@,
            d0.customer@,
            rec.bump,
            rec.authority@,
        ),
        deposited(d0, amount, (recorded_before(d0) + amount) as u64, d1),
        continues(d1, w0),
        withdrawn(w0, amount, recorded_before(d0), w1),
    ensures
        withdraw_error(w0, amount) is None,
        w1.customer_vault_account.balance == recorded_before(d0),
        w1.vault.total_deposits == d0.vault.total_deposits,
{
}

/// The vault's deposit total never leaves the range of `u64`: a deposit that
/// would carry it past `u64::MAX`, or a withdrawal that would carry it below
/// zero, is refused before any transfer (with `Overflow` once the checks
/// before it have passed), and an accepted one keeps it in range.
pub proof fn lemma_total_stays_in_range(d: Deposit, w: Withdraw, amount: u64)
    ensures
        d.vault.total_deposits + amount > u64::MAX ==> deposit_error(d, amount) is Some,
        deposit_error(d, amount) is None ==> d.vault.total_deposits + amount <= u64::MAX,
        w.vault.total_deposits < amount ==> withdraw_error(w, amount) is Some,
        withdraw_error(w, amount) is None ==> w.vault.total_deposits - amount >= 0,
{
}

/// A first deposit, where the custody account ends up holding exactly the
/// deposited amount, creates the customer's record with that balance and
/// raises the deposit total by the amount.
pub proof fn lemma_first_deposit_creates_record(d0: Deposit, amount: u64, d1: Deposit)
    requires
        d0.customer_vault_account is None,
        deposited(d0, amount, amount, d1),
    ensures
        d1.customer_vault_account matches Some(rec) && rec.balance == amount && rec.customer@
            == d0.customer@,
        d1.vault.total_deposits == d0.vault.total_deposits + amount,
{
}

} // verus!
