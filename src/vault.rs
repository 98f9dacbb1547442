use vstd::prelude::*;
use crate::address::{
    authority_reconstructs, custody_seed_list, custody_seeds, derive_address,
    found_program_address, record_seed_list, record_seeds, same_key, seeds_view, sign_as,
    vault_seed_list, vault_seeds, with_bump, Key,
};
use crate::error::{TransferError, VaultError};

verus! {

/// The vault of a manager: who created it and the total amount held for its customers.
#[derive(Clone, Copy, Debug, PartialEq, Eq)]
pub struct Vault {
    pub manager: Key,
    pub total_deposits: u64,
}

/// The custody record of one customer in one vault.
#[derive(Clone, Copy, Debug, PartialEq, Eq)]
pub struct CustomerVaultAccount {
    /// The customer who owns the record.
    pub customer: Key,
    /// The derived custody token account that holds the customer's assets.
    pub vault_token_account: Key,
    /// The derived address of this record, the authority over the custody account.
    pub authority: Key,
    /// The disambiguation byte of `authority`.
    pub bump: u8,
    /// The custody account's balance as of the last successful operation.
    pub balance: u64,
}

/// A transfer for the asset transfer service to perform.
#[derive(Clone, Debug, PartialEq, Eq)]
pub struct TransferRequest {
    pub mint: Key,
    pub decimals: u8,
    pub from: Key,
    pub to: Key,
    /// The account that authorizes the transfer.
    pub authority: Key,
    /// The seeds that let the program sign as `authority`; `None` where the
    /// authority signs for itself.
    pub signer_seeds: Option<Vec<Vec<u8>>>,
    pub amount: u64,
}

/// What the asset transfer service reported.
#[derive(Clone, Copy, Debug, PartialEq, Eq, Structural)]
pub enum TransferOutcome {
    /// The transfer took place; the custody account now holds `custody_balance`.
    Completed { custody_balance: u64 },
    Failed(TransferError),
}

/// The accounts of a vault's creation.
#[derive(Clone, Copy, Debug, PartialEq, Eq)]
pub struct InitializeVault {
    pub program_id: Key,
    pub manager: Key,
    /// The vault stored at the derived address, if any.
    pub vault: Option<Vault>,
}

/// The accounts of a deposit.
#[derive(Clone, Copy, Debug, PartialEq, Eq)]
pub struct Deposit {
    pub program_id: Key,
    pub vault_address: Key,
    pub vault: Vault,
    /// The depositing customer, who signs the transfer.
    pub customer: Key,
    pub mint: Key,
    pub mint_decimals: u8,
    /// The customer's own token account, the source of the funds.
    pub customer_token_account: Key,
    /// The customer's custody record, absent before the first deposit.
    pub customer_vault_account: Option<CustomerVaultAccount>,
}

/// The accounts of a withdrawal.
#[derive(Clone, Copy, Debug, PartialEq, Eq)]
pub struct Withdraw {
    pub program_id: Key,
    pub vault_address: Key,
    pub vault: Vault,
    /// The calling customer.
    pub customer: Key,
    pub mint: Key,
    pub mint_decimals: u8,
    /// The customer's own token account, the destination of the funds.
    pub customer_token_account: Key,
    /// The custody record the funds are taken from.
    pub customer_vault_account: CustomerVaultAccount,
}

// ---------------------------------------------------------------------------
// Model
// ---------------------------------------------------------------------------

/// Why creating a vault fails, if it does.
pub open spec fn initialize_error(ctx: InitializeVault) -> Option<VaultError> {
    if found_program_address(vault_seeds(ctx.manager@), ctx.program_id@) is None {
        Some(VaultError::AddressSpaceExhausted)
    } else if ctx.vault is Some {
        Some(VaultError::AlreadyInitialized)
    } else {
        None
    }
}

/// Why a deposit is refused before any transfer, if it is.
pub open spec fn deposit_error(ctx: Deposit, amount: u64) -> Option<VaultError> {
    if amount == 0 {
        Some(VaultError::InvalidDepositAmount)
    } else if (match ctx.customer_vault_account {
        Some(rec) => rec.customer@ != ctx.customer@,
        None => false,
    }) {
        Some(VaultError::Unauthorized)
    } else if ctx.customer_vault_account is None && (found_program_address(
        record_seeds(ctx.vault_address@, ctx.customer@),
        ctx.program_id@,
    ) is None || found_program_address(
        custody_seeds(ctx.vault_address@, ctx.customer@),
        ctx.program_id@,
    ) is None) {
        Some(VaultError::AddressSpaceExhausted)
    } else if ctx.vault.total_deposits + amount > u64::MAX {
        Some(VaultError::Overflow)
    } else {
        None
    }
}

/// `rec` is the customer's record for a deposit, with any balance: the
/// existing one, or one at freshly derived addresses.
pub open spec fn record_located(ctx: Deposit, rec: CustomerVaultAccount) -> bool {
    match ctx.customer_vault_account {
        Some(old) => rec.customer == old.customer && rec.vault_token_account
            == old.vault_token_account && rec.authority == old.authority && rec.bump == old.bump,
        None => {
            &&& rec.customer@ == ctx.customer@
            &&& found_program_address(record_seeds(ctx.vault_address@, ctx.customer@), ctx.program_id@)
                == Some((rec.authority@, rec.bump))
            &&& authority_reconstructs(
                ctx.program_id@,
                ctx.vault_address@,
                ctx.customer@,
                rec.bump,
                rec.authority@,
            )
            &&& found_program_address(
                custody_seeds(ctx.vault_address@, ctx.customer@),
                ctx.program_id@,
            ) matches Some(c) && c.0 == rec.vault_token_account@
        },
    }
}

/// `t` is the transfer of a deposit: from the customer's account to the
/// custody account, signed by the customer.
pub open spec fn deposit_transfer(ctx: Deposit, amount: u64, t: TransferRequest) -> bool {
    &&& t.amount == amount
    &&& t.mint == ctx.mint
    &&& t.decimals == ctx.mint_decimals
    &&& t.from == ctx.customer_token_account
    &&& t.authority == ctx.customer
    &&& t.signer_seeds is None
    &&& match ctx.customer_vault_account {
        Some(rec) => t.to == rec.vault_token_account,
        None => found_program_address(custody_seeds(ctx.vault_address@, ctx.customer@), ctx.program_id@)
            matches Some(c) && c.0 == t.to@,
    }
}

/// `after` is the state once a deposit of `amount` has been transferred and
/// the custody account read back at `custody_balance`.
pub open spec fn deposited(before: Deposit, amount: u64, custody_balance: u64, after: Deposit) -> bool {
    &&& deposit_error(before, amount) is None
    &&& after.program_id == before.program_id
    &&& after.vault_address == before.vault_address
    &&& after.customer == before.customer
    &&& after.mint == before.mint
    &&& after.mint_decimals == before.mint_decimals
    &&& after.customer_token_account == before.customer_token_account
    &&& after.vault.manager == before.vault.manager
    &&& after.vault.total_deposits == before.vault.total_deposits + amount
    &&& after.customer_vault_account matches Some(rec) && record_located(before, rec)
        && rec.balance == custody_balance
}

/// Why a withdrawal is refused before any transfer, if it is.
pub open spec fn withdraw_error(ctx: Withdraw, amount: u64) -> Option<VaultError> {
    let rec = ctx.customer_vault_account;
    if amount == 0 {
        Some(VaultError::InvalidWithdrawAmount)
    } else if rec.customer@ != ctx.customer@ {
        Some(VaultError::Unauthorized)
    } else if amount > rec.balance {
        Some(VaultError::InsufficientFunds)
    } else if amount > ctx.vault.total_deposits {
        Some(VaultError::Overflow)
    } else if !authority_reconstructs(
        ctx.program_id@,
        ctx.vault_address@,
        ctx.customer@,
        rec.bump,
        rec.authority@,
    ) {
        Some(VaultError::AuthorityMismatch)
    } else {
        None
    }
}

/// `t` is the transfer of a withdrawal: from the custody account to the
/// customer's account, signed by the program as the record's derived authority.
pub open spec fn withdraw_transfer(ctx: Withdraw, amount: u64, t: TransferRequest) -> bool {
    let rec = ctx.customer_vault_account;
    &&& t.amount == amount
    &&& t.mint == ctx.mint
    &&& t.decimals == ctx.mint_decimals
    &&& t.from == rec.vault_token_account
    &&& t.to == ctx.customer_token_account
    &&& t.authority == rec.authority
    &&& t.signer_seeds matches Some(s) && seeds_view(s@) == with_bump(
        record_seeds(ctx.vault_address@, ctx.customer@),
        rec.bump,
    )
}

/// `after` is the state once a withdrawal of `amount` has been transferred and
/// the custody account read back at `custody_balance`.
pub open spec fn withdrawn(before: Withdraw, amount: u64, custody_balance: u64, after: Withdraw) -> bool {
    let (r0, r1) = (before.customer_vault_account, after.customer_vault_account);
    &&& withdraw_error(before, amount) is None
    &&& after.program_id == before.program_id
    &&& after.vault_address == before.vault_address
    &&& after.customer == before.customer
    &&& after.mint == before.mint
    &&& after.mint_decimals == before.mint_decimals
    &&& after.customer_token_account == before.customer_token_account
    &&& after.vault.manager == before.vault.manager
    &&& after.vault.total_deposits == before.vault.total_deposits - amount
    &&& r1.customer == r0.customer
    &&& r1.vault_token_account == r0.vault_token_account
    &&& r1.authority == r0.authority
    &&& r1.bump == r0.bump
    &&& r1.balance == custody_balance
}

// ---------------------------------------------------------------------------
// Operations
// ---------------------------------------------------------------------------

/// Creates the manager's vault at its derived address, with no deposits.
/// Returns the vault's address; an existing vault is never overwritten.
pub fn initialize_vault(ctx: &mut InitializeVault) -> (r: Result<Key, VaultError>)
    ensures
        r is Err <==> initialize_error(*old(ctx)) is Some,
        r matches Err(e) ==> initialize_error(*old(ctx)) == Some(e) && *final(ctx) == *old(ctx),
        r matches Ok(k) ==> (found_program_address(vault_seeds(old(ctx).manager@), old(ctx).program_id@)
            matches Some(p) && p.0 == k@),
        r is Ok ==> final(ctx).vault == Some(Vault { manager: old(ctx).manager, total_deposits: 0 }),
        r is Ok ==> final(ctx).program_id == old(ctx).program_id && final(ctx).manager == old(
            ctx,
        ).manager,
{
    let seeds = vault_seed_list(&ctx.manager);
    let (address, _bump) = derive_address(&seeds, &ctx.program_id)?;
    if ctx.vault.is_some() {
        return Err(VaultError::AlreadyInitialized);
    }
    ctx.vault = Some(Vault { manager: ctx.manager, total_deposits: 0 });
    Ok(address)
}

/// The customer's record for a deposit: the existing one, or a new one at
/// freshly derived addresses with a zero balance.
fn locate_record(ctx: &Deposit) -> (r: Result<CustomerVaultAccount, VaultError>)
    requires
        match ctx.customer_vault_account {
            Some(rec) => rec.customer@ == ctx.customer@,
            None => true,
        },
    ensures
        r is Err <==> ctx.customer_vault_account is None && (found_program_address(
            record_seeds(ctx.vault_address@, ctx.customer@),
            ctx.program_id@,
        ) is None || found_program_address(
            custody_seeds(ctx.vault_address@, ctx.customer@),
            ctx.program_id@,
        ) is None),
        r matches Err(e) ==> e == VaultError::AddressSpaceExhausted,
        r matches Ok(rec) ==> record_located(*ctx, rec),
{
    match ctx.customer_vault_account {
        Some(rec) => Ok(rec),
        None => {
            let record_seeds = record_seed_list(&ctx.vault_address, &ctx.customer);
            let found = derive_address(&record_seeds, &ctx.program_id);
            let custody_seeds = custody_seed_list(&ctx.vault_address, &ctx.customer);
            let custody = derive_address(&custody_seeds, &ctx.program_id);
            match (found, custody) {
                (Ok((authority, bump)), Ok((custody, _))) => {
                    Ok(
                        CustomerVaultAccount {
                            customer: ctx.customer,
                            vault_token_account: custody,
                            authority,
                            bump,
                            balance: 0,
                        },
                    )
                },
                _ => Err(VaultError::AddressSpaceExhausted),
            }
        },
    }
}

/// Checks a deposit of `amount` and returns the transfer that carries it out.
/// Nothing is changed: once the transfer is done, `settle_deposit` records it.
pub fn deposit(ctx: &Deposit, amount: u64) -> (r: Result<TransferRequest, VaultError>)
    ensures
        r is Err <==> deposit_error(*ctx, amount) is Some,
        r matches Err(e) ==> deposit_error(*ctx, amount) == Some(e),
        r matches Ok(t) ==> deposit_transfer(*ctx, amount, t),
{
    if amount == 0 {
        return Err(VaultError::InvalidDepositAmount);
    }
    if let Some(rec) = &ctx.customer_vault_account {
        if !same_key(&rec.customer, &ctx.customer) {
            return Err(VaultError::Unauthorized);
        }
    }
    let rec = locate_record(ctx)?;
    if ctx.vault.total_deposits.checked_add(amount).is_none() {
        return Err(VaultError::Overflow);
    }
    Ok(
        TransferRequest {
            mint: ctx.mint,
            decimals: ctx.mint_decimals,
            from: ctx.customer_token_account,
            to: rec.vault_token_account,
            authority: ctx.customer,
            signer_seeds: None,
            amount,
        },
    )
}

/// Records a deposit of `amount` once the transfer service reported
/// `outcome`. The recorded balance becomes the custody balance read back;
/// the record is created on the first deposit. A refused deposit or a failed
/// transfer changes nothing.
pub fn settle_deposit(ctx: &mut Deposit, amount: u64, outcome: TransferOutcome) -> (r: Result<
    (),
    VaultError,
>)
    ensures
        r is Err <==> deposit_error(*old(ctx), amount) is Some || outcome is Failed,
        r is Err ==> *final(ctx) == *old(ctx),
        r matches Err(e) ==> match deposit_error(*old(ctx), amount) {
            Some(d) => e == d,
            None => outcome matches TransferOutcome::Failed(t) && e == VaultError::Transfer(t),
        },
        r is Ok ==> (outcome matches TransferOutcome::Completed { custody_balance } && deposited(
            *old(ctx),
            amount,
            custody_balance,
            *final(ctx),
        )),
{
    let _ = deposit(ctx, amount)?;
    let custody_balance = match outcome {
        TransferOutcome::Completed { custody_balance } => custody_balance,
        TransferOutcome::Failed(t) => {
            return Err(VaultError::Transfer(t));
        },
    };
    let mut rec = locate_record(ctx)?;
    let total = match ctx.vault.total_deposits.checked_add(amount) {
        Some(t) => t,
        None => {
            return Err(VaultError::Overflow);
        },
    };
    rec.balance = custody_balance;
    ctx.customer_vault_account = Some(rec);
    ctx.vault.total_deposits = total;
    Ok(())
}

/// Checks a withdrawal of `amount` and returns the transfer that carries it
/// out, signed with the record's reconstructed derived authority. Nothing is
/// changed: once the transfer is done, `settle_withdraw` records it.
pub fn withdraw(ctx: &Withdraw, amount: u64) -> (r: Result<TransferRequest, VaultError>)
    ensures
        r is Err <==> withdraw_error(*ctx, amount) is Some,
        r matches Err(e) ==> withdraw_error(*ctx, amount) == Some(e),
        r matches Ok(t) ==> withdraw_transfer(*ctx, amount, t),
{
    let rec = &ctx.customer_vault_account;
    if amount == 0 {
        return Err(VaultError::InvalidWithdrawAmount);
    }
    if !same_key(&rec.customer, &ctx.customer) {
        return Err(VaultError::Unauthorized);
    }
    if amount > rec.balance {
        return Err(VaultError::InsufficientFunds);
    }
    if ctx.vault.total_deposits.checked_sub(amount).is_none() {
        return Err(VaultError::Overflow);
    }
    let seeds = sign_as(
        &ctx.program_id,
        &ctx.vault_address,
        &ctx.customer,
        rec.bump,
        &rec.authority,
    )?;
    Ok(
        TransferRequest {
            mint: ctx.mint,
            decimals: ctx.mint_decimals,
            from: rec.vault_token_account,
            to: ctx.customer_token_account,
            authority: rec.authority,
            signer_seeds: Some(seeds),
            amount,
        },
    )
}

/// Records a withdrawal of `amount` once the transfer service reported
/// `outcome`. The recorded balance becomes the custody balance read back. A
/// refused withdrawal or a failed transfer changes nothing.
pub fn settle_withdraw(ctx: &mut Withdraw, amount: u64, outcome: TransferOutcome) -> (r: Result<
    (),
    VaultError,
>)
    ensures
        r is Err <==> withdraw_error(*old(ctx), amount) is Some || outcome is Failed,
        r is Err ==> *final(ctx) == *old(ctx),
        r matches Err(e) ==> match withdraw_error(*old(ctx), amount) {
            Some(d) => e == d,
            None => outcome matches TransferOutcome::Failed(t) && e == VaultError::Transfer(t),
        },
        r is Ok ==> (outcome matches TransferOutcome::Completed { custody_balance } && withdrawn(
            *old(ctx),
            amount,
            custody_balance,
            *final(ctx),
        )),
{
    let _ = withdraw(ctx, amount)?;
    let custody_balance = match outcome {
        TransferOutcome::Completed { custody_balance } => custody_balance,
        TransferOutcome::Failed(t) => {
            return Err(VaultError::Transfer(t));
        },
    };
    let total = match ctx.vault.total_deposits.checked_sub(amount) {
        Some(t) => t,
        None => {
            return Err(VaultError::Overflow);
        },
    };
    ctx.customer_vault_account.balance = custody_balance;
    ctx.vault.total_deposits = total;
    Ok(())
}

} // verus!
