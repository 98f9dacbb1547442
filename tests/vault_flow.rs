use asset_manager_vault::address::{derive_address, record_seed_list, same_key, sign_as, Key};
use asset_manager_vault::error::{TransferError, VaultError};
use asset_manager_vault::vault::{
    deposit, initialize_vault, settle_deposit, settle_withdraw, withdraw, CustomerVaultAccount,
    Deposit, InitializeVault, TransferOutcome, Vault, Withdraw,
};

fn key(b: u8) -> Key {
    Key { bytes: [b; 32] }
}

fn program() -> Key {
    key(7)
}

fn manager() -> Key {
    key(1)
}

fn vault_address() -> Key {
    let mut ctx = InitializeVault { program_id: program(), manager: manager(), vault: None };
    initialize_vault(&mut ctx).unwrap()
}

fn deposit_ctx(customer: Key, total: u64, record: Option<CustomerVaultAccount>) -> Deposit {
    Deposit {
        program_id: program(),
        vault_address: vault_address(),
        vault: Vault { manager: manager(), total_deposits: total },
        customer,
        mint: key(9),
        mint_decimals: 6,
        customer_token_account: key(20),
        customer_vault_account: record,
    }
}

fn withdraw_ctx(d: &Deposit, customer: Key) -> Withdraw {
    Withdraw {
        program_id: d.program_id,
        vault_address: d.vault_address,
        vault: d.vault,
        customer,
        mint: d.mint,
        mint_decimals: d.mint_decimals,
        customer_token_account: key(21),
        customer_vault_account: d.customer_vault_account.unwrap(),
    }
}

/// A customer's record after a first deposit of `amount` into a vault whose
/// total was `total`.
fn funded(customer: Key, total: u64, amount: u64) -> Deposit {
    let mut d = deposit_ctx(customer, total, None);
    settle_deposit(&mut d, amount, TransferOutcome::Completed { custody_balance: amount }).unwrap();
    d
}

#[test]
fn initialize_creates_empty_vault() {
    let mut ctx = InitializeVault { program_id: program(), manager: manager(), vault: None };
    let address = initialize_vault(&mut ctx).unwrap();
    assert_eq!(ctx.vault, Some(Vault { manager: manager(), total_deposits: 0 }));
    assert_ne!(address, manager());
    assert_ne!(address, program());
}

#[test]
fn initialize_twice_is_rejected() {
    let mut ctx = InitializeVault { program_id: program(), manager: manager(), vault: None };
    initialize_vault(&mut ctx).unwrap();
    let before = ctx;
    assert_eq!(initialize_vault(&mut ctx), Err(VaultError::AlreadyInitialized));
    assert_eq!(ctx, before);
}

#[test]
fn vault_address_depends_on_manager() {
    let mut a = InitializeVault { program_id: program(), manager: manager(), vault: None };
    let mut b = InitializeVault { program_id: program(), manager: manager(), vault: None };
    let mut c = InitializeVault { program_id: program(), manager: key(2), vault: None };
    let ka = initialize_vault(&mut a).unwrap();
    let kb = initialize_vault(&mut b).unwrap();
    let kc = initialize_vault(&mut c).unwrap();
    assert_eq!(ka, kb);
    assert_ne!(ka, kc);
}

#[test]
fn first_deposit_creates_record() {
    let mut d = deposit_ctx(key(2), 5, None);
    let t = deposit(&d, 100).unwrap();
    assert_eq!(t.amount, 100);
    assert_eq!(t.from, key(20));
    assert_eq!(t.authority, key(2));
    assert_eq!(t.decimals, 6);
    assert!(t.signer_seeds.is_none());
    settle_deposit(&mut d, 100, TransferOutcome::Completed { custody_balance: 100 }).unwrap();
    let rec = d.customer_vault_account.unwrap();
    assert_eq!(rec.balance, 100);
    assert_eq!(rec.customer, key(2));
    assert_eq!(rec.vault_token_account, t.to);
    assert_ne!(rec.authority, rec.vault_token_account);
    assert_eq!(d.vault.total_deposits, 105);
}

#[test]
fn second_deposit_keeps_record_addresses() {
    let mut d = funded(key(2), 0, 40);
    let first = d.customer_vault_account.unwrap();
    let t = deposit(&d, 60).unwrap();
    assert_eq!(t.to, first.vault_token_account);
    settle_deposit(&mut d, 60, TransferOutcome::Completed { custody_balance: 100 }).unwrap();
    let rec = d.customer_vault_account.unwrap();
    assert_eq!(rec.vault_token_account, first.vault_token_account);
    assert_eq!(rec.authority, first.authority);
    assert_eq!(rec.bump, first.bump);
    assert_eq!(rec.balance, 100);
    assert_eq!(d.vault.total_deposits, 100);
}

#[test]
fn recorded_balance_mirrors_custody_balance() {
    let mut d = funded(key(2), 0, 40);
    settle_deposit(&mut d, 10, TransferOutcome::Completed { custody_balance: 75 }).unwrap();
    assert_eq!(d.customer_vault_account.unwrap().balance, 75);
    let mut w = withdraw_ctx(&d, key(2));
    settle_withdraw(&mut w, 5, TransferOutcome::Completed { custody_balance: 68 }).unwrap();
    assert_eq!(w.customer_vault_account.balance, 68);
}

#[test]
fn zero_deposit_is_rejected() {
    let mut d = deposit_ctx(key(2), 5, None);
    assert_eq!(deposit(&d, 0), Err(VaultError::InvalidDepositAmount));
    let before = d;
    let r = settle_deposit(&mut d, 0, TransferOutcome::Completed { custody_balance: 0 });
    assert_eq!(r, Err(VaultError::InvalidDepositAmount));
    assert_eq!(d, before);
    assert_eq!(d.vault.total_deposits, 5);
}

#[test]
fn zero_withdraw_is_rejected() {
    let d = funded(key(2), 0, 50);
    let w = withdraw_ctx(&d, key(2));
    assert_eq!(withdraw(&w, 0), Err(VaultError::InvalidWithdrawAmount));
}

#[test]
fn deposit_into_record_of_another_customer_is_rejected() {
    let a = funded(key(2), 0, 50);
    let d = deposit_ctx(key(3), 50, a.customer_vault_account);
    assert_eq!(deposit(&d, 10), Err(VaultError::Unauthorized));
}

#[test]
fn unauthorized_withdraw_is_rejected() {
    let a = funded(key(2), 0, 50);
    let mut w = withdraw_ctx(&a, key(3));
    assert_eq!(withdraw(&w, 10), Err(VaultError::Unauthorized));
    let before = w;
    let r = settle_withdraw(&mut w, 10, TransferOutcome::Completed { custody_balance: 40 });
    assert_eq!(r, Err(VaultError::Unauthorized));
    assert_eq!(w, before);
}

#[test]
fn insufficient_funds_withdraw_is_rejected() {
    let d = funded(key(2), 0, 50);
    let mut w = withdraw_ctx(&d, key(2));
    assert_eq!(withdraw(&w, 100), Err(VaultError::InsufficientFunds));
    let r = settle_withdraw(&mut w, 100, TransferOutcome::Completed { custody_balance: 0 });
    assert_eq!(r, Err(VaultError::InsufficientFunds));
    assert_eq!(w.customer_vault_account.balance, 50);
}

#[test]
fn deposit_withdraw_round_trip() {
    let mut d = funded(key(2), 30, 20);
    let total0 = d.vault.total_deposits;
    let balance0 = d.customer_vault_account.unwrap().balance;
    settle_deposit(&mut d, 100, TransferOutcome::Completed { custody_balance: balance0 + 100 })
        .unwrap();
    let mut w = withdraw_ctx(&d, key(2));
    settle_withdraw(&mut w, 100, TransferOutcome::Completed { custody_balance: balance0 }).unwrap();
    assert_eq!(w.customer_vault_account.balance, balance0);
    assert_eq!(w.vault.total_deposits, total0);
}

#[test]
fn deposit_overflow_is_rejected() {
    let mut d = deposit_ctx(key(2), u64::MAX - 10, None);
    assert_eq!(deposit(&d, 11), Err(VaultError::Overflow));
    let before = d;
    let r = settle_deposit(&mut d, 11, TransferOutcome::Completed { custody_balance: 11 });
    assert_eq!(r, Err(VaultError::Overflow));
    assert_eq!(d, before);
    assert!(deposit(&d, 10).is_ok());
}

#[test]
fn withdraw_below_zero_total_is_rejected() {
    let d = funded(key(2), 0, 50);
    let mut w = withdraw_ctx(&d, key(2));
    w.vault.total_deposits = 5;
    assert_eq!(withdraw(&w, 10), Err(VaultError::Overflow));
    let before = w;
    let r = settle_withdraw(&mut w, 10, TransferOutcome::Completed { custody_balance: 40 });
    assert_eq!(r, Err(VaultError::Overflow));
    assert_eq!(w, before);
    assert_eq!(w.vault.total_deposits, 5);
}

#[test]
fn failed_transfer_changes_nothing() {
    let mut d = deposit_ctx(key(2), 5, None);
    let before = d;
    let r = settle_deposit(&mut d, 10, TransferOutcome::Failed(TransferError::InsufficientFunds));
    assert_eq!(r, Err(VaultError::Transfer(TransferError::InsufficientFunds)));
    assert_eq!(d, before);
    let f = funded(key(2), 0, 50);
    let mut w = withdraw_ctx(&f, key(2));
    let wbefore = w;
    let r = settle_withdraw(&mut w, 10, TransferOutcome::Failed(TransferError::AuthorityRejected));
    assert_eq!(r, Err(VaultError::Transfer(TransferError::AuthorityRejected)));
    assert_eq!(w, wbefore);
}

#[test]
fn withdraw_signs_with_record_seeds() {
    let d = funded(key(2), 0, 50);
    let w = withdraw_ctx(&d, key(2));
    let rec = w.customer_vault_account;
    let t = withdraw(&w, 30).unwrap();
    assert_eq!(t.from, rec.vault_token_account);
    assert_eq!(t.to, key(21));
    assert_eq!(t.authority, rec.authority);
    assert_eq!(t.amount, 30);
    let seeds = t.signer_seeds.unwrap();
    assert_eq!(seeds.len(), 5);
    assert_eq!(seeds[0], b"vault".to_vec());
    assert_eq!(seeds[1], b"customer".to_vec());
    assert_eq!(seeds[2], w.vault_address.bytes.to_vec());
    assert_eq!(seeds[3], key(2).bytes.to_vec());
    assert_eq!(seeds[4], vec![rec.bump]);
}

#[test]
fn wrong_bump_is_an_authority_mismatch() {
    let d = funded(key(2), 0, 50);
    let mut w = withdraw_ctx(&d, key(2));
    w.customer_vault_account.bump = w.customer_vault_account.bump.wrapping_sub(1);
    assert_eq!(withdraw(&w, 10), Err(VaultError::AuthorityMismatch));
}

#[test]
fn derived_address_reconstructs() {
    let vault = vault_address();
    let seeds = record_seed_list(&vault, &key(2));
    let (address, bump) = derive_address(&seeds, &program()).unwrap();
    assert_ne!(address, vault);
    assert_ne!(address, key(2));
    let again = derive_address(&seeds, &program()).unwrap();
    assert_eq!(again, (address, bump));
    let signer = sign_as(&program(), &vault, &key(2), bump, &address).unwrap();
    assert_eq!(signer.len(), 5);
    assert_eq!(sign_as(&program(), &vault, &key(3), bump, &address), Err(VaultError::AuthorityMismatch));
    assert_eq!(sign_as(&program(), &vault, &key(2), bump, &vault), Err(VaultError::AuthorityMismatch));
}

#[test]
fn keys_compare_by_bytes() {
    let mut k = key(4);
    assert!(same_key(&k, &key(4)));
    k.bytes[31] = 5;
    assert!(!same_key(&k, &key(4)));
}

#[test]
fn errors_have_messages() {
    assert_eq!(VaultError::InvalidDepositAmount.message(), "Deposit amount must be greater than zero.");
    assert_eq!(VaultError::Overflow.message(), "Arithmetic overflow.");
}
