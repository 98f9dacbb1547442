use vstd::prelude::*;

verus! {

/// Why the asset transfer service refused to move funds.
#[derive(Clone, Copy, Debug, PartialEq, Eq, Structural)]
pub enum TransferError {
    InsufficientFunds,
    InvalidAsset,
    AuthorityRejected,
}

/// The failures that the vault reports to its callers.
#[derive(Clone, Copy, Debug, PartialEq, Eq, Structural)]
pub enum VaultError {
    /// A deposit of zero.
    InvalidDepositAmount,
    /// A withdrawal of zero.
    InvalidWithdrawAmount,
    /// The mint does not match the custody token account.
    InvalidATAMint,
    /// A withdrawal larger than the recorded balance.
    InsufficientFunds,
    /// The deposit total would leave the range of `u64`.
    Overflow,
    /// The caller is not the customer of record.
    Unauthorized,
    /// The custody token account is not the one of record.
    InvalidTokenAccount,
    /// The stored derivation does not reconstruct the authority's address.
    AuthorityMismatch,
    /// No disambiguation byte gives a valid derived address.
    AddressSpaceExhausted,
    /// A vault already exists at the derived address.
    AlreadyInitialized,
    /// The transfer service refused the transfer.
    Transfer(TransferError),
}

impl VaultError {
    /// A human-readable description of the error.
    pub fn message(&self) -> (r: String) {
        match self {
            VaultError::InvalidDepositAmount => "Deposit amount must be greater than zero.".to_string(),
            VaultError::InvalidWithdrawAmount => "Withdraw amount must be greater than zero.".to_string(),
            VaultError::InvalidATAMint => "Invalid mint for the associated token account.".to_string(),
            VaultError::InsufficientFunds => "Insufficient funds to withdraw.".to_string(),
            VaultError::Overflow => "Arithmetic overflow.".to_string(),
            VaultError::Unauthorized => "Unauthorized access.".to_string(),
            VaultError::InvalidTokenAccount => "Invalid token account.".to_string(),
            VaultError::AuthorityMismatch => "Derived authority does not match its seeds.".to_string(),
            VaultError::AddressSpaceExhausted => "No valid derived address for these seeds.".to_string(),
            VaultError::AlreadyInitialized => "Vault already initialized.".to_string(),
            VaultError::Transfer(_) => "Token transfer failed.".to_string(),
        }
    }
}

} // verus!
