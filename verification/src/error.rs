//! The ways in which an operation fails.

use vstd::prelude::*;

verus! {

/// Why an operation was refused. Whatever the reason, the ledger is left as
/// it was.
#[derive(Clone, Copy, Debug, PartialEq, Eq, Structural)]
pub enum AppErrorCode {
    /// The slug is empty, too long, or holds something else than letters,
    /// digits and hyphens.
    InvalidSlug,
    /// A pool must accept more than nothing.
    InvalidAcceptedAmount,
    /// A fee rate is at most `FULL_RATE` basis points.
    InvalidFeeRate,
    /// A record already stands at the address where one was to be created.
    AlreadyExists,
    /// The participant's deposit in this pool has not been withdrawn yet.
    DuplicateDeposit,
    /// The participant has no deposit in this pool.
    NothingToWithdraw,
    /// The caller is not the administrator that the authority record names.
    CallerNotAdministrator,
    /// A vault given with the call is not the one that the pool names.
    VaultMismatch,
    /// An asset given with the call is not the one that the pool holds.
    AssetMismatch,
    /// A vault or a position given with the call belongs to somebody else.
    Unauthorized,
    /// No record of the kind that the operation needs stands at the address
    /// given for it.
    AccountNotInitialized,
    /// A running total of the pool would no longer fit in 64 bits.
    AmountOverflow,
    /// The transfer gateway refused a transfer; this is its own error code.
    Transfer(u64),
}

impl AppErrorCode {
    /// A short text for the error.
    pub fn message(&self) -> (text: String)
        ensures
            text@ == match *self {
                AppErrorCode::InvalidSlug => "Invalid slug"@,
                AppErrorCode::InvalidAcceptedAmount => "Invalid accepted amount"@,
                AppErrorCode::InvalidFeeRate => "Invalid fee rate"@,
                AppErrorCode::AlreadyExists => "Record already exists"@,
                AppErrorCode::DuplicateDeposit => "User already deposited"@,
                AppErrorCode::NothingToWithdraw => "User not deposited"@,
                AppErrorCode::CallerNotAdministrator => "Caller is not the administrator"@,
                AppErrorCode::VaultMismatch => "Invalid vault"@,
                AppErrorCode::AssetMismatch => "Invalid mint"@,
                AppErrorCode::Unauthorized => "Unauthorized"@,
                AppErrorCode::AccountNotInitialized => "Account not initialized"@,
                AppErrorCode::AmountOverflow => "Amount overflow"@,
                AppErrorCode::Transfer(_) => "Transfer failed"@,
            },
    {
        match self {
            AppErrorCode::InvalidSlug => "Invalid slug".to_owned(),
            AppErrorCode::InvalidAcceptedAmount => "Invalid accepted amount".to_owned(),
            AppErrorCode::InvalidFeeRate => "Invalid fee rate".to_owned(),
            AppErrorCode::AlreadyExists => "Record already exists".to_owned(),
            AppErrorCode::DuplicateDeposit => "User already deposited".to_owned(),
            AppErrorCode::NothingToWithdraw => "User not deposited".to_owned(),
            AppErrorCode::CallerNotAdministrator => "Caller is not the administrator".to_owned(),
            AppErrorCode::VaultMismatch => "Invalid vault".to_owned(),
            AppErrorCode::AssetMismatch => "Invalid mint".to_owned(),
            AppErrorCode::Unauthorized => "Unauthorized".to_owned(),
            AppErrorCode::AccountNotInitialized => "Account not initialized".to_owned(),
            AppErrorCode::AmountOverflow => "Amount overflow".to_owned(),
            AppErrorCode::Transfer(_) => "Transfer failed".to_owned(),
        }
    }
}

} // verus!
