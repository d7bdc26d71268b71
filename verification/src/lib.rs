//! A custodial pool service: an administrator opens deposit pools, each taking
//! one fixed amount of one asset from any participant, and pays a deposit back
//! to its owner less a fee.
//!
//! - [`address`]: identities, and their derivation from a namespace tag and
//!   seeds.
//! - [`slug`]: the names of pools, and their fixed-width encoding.
//! - [`fee`]: the fee on a withdrawal.
//! - [`state`]: the records: the authority record, pools and positions.
//! - [`accounts`]: the context of a call, given or resolved from the slug and
//!   the caller.
//! - [`rules`]: what each operation decides, from the records that it reads.
//! - [`ledger`]: the records at their addresses, with the invariant that ties
//!   the total of a pool to its positions.
//! - [`instructions`]: the operations on a ledger.
//! - [`laws`]: what holds of the operations over any run of calls.
//!
//! Moving the asset itself is the host's work: `deposit` and `withdraw` hand
//! back the transfers to make.

pub mod accounts;
pub mod address;
pub mod error;
pub mod fee;
pub mod instructions;
pub mod laws;
pub mod ledger;
pub mod rules;
pub mod slug;
pub mod state;

pub use accounts::{
    Authorizer, CreatePool, CreateState, Deposit, Mint, TokenAccount, TransferChecked, Withdraw,
};
pub use address::{program_address, Address, FEE_VAULT, ID, POOL, STATE, USER_POOL, VAULT};
pub use error::AppErrorCode;
pub use fee::{fee_of, net_of, withdrawal_fee, FULL_RATE};
pub use instructions::{create_pool, create_state, deposit, settle, withdraw};
pub use ledger::{Entry, Ledger};
pub use rules::{Deposited, Withdrawn};
pub use slug::{is_valid_slug, str_to_slug, SLUG_LENGTH};
pub use state::{PoolAccount, Record, StateAccount, UserPoolAccount};
