//! The records that the ledger keeps.

use crate::address::Address;
use crate::fee::FULL_RATE;
use crate::slug::{is_encoded_slug, SLUG_LENGTH};
use vstd::prelude::*;

verus! {

/// The authority record: who administers the service. There is one, at the
/// address of the `STATE` namespace; once written it never changes.
#[derive(Clone, Copy, Debug, PartialEq, Eq)]
pub struct StateAccount {
    /// The administrator.
    pub authority: Address,
}

/// A pool: one asset, one fixed amount per deposit, one fee rate.
#[derive(Clone, Copy, Debug, PartialEq, Eq)]
pub struct PoolAccount {
    /// The administrator who opened the pool.
    pub authority: Address,
    /// The asset that the pool holds.
    pub mint: Address,
    /// The vault that holds the deposits.
    pub vault: Address,
    /// The vault that collects the fees.
    pub fee_vault: Address,
    /// The pool's slug, zero-padded to `SLUG_LENGTH` bytes.
    pub slug: [u8; SLUG_LENGTH],
    /// The one amount that a deposit brings.
    pub accepted_amount: u64,
    /// The sum of the deposits that have not been withdrawn.
    pub total_amount: u64,
    /// The fee on a withdrawal, in basis points.
    pub fee_rate: u16,
    /// The sum of the fees taken so far.
    pub fee_amount: u64,
}

/// The position of one participant in one pool.
#[derive(Clone, Copy, Debug, PartialEq, Eq)]
pub struct UserPoolAccount {
    /// The address of the pool.
    pub pool: Address,
    /// The participant.
    pub authority: Address,
    /// What the participant has in the pool: nothing, or the pool's accepted
    /// amount.
    pub amount: u64,
}

/// A record of any of the three kinds.
#[derive(Clone, Copy, Debug, PartialEq, Eq)]
pub enum Record {
    State(StateAccount),
    Pool(PoolAccount),
    UserPool(UserPoolAccount),
}

impl PoolAccount {
    /// What holds of a pool by itself: it accepts more than nothing, its fee
    /// rate is a share, and its slug is the encoding of a slug.
    pub open spec fn well_formed(&self) -> bool {
        &&& self.accepted_amount > 0
        &&& self.fee_rate <= FULL_RATE
        &&& is_encoded_slug(self.slug@)
    }
}

} // verus!
