//! The rules of the four operations, on the records that an operation reads
//! and writes.
//!
//! A rule takes the context of a call and what stands at the addresses that
//! the context names, and either refuses the call or gives the records to
//! write there and the transfers to make. It decides from these alone; the
//! [ledger's operations](crate::instructions) look the records up, apply the
//! rule and write what it gives.

use crate::accounts::{Authorizer, CreatePool, CreateState, Deposit, TransferChecked, Withdraw};
use crate::address::Address;
use crate::error::AppErrorCode;
use crate::fee::{fee_of, net_of, withdrawal_fee, FULL_RATE};
use crate::slug::{
    encoded, encoded_view, is_slug_of, is_valid_slug, slug_bytes, str_to_slug, valid_slug,
    valid_slug_bytes,
};
use crate::state::{PoolAccount, Record, StateAccount, UserPoolAccount};
use vstd::prelude::*;

verus! {

/// What an accepted deposit gives: the pool and the position as they are to
/// stand, and the transfer that pays for the deposit.
#[derive(Clone, Copy, Debug, PartialEq, Eq)]
pub struct Deposited {
    pub pool: PoolAccount,
    pub position: UserPoolAccount,
    pub transfer: TransferChecked,
}

/// What an accepted withdrawal gives: the pool and the position as they are
/// to stand, and the two transfers that pay the deposit out.
#[derive(Clone, Copy, Debug, PartialEq, Eq)]
pub struct Withdrawn {
    pub pool: PoolAccount,
    pub position: UserPoolAccount,
    /// The deposit less the fee, to the caller's vault.
    pub to_caller: TransferChecked,
    /// The fee, to the pool's fee vault.
    pub to_fee_vault: TransferChecked,
}

/// The result of a rule: what it gives if the call is accepted, and else the
/// reason for which it is refused.
pub open spec fn ruled<T>(check: Result<(), AppErrorCode>, given: T) -> Result<T, AppErrorCode> {
    match check {
        Ok(()) => Ok(given),
        Err(error) => Err(error),
    }
}

/// The pool that `record` is, if it is the pool named `slug`.
pub open spec fn pool_named(record: Option<Record>, slug: Seq<char>) -> Option<PoolAccount> {
    match record {
        Some(Record::Pool(pool)) => if valid_slug(slug) && pool.slug == encoded(slug_bytes(slug)) {
            Some(pool)
        } else {
            None
        },
        _ => None,
    }
}

fn find_pool_named(record: Option<Record>, slug: &str) -> (found: Option<PoolAccount>)
    ensures
        found == pool_named(record, slug@),
{
    match record {
        Some(Record::Pool(pool)) => {
            if is_slug_of(&pool.slug, slug) {
                Some(pool)
            } else {
                None
            }
        },
        _ => None,
    }
}

impl CreateState {
    /// `create_state` is refused where a record already stands at the address
    /// of the authority record.
    pub open spec fn check(&self, standing: Option<Record>) -> Result<(), AppErrorCode> {
        if standing is Some {
            Err(AppErrorCode::AlreadyExists)
        } else {
            Ok(())
        }
    }

    /// The authority record that `create_state` writes: it names the caller.
    pub open spec fn record(&self) -> StateAccount {
        StateAccount { authority: self.authority }
    }

    /// The rule of `create_state`, where `standing` is what stands at the
    /// address of the authority record.
    pub fn apply(&self, standing: Option<Record>) -> (result: Result<StateAccount, AppErrorCode>)
        ensures
            result == ruled(self.check(standing), self.record()),
    {
        if standing.is_some() {
            return Err(AppErrorCode::AlreadyExists);
        }
        Ok(StateAccount { authority: self.authority })
    }
}

impl CreatePool {
    /// When `create_pool` is refused, and why. The first reason that applies
    /// is given: there is no authority record; it names another administrator
    /// than the caller; the slug is no slug; the accepted amount is nothing;
    /// the fee rate is more than the whole; a record already stands at the
    /// pool's address.
    pub open spec fn check(
        &self,
        state: Option<Record>,
        standing: Option<Record>,
        slug: Seq<char>,
        accepted_amount: u64,
        fee_rate: u16,
    ) -> Result<(), AppErrorCode> {
        match state {
            Some(Record::State(state)) => if state.authority != self.authority {
                Err(AppErrorCode::CallerNotAdministrator)
            } else if !valid_slug(slug) {
                Err(AppErrorCode::InvalidSlug)
            } else if accepted_amount == 0 {
                Err(AppErrorCode::InvalidAcceptedAmount)
            } else if fee_rate > FULL_RATE {
                Err(AppErrorCode::InvalidFeeRate)
            } else if standing is Some {
                Err(AppErrorCode::AlreadyExists)
            } else {
                Ok(())
            },
            _ => Err(AppErrorCode::AccountNotInitialized),
        }
    }

    /// The pool that `create_pool` writes: without deposits and without fees.
    pub open spec fn record(&self, slug: Seq<char>, accepted_amount: u64, fee_rate: u16)
        -> PoolAccount {
        PoolAccount {
            authority: self.authority,
            mint: self.mint,
            vault: self.vault,
            fee_vault: self.fee_vault,
            slug: encoded(slug_bytes(slug)),
            accepted_amount,
            total_amount: 0,
            fee_rate,
            fee_amount: 0,
        }
    }

    /// The rule of `create_pool`, where `state` is what stands at the address
    /// of the authority record and `standing` what stands at the pool's.
    pub fn apply(
        &self,
        state: Option<Record>,
        standing: Option<Record>,
        slug: &str,
        accepted_amount: u64,
        fee_rate: u16,
    ) -> (result: Result<PoolAccount, AppErrorCode>)
        ensures
            result == ruled(
                self.check(state, standing, slug@, accepted_amount, fee_rate),
                self.record(slug@, accepted_amount, fee_rate),
            ),
            result is Ok ==> result.unwrap().well_formed(),
    {
        let state = match state {
            Some(Record::State(state)) => state,
            _ => { return Err(AppErrorCode::AccountNotInitialized); },
        };
        if state.authority != self.authority {
            return Err(AppErrorCode::CallerNotAdministrator);
        }
        if !is_valid_slug(slug) {
            return Err(AppErrorCode::InvalidSlug);
        }
        if accepted_amount == 0 {
            return Err(AppErrorCode::InvalidAcceptedAmount);
        }
        if fee_rate > FULL_RATE {
            return Err(AppErrorCode::InvalidFeeRate);
        }
        if standing.is_some() {
            return Err(AppErrorCode::AlreadyExists);
        }
        proof {
            valid_slug_bytes(slug);
            encoded_view(slug_bytes(slug@));
        }
        Ok(
            PoolAccount {
                authority: self.authority,
                mint: self.mint,
                vault: self.vault,
                fee_vault: self.fee_vault,
                slug: str_to_slug(slug),
                accepted_amount,
                total_amount: 0,
                fee_rate,
                fee_amount: 0,
            },
        )
    }
}

impl Deposit {
    /// When `deposit` is refused, and why. The first reason that applies is
    /// given: what stands at the pool's address is not the pool of this slug;
    /// the vault is not the pool's; the asset is not the pool's; the paying
    /// vault is not the caller's; the paying vault holds another asset; what
    /// stands at the position's address is no position, or not the caller's in
    /// this pool; the position still holds a deposit; the pool's total would
    /// overflow.
    pub open spec fn check(&self, pool: Option<Record>, position: Option<Record>, slug: Seq<char>)
        -> Result<(), AppErrorCode> {
        match pool_named(pool, slug) {
            None => Err(AppErrorCode::AccountNotInitialized),
            Some(pool) => if pool.vault != self.vault {
                Err(AppErrorCode::VaultMismatch)
            } else if pool.mint != self.mint.address {
                Err(AppErrorCode::AssetMismatch)
            } else if self.user_vault.owner != self.authority {
                Err(AppErrorCode::Unauthorized)
            } else if self.user_vault.mint != self.mint.address {
                Err(AppErrorCode::AssetMismatch)
            } else {
                match position {
                    Some(Record::UserPool(position)) => if position.pool != self.pool
                        || position.authority != self.authority {
                        Err(AppErrorCode::Unauthorized)
                    } else if position.amount != 0 {
                        Err(AppErrorCode::DuplicateDeposit)
                    } else if pool.total_amount + pool.accepted_amount > u64::MAX {
                        Err(AppErrorCode::AmountOverflow)
                    } else {
                        Ok(())
                    },
                    Some(_) => Err(AppErrorCode::AlreadyExists),
                    None => if pool.total_amount + pool.accepted_amount > u64::MAX {
                        Err(AppErrorCode::AmountOverflow)
                    } else {
                        Ok(())
                    },
                }
            },
        }
    }

    /// What an accepted `deposit` into `pool` gives: the accepted amount is
    /// added to the pool's total and stands in the caller's position; the
    /// transfer brings it from the caller's vault to the pool's, on the
    /// caller's word.
    pub open spec fn deposited(&self, pool: PoolAccount) -> Deposited {
        Deposited {
            pool: PoolAccount {
                total_amount: (pool.total_amount + pool.accepted_amount) as u64,
                ..pool
            },
            position: UserPoolAccount {
                pool: self.pool,
                authority: self.authority,
                amount: pool.accepted_amount,
            },
            transfer: TransferChecked {
                from: self.user_vault.address,
                to: self.vault,
                authorizer: Authorizer::Caller(self.authority),
                mint: self.mint.address,
                amount: pool.accepted_amount,
                decimals: self.mint.decimals,
            },
        }
    }

    /// The rule of `deposit`, where `pool` is what stands at the pool's
    /// address and `position` what stands at the position's.
    pub fn apply(&self, pool: Option<Record>, position: Option<Record>, slug: &str) -> (result:
        Result<Deposited, AppErrorCode>)
        ensures
            result == ruled(
                self.check(pool, position, slug@),
                self.deposited(pool_named(pool, slug@).unwrap()),
            ),
    {
        let pool = match find_pool_named(pool, slug) {
            Some(pool) => pool,
            None => { return Err(AppErrorCode::AccountNotInitialized); },
        };
        if pool.vault != self.vault {
            return Err(AppErrorCode::VaultMismatch);
        }
        if pool.mint != self.mint.address {
            return Err(AppErrorCode::AssetMismatch);
        }
        if self.user_vault.owner != self.authority {
            return Err(AppErrorCode::Unauthorized);
        }
        if self.user_vault.mint != self.mint.address {
            return Err(AppErrorCode::AssetMismatch);
        }
        match position {
            Some(Record::UserPool(position)) => {
                if position.pool != self.pool || position.authority != self.authority {
                    return Err(AppErrorCode::Unauthorized);
                }
                if position.amount != 0 {
                    return Err(AppErrorCode::DuplicateDeposit);
                }
            },
            Some(_) => { return Err(AppErrorCode::AlreadyExists); },
            None => {},
        }
        let total_amount = match pool.total_amount.checked_add(pool.accepted_amount) {
            Some(total_amount) => total_amount,
            None => { return Err(AppErrorCode::AmountOverflow); },
        };
        Ok(
            Deposited {
                pool: PoolAccount { total_amount, ..pool },
                position: UserPoolAccount {
                    pool: self.pool,
                    authority: self.authority,
                    amount: pool.accepted_amount,
                },
                transfer: TransferChecked {
                    from: self.user_vault.address,
                    to: self.vault,
                    authorizer: Authorizer::Caller(self.authority),
                    mint: self.mint.address,
                    amount: pool.accepted_amount,
                    decimals: self.mint.decimals,
                },
            },
        )
    }
}

impl Withdraw {
    /// When `withdraw` is refused, and why. The first reason that applies is
    /// given: what stands at the pool's address is not the pool of this slug;
    /// a vault is not the pool's; the asset is not the pool's; the receiving
    /// vault is not the caller's, or holds another asset; there is no
    /// position; the position is not the caller's in this pool; the position
    /// is empty; the fees taken would overflow.
    pub open spec fn check(&self, pool: Option<Record>, position: Option<Record>, slug: Seq<char>)
        -> Result<(), AppErrorCode> {
        match pool_named(pool, slug) {
            None => Err(AppErrorCode::AccountNotInitialized),
            Some(pool) => if pool.vault != self.vault {
                Err(AppErrorCode::VaultMismatch)
            } else if pool.mint != self.mint.address {
                Err(AppErrorCode::AssetMismatch)
            } else if pool.fee_vault != self.fee_vault {
                Err(AppErrorCode::VaultMismatch)
            } else if self.user_vault.owner != self.authority {
                Err(AppErrorCode::Unauthorized)
            } else if self.user_vault.mint != self.mint.address {
                Err(AppErrorCode::AssetMismatch)
            } else {
                match position {
                    Some(Record::UserPool(position)) => if position.pool != self.pool
                        || position.authority != self.authority {
                        Err(AppErrorCode::Unauthorized)
                    } else if position.amount == 0 {
                        Err(AppErrorCode::NothingToWithdraw)
                    } else if pool.fee_amount + fee_of(position.amount, pool.fee_rate)
                        > u64::MAX {
                        Err(AppErrorCode::AmountOverflow)
                    } else {
                        Ok(())
                    },
                    _ => Err(AppErrorCode::NothingToWithdraw),
                }
            },
        }
    }

    /// A transfer of `amount` out of the pool's deposit vault, on the pool's
    /// own word.
    pub open spec fn payout(&self, pool: PoolAccount, to: Address, amount: int) -> TransferChecked {
        TransferChecked {
            from: self.vault,
            to,
            authorizer: Authorizer::Pool {
                address: self.pool,
                slug: pool.slug,
                bump: self.pool_bump,
            },
            mint: self.mint.address,
            amount: amount as u64,
            decimals: self.mint.decimals,
        }
    }

    /// What an accepted `withdraw` of `position` from `pool` gives: the
    /// position's amount is taken off the pool's total and the fee is added
    /// to the fees taken; the position is empty; the transfers bring the
    /// amount less the fee to the caller's vault and the fee to the fee vault.
    pub open spec fn withdrawn(&self, pool: PoolAccount, position: UserPoolAccount) -> Withdrawn {
        let fee = fee_of(position.amount, pool.fee_rate);
        Withdrawn {
            pool: PoolAccount {
                total_amount: (pool.total_amount - position.amount) as u64,
                fee_amount: (pool.fee_amount + fee) as u64,
                ..pool
            },
            position: UserPoolAccount { amount: 0, ..position },
            to_caller: self.payout(
                pool,
                self.user_vault.address,
                net_of(position.amount, pool.fee_rate),
            ),
            to_fee_vault: self.payout(pool, self.fee_vault, fee),
        }
    }

    /// The records can bear a withdrawal: where they are a pool and a
    /// position, the pool's fee rate is a share, and the pool holds what the
    /// position claims if the position is in this pool. This holds of the
    /// records of every ledger.
    pub open spec fn covered(&self, pool: Option<Record>, position: Option<Record>) -> bool {
        match (pool, position) {
            (Some(Record::Pool(pool)), Some(Record::UserPool(position))) => {
                &&& pool.fee_rate <= FULL_RATE
                &&& position.pool == self.pool ==> position.amount <= pool.total_amount
            },
            _ => true,
        }
    }

    /// Whether the records can bear a withdrawal.
    pub fn is_covered(&self, pool: &Option<Record>, position: &Option<Record>) -> (r: bool)
        ensures
            r == self.covered(*pool, *position),
    {
        match (pool, position) {
            (Some(Record::Pool(pool)), Some(Record::UserPool(position))) => {
                pool.fee_rate <= FULL_RATE && (position.pool != self.pool || position.amount
                    <= pool.total_amount)
            },
            _ => true,
        }
    }

    /// The rule of `withdraw`, where `pool` is what stands at the pool's
    /// address and `position` what stands at the position's.
    pub fn apply(&self, pool: Option<Record>, position: Option<Record>, slug: &str) -> (result:
        Result<Withdrawn, AppErrorCode>)
        requires
            self.covered(pool, position),
        ensures
            result == ruled(
                self.check(pool, position, slug@),
                self.withdrawn(pool_named(pool, slug@).unwrap(), position.unwrap()->UserPool_0),
            ),
    {
        let pool = match find_pool_named(pool, slug) {
            Some(pool) => pool,
            None => { return Err(AppErrorCode::AccountNotInitialized); },
        };
        if pool.vault != self.vault {
            return Err(AppErrorCode::VaultMismatch);
        }
        if pool.mint != self.mint.address {
            return Err(AppErrorCode::AssetMismatch);
        }
        if pool.fee_vault != self.fee_vault {
            return Err(AppErrorCode::VaultMismatch);
        }
        if self.user_vault.owner != self.authority {
            return Err(AppErrorCode::Unauthorized);
        }
        if self.user_vault.mint != self.mint.address {
            return Err(AppErrorCode::AssetMismatch);
        }
        let position = match position {
            Some(Record::UserPool(position)) => position,
            _ => { return Err(AppErrorCode::NothingToWithdraw); },
        };
        if position.pool != self.pool || position.authority != self.authority {
            return Err(AppErrorCode::Unauthorized);
        }
        if position.amount == 0 {
            return Err(AppErrorCode::NothingToWithdraw);
        }
        let fee = withdrawal_fee(position.amount, pool.fee_rate);
        let fee_amount = match pool.fee_amount.checked_add(fee) {
            Some(fee_amount) => fee_amount,
            None => { return Err(AppErrorCode::AmountOverflow); },
        };
        let authorizer = Authorizer::Pool {
            address: self.pool,
            slug: pool.slug,
            bump: self.pool_bump,
        };
        Ok(
            Withdrawn {
                pool: PoolAccount {
                    total_amount: pool.total_amount - position.amount,
                    fee_amount,
                    ..pool
                },
                position: UserPoolAccount { amount: 0, ..position },
                to_caller: TransferChecked {
                    from: self.vault,
                    to: self.user_vault.address,
                    authorizer,
                    mint: self.mint.address,
                    amount: position.amount - fee,
                    decimals: self.mint.decimals,
                },
                to_fee_vault: TransferChecked {
                    from: self.vault,
                    to: self.fee_vault,
                    authorizer,
                    mint: self.mint.address,
                    amount: fee,
                    decimals: self.mint.decimals,
                },
            },
        )
    }
}

} // verus!
