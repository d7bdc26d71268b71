//! What comes with a call: the identities of the caller and of the vaults and
//! asset it names, and the addresses of the records that the call is about.
//!
//! A context is either resolved here, which derives the addresses of the
//! records from the encoded slug and the caller, or filled in by a host that has
//! resolved them itself. Whoever fills one in vouches for it: that the caller
//! is who the context says, and that the addresses are those of the slug and
//! the caller.

use crate::address::{
    derivable, derive_for_participant, derive_for_slug, derive_tagged, derives,
    derives_address, fee_vault_seeds, pool_seeds, state_seeds, user_pool_seeds, vault_seeds,
    Address, FEE_VAULT, POOL, STATE, USER_POOL, VAULT,
};
use crate::slug::{encoded_view, str_to_slug, zero_padded, SLUG_LENGTH};
use vstd::prelude::*;
use vstd::string::*;

verus! {

/// An asset, as the host describes it.
#[derive(Clone, Copy, Debug, PartialEq, Eq)]
pub struct Mint {
    pub address: Address,
    /// The number of decimals of the asset's amounts.
    pub decimals: u8,
}

/// A vault of a participant, as the host describes it.
#[derive(Clone, Copy, Debug, PartialEq, Eq)]
pub struct TokenAccount {
    pub address: Address,
    /// The asset that the vault holds.
    pub mint: Address,
    /// Who may spend from the vault.
    pub owner: Address,
}

/// Who stands behind a transfer.
#[derive(Clone, Copy, Debug, PartialEq, Eq)]
pub enum Authorizer {
    /// The caller, by its own credential.
    Caller(Address),
    /// A pool, by the seeds from which its address is derived: the `POOL` tag,
    /// the pool's encoded slug and the bump seed. Nobody holds a key for it.
    Pool { address: Address, slug: [u8; SLUG_LENGTH], bump: u8 },
}

/// A transfer for the host to make: `amount` of `mint` from one vault to
/// another.
#[derive(Clone, Copy, Debug, PartialEq, Eq)]
pub struct TransferChecked {
    pub from: Address,
    pub to: Address,
    pub authorizer: Authorizer,
    pub mint: Address,
    pub amount: u64,
    pub decimals: u8,
}

/// The context of `create_state`.
#[derive(Clone, Copy, Debug, PartialEq, Eq)]
pub struct CreateState {
    /// The caller, who becomes the administrator.
    pub authority: Address,
    /// Where the authority record is to stand.
    pub state: Address,
}

/// The context of `create_pool`.
#[derive(Clone, Copy, Debug, PartialEq, Eq)]
pub struct CreatePool {
    /// The caller.
    pub authority: Address,
    /// Where the authority record stands.
    pub state: Address,
    /// Where the pool is to stand.
    pub pool: Address,
    /// The pool's deposit vault.
    pub vault: Address,
    /// The pool's fee vault.
    pub fee_vault: Address,
    /// The asset of the pool.
    pub mint: Address,
}

/// The context of `deposit`.
#[derive(Clone, Copy, Debug, PartialEq, Eq)]
pub struct Deposit {
    /// Where the pool stands.
    pub pool: Address,
    /// The asset that the caller brings.
    pub mint: Mint,
    /// The vault that the caller takes for the pool's deposit vault.
    pub vault: Address,
    /// The caller.
    pub authority: Address,
    /// Where the caller's position in the pool stands, or is to stand.
    pub user_pool: Address,
    /// The vault that pays the deposit.
    pub user_vault: TokenAccount,
}

/// The context of `withdraw`.
#[derive(Clone, Copy, Debug, PartialEq, Eq)]
pub struct Withdraw {
    /// Where the pool stands.
    pub pool: Address,
    /// The bump seed of the pool's address.
    pub pool_bump: u8,
    /// The asset that the caller expects.
    pub mint: Mint,
    /// The vault that the caller takes for the pool's deposit vault.
    pub vault: Address,
    /// The vault that the caller takes for the pool's fee vault.
    pub fee_vault: Address,
    /// The caller.
    pub authority: Address,
    /// The vault that receives the deposit back.
    pub user_vault: TokenAccount,
    /// Where the caller's position in the pool stands.
    pub user_pool: Address,
}

impl CreateState {
    /// The context is that of a call by `authority`.
    pub open spec fn resolved(&self, authority: Address) -> bool {
        &&& self.authority == authority
        &&& derives_address(state_seeds(), self.state)
    }

    /// The context of a call by `authority`, unless no address can be derived.
    pub fn resolve(authority: Address) -> (ctx: Option<CreateState>)
        ensures
            match ctx {
                Some(ctx) => ctx.resolved(authority),
                None => !derivable(state_seeds()),
            },
    {
        match derive_tagged(STATE) {
            Some((state, _)) => Some(CreateState { authority, state }),
            None => None,
        }
    }
}

impl CreatePool {
    /// The context is that of a call by `authority` for the asset `mint` and
    /// the slug whose bytes are `slug`.
    pub open spec fn resolved(&self, authority: Address, mint: Address, slug: Seq<u8>) -> bool {
        &&& self.authority == authority
        &&& self.mint == mint
        &&& derives_address(state_seeds(), self.state)
        &&& derives_address(pool_seeds(zero_padded(slug)), self.pool)
        &&& derives_address(vault_seeds(zero_padded(slug)), self.vault)
        &&& derives_address(fee_vault_seeds(zero_padded(slug)), self.fee_vault)
    }

    /// The context of such a call. There is none where the slug is longer
    /// than `SLUG_LENGTH` bytes, or one of the addresses cannot be derived.
    pub fn resolve(authority: Address, mint: Address, slug: &str) -> (ctx: Option<CreatePool>)
        ensures
            match ctx {
                Some(ctx) => slug.spec_bytes().len() <= SLUG_LENGTH && ctx.resolved(
                    authority,
                    mint,
                    slug.spec_bytes(),
                ),
                None => {
                    ||| slug.spec_bytes().len() > SLUG_LENGTH
                    ||| !derivable(state_seeds())
                    ||| !derivable(pool_seeds(zero_padded(slug.spec_bytes())))
                    ||| !derivable(vault_seeds(zero_padded(slug.spec_bytes())))
                    ||| !derivable(fee_vault_seeds(zero_padded(slug.spec_bytes())))
                },
            },
    {
        if slug.as_bytes().len() > SLUG_LENGTH {
            return None;
        }
        let data = str_to_slug(slug);
        proof {
            encoded_view(slug.spec_bytes());
        }
        let state = match derive_tagged(STATE) {
            Some((state, _)) => state,
            None => { return None; },
        };
        let pool = match derive_for_slug(POOL, &data) {
            Some((pool, _)) => pool,
            None => { return None; },
        };
        let vault = match derive_for_slug(VAULT, &data) {
            Some((vault, _)) => vault,
            None => { return None; },
        };
        let fee_vault = match derive_for_slug(FEE_VAULT, &data) {
            Some((fee_vault, _)) => fee_vault,
            None => { return None; },
        };
        Some(CreatePool { authority, state, pool, vault, fee_vault, mint })
    }
}

impl Deposit {
    /// The context is that of a call by `authority`, who names the asset
    /// `mint`, the deposit vault `vault` and the paying vault `user_vault`,
    /// for the slug whose bytes are `slug`.
    pub open spec fn resolved(
        &self,
        authority: Address,
        mint: Mint,
        vault: Address,
        user_vault: TokenAccount,
        slug: Seq<u8>,
    ) -> bool {
        &&& self.authority == authority
        &&& self.mint == mint
        &&& self.vault == vault
        &&& self.user_vault == user_vault
        &&& derives_address(pool_seeds(zero_padded(slug)), self.pool)
        &&& derives_address(user_pool_seeds(zero_padded(slug), authority), self.user_pool)
    }

    /// The context of such a call. There is none where the slug is longer
    /// than `SLUG_LENGTH` bytes, or one of the addresses cannot be derived.
    pub fn resolve(
        authority: Address,
        mint: Mint,
        vault: Address,
        user_vault: TokenAccount,
        slug: &str,
    ) -> (ctx: Option<Deposit>)
        ensures
            match ctx {
                Some(ctx) => slug.spec_bytes().len() <= SLUG_LENGTH && ctx.resolved(
                    authority,
                    mint,
                    vault,
                    user_vault,
                    slug.spec_bytes(),
                ),
                None => {
                    ||| slug.spec_bytes().len() > SLUG_LENGTH
                    ||| !derivable(pool_seeds(zero_padded(slug.spec_bytes())))
                    ||| !derivable(user_pool_seeds(zero_padded(slug.spec_bytes()), authority))
                },
            },
    {
        if slug.as_bytes().len() > SLUG_LENGTH {
            return None;
        }
        let data = str_to_slug(slug);
        proof {
            encoded_view(slug.spec_bytes());
        }
        let pool = match derive_for_slug(POOL, &data) {
            Some((pool, _)) => pool,
            None => { return None; },
        };
        let user_pool = match derive_for_participant(USER_POOL, &data, &authority) {
            Some((user_pool, _)) => user_pool,
            None => { return None; },
        };
        Some(Deposit { pool, mint, vault, authority, user_pool, user_vault })
    }
}

impl Withdraw {
    /// The context is that of a call by `authority`, who names the asset
    /// `mint`, the vaults `vault` and `fee_vault` and the receiving vault
    /// `user_vault`, for the slug whose bytes are `slug`.
    pub open spec fn resolved(
        &self,
        authority: Address,
        mint: Mint,
        vault: Address,
        fee_vault: Address,
        user_vault: TokenAccount,
        slug: Seq<u8>,
    ) -> bool {
        &&& self.authority == authority
        &&& self.mint == mint
        &&& self.vault == vault
        &&& self.fee_vault == fee_vault
        &&& self.user_vault == user_vault
        &&& derives(pool_seeds(zero_padded(slug)), self.pool, self.pool_bump)
        &&& derives_address(user_pool_seeds(zero_padded(slug), authority), self.user_pool)
    }

    /// The context of such a call. There is none where the slug is longer
    /// than `SLUG_LENGTH` bytes, or one of the addresses cannot be derived.
    pub fn resolve(
        authority: Address,
        mint: Mint,
        vault: Address,
        fee_vault: Address,
        user_vault: TokenAccount,
        slug: &str,
    ) -> (ctx: Option<Withdraw>)
        ensures
            match ctx {
                Some(ctx) => slug.spec_bytes().len() <= SLUG_LENGTH && ctx.resolved(
                    authority,
                    mint,
                    vault,
                    fee_vault,
                    user_vault,
                    slug.spec_bytes(),
                ),
                None => {
                    ||| slug.spec_bytes().len() > SLUG_LENGTH
                    ||| !derivable(pool_seeds(zero_padded(slug.spec_bytes())))
                    ||| !derivable(user_pool_seeds(zero_padded(slug.spec_bytes()), authority))
                },
            },
    {
        if slug.as_bytes().len() > SLUG_LENGTH {
            return None;
        }
        let data = str_to_slug(slug);
        proof {
            encoded_view(slug.spec_bytes());
        }
        let (pool, pool_bump) = match derive_for_slug(POOL, &data) {
            Some(found) => found,
            None => { return None; },
        };
        let user_pool = match derive_for_participant(USER_POOL, &data, &authority) {
            Some((user_pool, _)) => user_pool,
            None => { return None; },
        };
        Some(Withdraw { pool, pool_bump, mint, vault, fee_vault, authority, user_vault, user_pool })
    }
}

} // verus!
