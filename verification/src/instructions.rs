//! The four operations of the service.
//!
//! Each operation is stated twice: as spec functions on the ledger's model,
//! which say when it is refused (`.._check`) and what it writes (`.._effect`),
//! and as the function that carries it out on a [`Ledger`]. A refused
//! operation leaves the ledger as it was.
//!
//! Moving the asset is the host's work. `deposit` and `withdraw` write the
//! records as they stand once the transfers are made and hand the transfers
//! back; [`settle`] keeps the new ledger if the host made them and the old
//! one if it could not.

use crate::accounts::{CreatePool, CreateState, Deposit, TransferChecked, Withdraw};
use crate::error::AppErrorCode;
use crate::ledger::{
    pool_at, position_at, positions_total_bounds, put, record_at, record_well_formed, slot_of,
    well_formed, well_formed_with_move, well_formed_with_pool, well_formed_with_state, Entry,
    Ledger,
};
use crate::rules::{ruled, Deposited, Withdrawn};
use crate::state::Record;
use vstd::prelude::*;

verus! {

/// The ledger after an operation: what the operation writes if it is
/// accepted, and the ledger as it was if it is refused.
pub open spec fn outcome<T>(
    result: Result<T, AppErrorCode>,
    before: Seq<Entry>,
    effect: Seq<Entry>,
) -> Seq<Entry> {
    if result is Ok {
        effect
    } else {
        before
    }
}

/// When `create_state` is refused, and why: the rule, on what stands at the
/// address of the authority record.
pub open spec fn create_state_check(s: Seq<Entry>, ctx: CreateState) -> Result<(), AppErrorCode> {
    ctx.check(record_at(s, ctx.state))
}

/// `create_state` writes the authority record at its address.
pub open spec fn create_state_effect(s: Seq<Entry>, ctx: CreateState) -> Seq<Entry> {
    put(s, ctx.state, Record::State(ctx.record()))
}

/// Makes the caller the administrator. This works once: afterwards the
/// authority record stands, and the call is refused with `AlreadyExists`.
pub fn create_state(ledger: &mut Ledger, ctx: &CreateState) -> (result: Result<(), AppErrorCode>)
    ensures
        result == create_state_check(old(ledger)@, *ctx),
        final(ledger)@ == outcome(result, old(ledger)@, create_state_effect(old(ledger)@, *ctx)),
{
    proof {
        use_type_invariant(&*ledger);
    }
    match ctx.apply(ledger.get(&ctx.state)) {
        Ok(state) => {
            proof {
                well_formed_with_state(ledger@, ctx.state, state);
            }
            ledger.write(ctx.state, Record::State(state));
            Ok(())
        },
        Err(error) => Err(error),
    }
}

/// When `create_pool` is refused, and why: the rule, on what stands at the
/// address of the authority record and at the pool's.
pub open spec fn create_pool_check(
    s: Seq<Entry>,
    ctx: CreatePool,
    slug: Seq<char>,
    accepted_amount: u64,
    fee_rate: u16,
) -> Result<(), AppErrorCode> {
    ctx.check(record_at(s, ctx.state), record_at(s, ctx.pool), slug, accepted_amount, fee_rate)
}

/// `create_pool` writes the new pool at the pool's address.
pub open spec fn create_pool_effect(
    s: Seq<Entry>,
    ctx: CreatePool,
    slug: Seq<char>,
    accepted_amount: u64,
    fee_rate: u16,
) -> Seq<Entry> {
    put(s, ctx.pool, Record::Pool(ctx.record(slug, accepted_amount, fee_rate)))
}

/// Opens the pool named `slug`, which takes `accepted_amount` per deposit and
/// keeps `fee_rate` basis points of a withdrawal. Only the administrator may do
/// so, and once for each slug. The two vaults that the context names are the
/// pool's from then on; they are for the host to open, under the pool's
/// address.
pub fn create_pool(
    ledger: &mut Ledger,
    ctx: &CreatePool,
    slug: &str,
    accepted_amount: u64,
    fee_rate: u16,
) -> (result: Result<(), AppErrorCode>)
    ensures
        result == create_pool_check(old(ledger)@, *ctx, slug@, accepted_amount, fee_rate),
        final(ledger)@ == outcome(
            result,
            old(ledger)@,
            create_pool_effect(old(ledger)@, *ctx, slug@, accepted_amount, fee_rate),
        ),
{
    proof {
        use_type_invariant(&*ledger);
    }
    let state = ledger.get(&ctx.state);
    let standing = ledger.get(&ctx.pool);
    match ctx.apply(state, standing, slug, accepted_amount, fee_rate) {
        Ok(pool) => {
            proof {
                well_formed_with_pool(ledger@, ctx.pool, pool);
            }
            ledger.write(ctx.pool, Record::Pool(pool));
            Ok(())
        },
        Err(error) => Err(error),
    }
}

/// When `deposit` is refused, and why: the rule, on what stands at the pool's
/// address and at the position's.
pub open spec fn deposit_check(s: Seq<Entry>, ctx: Deposit, slug: Seq<char>) -> Result<
    (),
    AppErrorCode,
> {
    ctx.check(record_at(s, ctx.pool), record_at(s, ctx.user_pool), slug)
}

/// What the rule gives for an accepted `deposit`.
pub open spec fn deposit_given(s: Seq<Entry>, ctx: Deposit) -> Deposited {
    ctx.deposited(pool_at(s, ctx.pool).unwrap())
}

/// An accepted `deposit` writes the pool and the position that the rule
/// gives.
pub open spec fn deposit_effect(s: Seq<Entry>, ctx: Deposit) -> Seq<Entry> {
    put(
        put(s, ctx.pool, Record::Pool(deposit_given(s, ctx).pool)),
        ctx.user_pool,
        Record::UserPool(deposit_given(s, ctx).position),
    )
}

/// Deposits the pool's accepted amount for the caller, whose position in the
/// pool must be empty or new. Hands back the transfer that pays for it.
pub fn deposit(ledger: &mut Ledger, ctx: &Deposit, slug: &str) -> (result: Result<
    TransferChecked,
    AppErrorCode,
>)
    ensures
        result == ruled(
            deposit_check(old(ledger)@, *ctx, slug@),
            deposit_given(old(ledger)@, *ctx).transfer,
        ),
        final(ledger)@ == outcome(result, old(ledger)@, deposit_effect(old(ledger)@, *ctx)),
{
    proof {
        use_type_invariant(&*ledger);
    }
    let pool = ledger.get(&ctx.pool);
    let position = ledger.get(&ctx.user_pool);
    match ctx.apply(pool, position, slug) {
        Ok(given) => {
            proof {
                assert(record_well_formed(ledger@, ctx.pool));
                well_formed_with_move(
                    ledger@,
                    ctx.pool,
                    given.pool,
                    ctx.user_pool,
                    given.position,
                );
            }
            ledger.write_both(
                ctx.pool,
                Record::Pool(given.pool),
                ctx.user_pool,
                Record::UserPool(given.position),
            );
            Ok(given.transfer)
        },
        Err(error) => Err(error),
    }
}

/// When `withdraw` is refused, and why: the rule, on what stands at the
/// pool's address and at the position's.
pub open spec fn withdraw_check(s: Seq<Entry>, ctx: Withdraw, slug: Seq<char>) -> Result<
    (),
    AppErrorCode,
> {
    ctx.check(record_at(s, ctx.pool), record_at(s, ctx.user_pool), slug)
}

/// What the rule gives for an accepted `withdraw`.
pub open spec fn withdraw_given(s: Seq<Entry>, ctx: Withdraw) -> Withdrawn {
    ctx.withdrawn(pool_at(s, ctx.pool).unwrap(), position_at(s, ctx.user_pool).unwrap())
}

/// An accepted `withdraw` writes the pool and the position that the rule
/// gives.
pub open spec fn withdraw_effect(s: Seq<Entry>, ctx: Withdraw) -> Seq<Entry> {
    put(
        put(s, ctx.pool, Record::Pool(withdraw_given(s, ctx).pool)),
        ctx.user_pool,
        Record::UserPool(withdraw_given(s, ctx).position),
    )
}

/// In a well-formed ledger the pool at the pool's address holds what the
/// position at the position's address claims, if that position is in that
/// pool.
pub proof fn ledger_covers(s: Seq<Entry>, ctx: Withdraw)
    requires
        well_formed(s),
    ensures
        ctx.covered(record_at(s, ctx.pool), record_at(s, ctx.user_pool)),
{
    assert(record_well_formed(s, ctx.pool));
    if position_at(s, ctx.user_pool) is Some {
        positions_total_bounds(s, slot_of(s, ctx.user_pool), ctx.pool);
    }
}

/// Withdraws the caller's deposit from the pool. Hands back the two transfers
/// that pay it out: the deposit less the fee to the caller, then the fee to
/// the fee vault.
pub fn withdraw(ledger: &mut Ledger, ctx: &Withdraw, slug: &str) -> (result: Result<
    (TransferChecked, TransferChecked),
    AppErrorCode,
>)
    ensures
        result == ruled(
            withdraw_check(old(ledger)@, *ctx, slug@),
            (
                withdraw_given(old(ledger)@, *ctx).to_caller,
                withdraw_given(old(ledger)@, *ctx).to_fee_vault,
            ),
        ),
        final(ledger)@ == outcome(result, old(ledger)@, withdraw_effect(old(ledger)@, *ctx)),
{
    proof {
        use_type_invariant(&*ledger);
        ledger_covers(ledger@, *ctx);
    }
    let pool = ledger.get(&ctx.pool);
    let position = ledger.get(&ctx.user_pool);
    match ctx.apply(pool, position, slug) {
        Ok(given) => {
            proof {
                assert(record_well_formed(ledger@, ctx.pool));
                well_formed_with_move(
                    ledger@,
                    ctx.pool,
                    given.pool,
                    ctx.user_pool,
                    given.position,
                );
            }
            ledger.write_both(
                ctx.pool,
                Record::Pool(given.pool),
                ctx.user_pool,
                Record::UserPool(given.position),
            );
            Ok((given.to_caller, given.to_fee_vault))
        },
        Err(error) => Err(error),
    }
}

/// Closes an operation whose transfers the host has tried to make. If it
/// made them, the ledger is the one that the operation wrote; if it could
/// not, the ledger is the one from before the operation and the gateway's
/// error is handed on.
pub fn settle(before: Ledger, after: Ledger, made: Result<(), u64>) -> (settled: (
    Ledger,
    Result<(), AppErrorCode>,
))
    ensures
        settled.0 == (if made is Ok {
            after
        } else {
            before
        }),
        settled.1 == (match made {
            Ok(()) => Ok::<(), AppErrorCode>(()),
            Err(code) => Err(AppErrorCode::Transfer(code)),
        }),
{
    match made {
        Ok(()) => (after, Ok(())),
        Err(code) => (before, Err(AppErrorCode::Transfer(code))),
    }
}

} // verus!
