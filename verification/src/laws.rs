//! What holds of the operations, whatever the ledger and whoever calls.

use crate::accounts::{
    Authorizer, CreatePool, CreateState, Deposit, Mint, TokenAccount, Withdraw,
};
use crate::address::{
    derivation_is_a_function, derives, derives_address, pool_seeds, state_seeds,
    user_pool_seeds, Address,
};
use crate::error::AppErrorCode;
use crate::fee::{fee_is_a_share, fee_of, FULL_RATE};
use crate::instructions::{
    create_pool_check, create_pool_effect, create_state_check, create_state_effect,
    deposit_check, deposit_effect, deposit_given, ledger_covers, outcome, withdraw_check,
    withdraw_effect, withdraw_given,
};
use crate::ledger::{
    holds, pool_at, position_at, put, record_at, record_at_put, record_well_formed, state_at,
    well_formed, well_formed_with_move, well_formed_with_pool, well_formed_with_state, Entry,
};
use crate::rules::pool_named;
use crate::slug::{
    encoded, encoded_view, slug_bytes, valid_slug, valid_slug_bytes, zero_padded,
};
use crate::state::{PoolAccount, Record, StateAccount};
use vstd::prelude::*;
use vstd::string::*;

verus! {

/// One call of the service.
pub enum Operation {
    /// `create_state` with its context.
    CreateState(CreateState),
    /// `create_pool` with its context, the slug, the accepted amount and the
    /// fee rate.
    CreatePool(CreatePool, Seq<char>, u64, u16),
    /// `deposit` with its context and the slug.
    Deposit(Deposit, Seq<char>),
    /// `withdraw` with its context and the slug.
    Withdraw(Withdraw, Seq<char>),
}

/// The ledger after `operation`, once its transfers are made.
pub open spec fn applied(s: Seq<Entry>, operation: Operation) -> Seq<Entry> {
    match operation {
        Operation::CreateState(ctx) => outcome(
            create_state_check(s, ctx),
            s,
            create_state_effect(s, ctx),
        ),
        Operation::CreatePool(ctx, slug, accepted_amount, fee_rate) => outcome(
            create_pool_check(s, ctx, slug, accepted_amount, fee_rate),
            s,
            create_pool_effect(s, ctx, slug, accepted_amount, fee_rate),
        ),
        Operation::Deposit(ctx, slug) => outcome(
            deposit_check(s, ctx, slug),
            s,
            deposit_effect(s, ctx),
        ),
        Operation::Withdraw(ctx, slug) => outcome(
            withdraw_check(s, ctx, slug),
            s,
            withdraw_effect(s, ctx),
        ),
    }
}

/// `after` is the pool `before` at a later time: only its total and the fees
/// taken may differ, and the fees have not gone down.
pub open spec fn same_pool_later(before: PoolAccount, after: PoolAccount) -> bool {
    &&& after.authority == before.authority
    &&& after.mint == before.mint
    &&& after.vault == before.vault
    &&& after.fee_vault == before.fee_vault
    &&& after.slug == before.slug
    &&& after.accepted_amount == before.accepted_amount
    &&& after.fee_rate == before.fee_rate
    &&& after.fee_amount >= before.fee_amount
}

/// What the record at `address` in `before` has become in `after`, a later
/// ledger: an authority record is as it was, a pool is the same pool later,
/// and a position is still that participant's in that pool.
pub open spec fn record_lasts(before: Seq<Entry>, after: Seq<Entry>, address: Address) -> bool {
    match record_at(before, address) {
        None => true,
        Some(Record::State(state)) => state_at(after, address) == Some(state),
        Some(Record::Pool(pool)) => pool_at(after, address) is Some && same_pool_later(
            pool,
            pool_at(after, address).unwrap(),
        ),
        Some(Record::UserPool(position)) => {
            &&& position_at(after, address) is Some
            &&& position_at(after, address).unwrap().pool == position.pool
            &&& position_at(after, address).unwrap().authority == position.authority
        },
    }
}

/// `after` is a later ledger of `before`: every record lasts.
pub open spec fn later(before: Seq<Entry>, after: Seq<Entry>) -> bool {
    forall|address: Address| #[trigger] record_lasts(before, after, address)
}

/// The states of a ledger over a run of calls: each state comes from the one
/// before it by the call in between, or is the same where the host could not
/// make the transfers of that call.
pub open spec fn history(states: Seq<Seq<Entry>>, operations: Seq<Operation>) -> bool {
    &&& states.len() == operations.len() + 1
    &&& forall|k: int|
        0 <= k < operations.len() ==> (#[trigger] states[k + 1]) == applied(
            states[k],
            operations[k],
        ) || states[k + 1] == states[k]
}

/// Creating the authority record keeps the ledger well formed and loses no
/// record.
pub proof fn create_state_keeps(s: Seq<Entry>, ctx: CreateState)
    requires
        well_formed(s),
    ensures
        well_formed(outcome(create_state_check(s, ctx), s, create_state_effect(s, ctx))),
        later(s, outcome(create_state_check(s, ctx), s, create_state_effect(s, ctx))),
{
    let t = outcome(create_state_check(s, ctx), s, create_state_effect(s, ctx));
    if create_state_check(s, ctx) is Ok {
        let state = ctx.record();
        well_formed_with_state(s, ctx.state, state);
        assert forall|address: Address| #[trigger] record_lasts(s, t, address) by {
            record_at_put(s, ctx.state, Record::State(state), address);
        }
    }
}

/// After `create_state` the caller is the administrator, and a second call is
/// refused: the authority record is written once.
pub proof fn create_state_once(s: Seq<Entry>, ctx: CreateState, again: CreateState)
    requires
        well_formed(s),
        create_state_check(s, ctx) is Ok,
        again.state == ctx.state,
    ensures
        state_at(create_state_effect(s, ctx), ctx.state) == Some(
            StateAccount { authority: ctx.authority },
        ),
        create_state_check(create_state_effect(s, ctx), again) == Err::<(), AppErrorCode>(
            AppErrorCode::AlreadyExists,
        ),
{
    record_at_put(s, ctx.state, Record::State(ctx.record()), ctx.state);
}

/// There is one authority record: whoever calls `create_state`, the context
/// resolved for the call names the same address, so once one caller has
/// become the administrator every later call is refused with `AlreadyExists`
/// and the administrator stays.
pub proof fn create_state_once_for_all(
    s: Seq<Entry>,
    ctx: CreateState,
    first: Address,
    again: CreateState,
    second: Address,
)
    requires
        well_formed(s),
        ctx.resolved(first),
        again.resolved(second),
        create_state_check(s, ctx) is Ok,
    ensures
        create_state_check(create_state_effect(s, ctx), again) == Err::<(), AppErrorCode>(
            AppErrorCode::AlreadyExists,
        ),
        state_at(
            outcome(
                create_state_check(create_state_effect(s, ctx), again),
                create_state_effect(s, ctx),
                create_state_effect(create_state_effect(s, ctx), again),
            ),
            again.state,
        ) == Some(StateAccount { authority: first }),
{
    derivation_is_a_function(state_seeds(), ctx.state, again.state);
    create_state_once(s, ctx, again);
}

/// Opening a pool keeps the ledger well formed and loses no record.
pub proof fn create_pool_keeps(
    s: Seq<Entry>,
    ctx: CreatePool,
    slug: Seq<char>,
    accepted_amount: u64,
    fee_rate: u16,
)
    requires
        well_formed(s),
    ensures
        well_formed(
            outcome(
                create_pool_check(s, ctx, slug, accepted_amount, fee_rate),
                s,
                create_pool_effect(s, ctx, slug, accepted_amount, fee_rate),
            ),
        ),
        later(
            s,
            outcome(
                create_pool_check(s, ctx, slug, accepted_amount, fee_rate),
                s,
                create_pool_effect(s, ctx, slug, accepted_amount, fee_rate),
            ),
        ),
{
    let t = create_pool_effect(s, ctx, slug, accepted_amount, fee_rate);
    if create_pool_check(s, ctx, slug, accepted_amount, fee_rate) is Ok {
        let pool = ctx.record(slug, accepted_amount, fee_rate);
        encoded_view(slug_bytes(slug));
        well_formed_with_pool(s, ctx.pool, pool);
        assert forall|address: Address| #[trigger] record_lasts(s, t, address) by {
            record_at_put(s, ctx.pool, Record::Pool(pool), address);
        }
    }
}

/// A pool that has just been opened holds no deposits and no fees, and takes
/// the amount and the rate it was opened with. Its address is taken from then
/// on: when the administrator opens a pool there again, for whatever asset
/// and on whatever terms that are in order, the call is refused with
/// `AlreadyExists`.
pub proof fn create_pool_once(
    s: Seq<Entry>,
    ctx: CreatePool,
    slug: Seq<char>,
    accepted_amount: u64,
    fee_rate: u16,
    again: CreatePool,
    again_slug: Seq<char>,
    again_amount: u64,
    again_rate: u16,
)
    requires
        well_formed(s),
        create_pool_check(s, ctx, slug, accepted_amount, fee_rate) is Ok,
        again.state == ctx.state,
        again.pool == ctx.pool,
        again.authority == ctx.authority,
        valid_slug(again_slug),
        again_amount > 0,
        again_rate <= FULL_RATE,
    ensures
        ({
            let t = create_pool_effect(s, ctx, slug, accepted_amount, fee_rate);
            &&& pool_at(t, ctx.pool) is Some
            &&& pool_at(t, ctx.pool).unwrap().total_amount == 0
            &&& pool_at(t, ctx.pool).unwrap().fee_amount == 0
            &&& pool_at(t, ctx.pool).unwrap().accepted_amount == accepted_amount
            &&& pool_at(t, ctx.pool).unwrap().fee_rate == fee_rate
            &&& create_pool_check(t, again, again_slug, again_amount, again_rate) == Err::<
                (),
                AppErrorCode,
            >(AppErrorCode::AlreadyExists)
        }),
{
    let pool = ctx.record(slug, accepted_amount, fee_rate);
    record_at_put(s, ctx.pool, Record::Pool(pool), ctx.pool);
    record_at_put(s, ctx.pool, Record::Pool(pool), ctx.state);
}

/// The same slug gives the same pool: two contexts that are resolved for one
/// slug name the same addresses, so once the administrator has opened the
/// pool of a slug, a second `create_pool` for that slug is refused with
/// `AlreadyExists`.
pub proof fn create_pool_once_for_a_slug(
    s: Seq<Entry>,
    ctx: CreatePool,
    slug: &str,
    accepted_amount: u64,
    fee_rate: u16,
    again: CreatePool,
    again_mint: Address,
    again_amount: u64,
    again_rate: u16,
)
    requires
        well_formed(s),
        ctx.resolved(ctx.authority, ctx.mint, slug.spec_bytes()),
        again.resolved(ctx.authority, again_mint, slug.spec_bytes()),
        create_pool_check(s, ctx, slug@, accepted_amount, fee_rate) is Ok,
        again_amount > 0,
        again_rate <= FULL_RATE,
    ensures
        create_pool_check(
            create_pool_effect(s, ctx, slug@, accepted_amount, fee_rate),
            again,
            slug@,
            again_amount,
            again_rate,
        ) == Err::<(), AppErrorCode>(AppErrorCode::AlreadyExists),
{
    derivation_is_a_function(state_seeds(), ctx.state, again.state);
    derivation_is_a_function(pool_seeds(zero_padded(slug.spec_bytes())), ctx.pool, again.pool);
    create_pool_once(
        s,
        ctx,
        slug@,
        accepted_amount,
        fee_rate,
        again,
        slug@,
        again_amount,
        again_rate,
    );
}

/// The administrator who gives something that is no slug is refused with
/// `InvalidSlug`, and no record is written.
pub proof fn create_pool_refuses_bad_slug(
    s: Seq<Entry>,
    ctx: CreatePool,
    slug: Seq<char>,
    accepted_amount: u64,
    fee_rate: u16,
)
    requires
        state_at(s, ctx.state) is Some,
        state_at(s, ctx.state).unwrap().authority == ctx.authority,
        !valid_slug(slug),
    ensures
        create_pool_check(s, ctx, slug, accepted_amount, fee_rate) == Err::<(), AppErrorCode>(
            AppErrorCode::InvalidSlug,
        ),
        outcome(
            create_pool_check(s, ctx, slug, accepted_amount, fee_rate),
            s,
            create_pool_effect(s, ctx, slug, accepted_amount, fee_rate),
        ) == s,
{
}

/// The administrator who asks for a fee rate above the whole, for a slug and
/// an accepted amount that are in order, is refused with `InvalidFeeRate`, and
/// no record is written.
pub proof fn create_pool_refuses_high_rate(
    s: Seq<Entry>,
    ctx: CreatePool,
    slug: Seq<char>,
    accepted_amount: u64,
    fee_rate: u16,
)
    requires
        state_at(s, ctx.state) is Some,
        state_at(s, ctx.state).unwrap().authority == ctx.authority,
        valid_slug(slug),
        accepted_amount > 0,
        fee_rate > FULL_RATE,
    ensures
        create_pool_check(s, ctx, slug, accepted_amount, fee_rate) == Err::<(), AppErrorCode>(
            AppErrorCode::InvalidFeeRate,
        ),
        outcome(
            create_pool_check(s, ctx, slug, accepted_amount, fee_rate),
            s,
            create_pool_effect(s, ctx, slug, accepted_amount, fee_rate),
        ) == s,
{
}

/// A deposit keeps the ledger well formed and loses no record.
pub proof fn deposit_keeps(s: Seq<Entry>, ctx: Deposit, slug: Seq<char>)
    requires
        well_formed(s),
    ensures
        well_formed(outcome(deposit_check(s, ctx, slug), s, deposit_effect(s, ctx))),
        later(s, outcome(deposit_check(s, ctx, slug), s, deposit_effect(s, ctx))),
{
    if deposit_check(s, ctx, slug) is Ok {
        let pool_after = deposit_given(s, ctx).pool;
        let position = deposit_given(s, ctx).position;
        let t = put(s, ctx.pool, Record::Pool(pool_after));
        let u = deposit_effect(s, ctx);
        assert(record_well_formed(s, ctx.pool));
        well_formed_with_move(s, ctx.pool, pool_after, ctx.user_pool, position);
        assert forall|address: Address| #[trigger] record_lasts(s, u, address) by {
            record_at_put(s, ctx.pool, Record::Pool(pool_after), address);
            record_at_put(t, ctx.user_pool, Record::UserPool(position), address);
        }
    }
}

/// After an accepted deposit the caller's position holds the pool's accepted
/// amount and the pool's total has grown by it; a second deposit before a
/// withdrawal is refused with `DuplicateDeposit`.
pub proof fn deposit_once(s: Seq<Entry>, ctx: Deposit, slug: Seq<char>)
    requires
        well_formed(s),
        deposit_check(s, ctx, slug) is Ok,
    ensures
        ({
            let pool = pool_at(s, ctx.pool).unwrap();
            let t = deposit_effect(s, ctx);
            &&& position_at(t, ctx.user_pool) is Some
            &&& position_at(t, ctx.user_pool).unwrap().amount == pool.accepted_amount
            &&& pool_at(t, ctx.pool) is Some
            &&& pool_at(t, ctx.pool).unwrap().total_amount == pool.total_amount
                + pool.accepted_amount
            &&& deposit_check(t, ctx, slug) == Err::<(), AppErrorCode>(
                AppErrorCode::DuplicateDeposit,
            )
        }),
{
    let pool_after = deposit_given(s, ctx).pool;
    let position = deposit_given(s, ctx).position;
    let t = put(s, ctx.pool, Record::Pool(pool_after));
    assert(record_well_formed(s, ctx.pool));
    record_at_put(s, ctx.pool, Record::Pool(pool_after), ctx.pool);
    record_at_put(s, ctx.pool, Record::Pool(pool_after), ctx.user_pool);
    record_at_put(t, ctx.user_pool, Record::UserPool(position), ctx.pool);
    record_at_put(t, ctx.user_pool, Record::UserPool(position), ctx.user_pool);
}

/// A withdrawal keeps the ledger well formed and loses no record.
pub proof fn withdraw_keeps(s: Seq<Entry>, ctx: Withdraw, slug: Seq<char>)
    requires
        well_formed(s),
    ensures
        well_formed(outcome(withdraw_check(s, ctx, slug), s, withdraw_effect(s, ctx))),
        later(s, outcome(withdraw_check(s, ctx, slug), s, withdraw_effect(s, ctx))),
{
    if withdraw_check(s, ctx, slug) is Ok {
        withdraw_accounts(s, ctx, slug);
        let pool_after = withdraw_given(s, ctx).pool;
        let position_after = withdraw_given(s, ctx).position;
        let t = put(s, ctx.pool, Record::Pool(pool_after));
        let u = withdraw_effect(s, ctx);
        assert(record_well_formed(s, ctx.pool));
        well_formed_with_move(s, ctx.pool, pool_after, ctx.user_pool, position_after);
        assert forall|address: Address| #[trigger] record_lasts(s, u, address) by {
            record_at_put(s, ctx.pool, Record::Pool(pool_after), address);
            record_at_put(t, ctx.user_pool, Record::UserPool(position_after), address);
        }
    }
}

/// The accounts of an accepted withdrawal of the amount `A` at the rate `F`:
/// the fee is `A * F / 10000` rounded down, the caller gets the rest, and the
/// two make `A`; the pool's total goes down by `A`, which it holds, and the
/// fees taken go up by the fee; the position is empty.
pub proof fn withdraw_accounts(s: Seq<Entry>, ctx: Withdraw, slug: Seq<char>)
    requires
        well_formed(s),
        withdraw_check(s, ctx, slug) is Ok,
    ensures
        ({
            let pool = pool_at(s, ctx.pool).unwrap();
            let position = position_at(s, ctx.user_pool).unwrap();
            let t = withdraw_effect(s, ctx);
            let to_caller = withdraw_given(s, ctx).to_caller;
            let to_fee_vault = withdraw_given(s, ctx).to_fee_vault;
            &&& to_fee_vault.amount == fee_of(position.amount, pool.fee_rate)
            &&& to_caller.amount == position.amount - to_fee_vault.amount
            &&& to_caller.amount + to_fee_vault.amount == position.amount
            &&& position.amount <= pool.total_amount
            &&& pool_at(t, ctx.pool) is Some
            &&& pool_at(t, ctx.pool).unwrap().total_amount == pool.total_amount - position.amount
            &&& pool_at(t, ctx.pool).unwrap().fee_amount == pool.fee_amount + to_fee_vault.amount
            &&& position_at(t, ctx.user_pool) is Some
            &&& position_at(t, ctx.user_pool).unwrap().amount == 0
        }),
{
    let pool = pool_at(s, ctx.pool).unwrap();
    let position = position_at(s, ctx.user_pool).unwrap();
    assert(record_well_formed(s, ctx.pool));
    fee_is_a_share(position.amount, pool.fee_rate);
    ledger_covers(s, ctx);
    let pool_after = withdraw_given(s, ctx).pool;
    let position_after = withdraw_given(s, ctx).position;
    let t = put(s, ctx.pool, Record::Pool(pool_after));
    record_at_put(s, ctx.pool, Record::Pool(pool_after), ctx.pool);
    record_at_put(s, ctx.pool, Record::Pool(pool_after), ctx.user_pool);
    record_at_put(t, ctx.user_pool, Record::UserPool(position_after), ctx.pool);
    record_at_put(t, ctx.user_pool, Record::UserPool(position_after), ctx.user_pool);
}

/// An accepted withdrawal pays out on the pool's own word: both transfers
/// leave the pool's deposit vault and name the pool, its encoded slug and the
/// bump seed of its address, and from the `POOL` tag and that slug the pool's
/// address is derived, with that bump seed.
/// No credential of the caller or of the administrator stands behind them.
pub proof fn withdrawal_is_authorized_by_the_pool(s: Seq<Entry>, ctx: Withdraw, slug: &str)
    requires
        ctx.resolved(
            ctx.authority,
            ctx.mint,
            ctx.vault,
            ctx.fee_vault,
            ctx.user_vault,
            slug.spec_bytes(),
        ),
        withdraw_check(s, ctx, slug@) is Ok,
    ensures
        ({
            let given = withdraw_given(s, ctx);
            let pool = Authorizer::Pool {
                address: ctx.pool,
                slug: encoded(slug.spec_bytes()),
                bump: ctx.pool_bump,
            };
            &&& given.to_caller.authorizer == pool
            &&& given.to_fee_vault.authorizer == pool
            &&& given.to_caller.from == pool_at(s, ctx.pool).unwrap().vault
            &&& given.to_fee_vault.from == pool_at(s, ctx.pool).unwrap().vault
            &&& given.to_caller.to == ctx.user_vault.address
            &&& given.to_fee_vault.to == pool_at(s, ctx.pool).unwrap().fee_vault
            &&& derives(pool_seeds(encoded(slug.spec_bytes())@), ctx.pool, ctx.pool_bump)
        }),
{
    valid_slug_bytes(slug);
    encoded_view(slug.spec_bytes());
}

/// An accepted deposit is paid on the caller's word, from the caller's own
/// vault into the pool's deposit vault.
pub proof fn deposit_is_authorized_by_the_caller(s: Seq<Entry>, ctx: Deposit, slug: Seq<char>)
    requires
        deposit_check(s, ctx, slug) is Ok,
    ensures
        ({
            let transfer = deposit_given(s, ctx).transfer;
            &&& transfer.authorizer == Authorizer::Caller(ctx.authority)
            &&& ctx.user_vault.owner == ctx.authority
            &&& transfer.from == ctx.user_vault.address
            &&& transfer.to == pool_at(s, ctx.pool).unwrap().vault
            &&& transfer.mint == pool_at(s, ctx.pool).unwrap().mint
            &&& transfer.amount == pool_at(s, ctx.pool).unwrap().accepted_amount
        }),
{
}

/// A withdrawal from a position that holds nothing is refused, and nothing is
/// written. Where the vaults and the asset given with the call are those of
/// the pool and the caller, and the position is the caller's in this pool, the
/// reason is `NothingToWithdraw`.
pub proof fn withdraw_refuses_empty_position(s: Seq<Entry>, ctx: Withdraw, slug: Seq<char>)
    requires
        position_at(s, ctx.user_pool) is Some,
        position_at(s, ctx.user_pool).unwrap().amount == 0,
    ensures
        withdraw_check(s, ctx, slug) is Err,
        outcome(withdraw_check(s, ctx, slug), s, withdraw_effect(s, ctx)) == s,
        ({
            let position = position_at(s, ctx.user_pool).unwrap();
            &&& pool_named(record_at(s, ctx.pool), slug) matches Some(pool)
            &&& pool.vault == ctx.vault
            &&& pool.fee_vault == ctx.fee_vault
            &&& pool.mint == ctx.mint.address
            &&& ctx.user_vault.owner == ctx.authority
            &&& ctx.user_vault.mint == ctx.mint.address
            &&& position.pool == ctx.pool
            &&& position.authority == ctx.authority
        }) ==> withdraw_check(s, ctx, slug) == Err::<(), AppErrorCode>(
            AppErrorCode::NothingToWithdraw,
        ),
{
}

/// Deposit, withdraw, deposit: after a withdrawal the same participant can
/// deposit again, with the call of the first time. The position is the same
/// record, at the same address, and holds the accepted amount once more.
pub proof fn deposit_again_after_withdraw(
    s: Seq<Entry>,
    first: Deposit,
    back: Withdraw,
    slug: Seq<char>,
)
    requires
        well_formed(s),
        back.pool == first.pool,
        back.user_pool == first.user_pool,
        deposit_check(s, first, slug) is Ok,
        withdraw_check(deposit_effect(s, first), back, slug) is Ok,
    ensures
        ({
            let t = deposit_effect(s, first);
            let u = withdraw_effect(t, back);
            let v = deposit_effect(u, first);
            &&& deposit_check(u, first, slug) is Ok
            &&& v.len() == t.len()
            &&& position_at(v, first.user_pool) is Some
            &&& position_at(v, first.user_pool) == position_at(t, first.user_pool)
            &&& position_at(v, first.user_pool).unwrap().amount == pool_at(
                s,
                first.pool,
            ).unwrap().accepted_amount
            &&& pool_at(v, first.pool) is Some
            &&& pool_at(v, first.pool).unwrap().total_amount == pool_at(
                t,
                first.pool,
            ).unwrap().total_amount
        }),
{
    let t = deposit_effect(s, first);
    let u = withdraw_effect(t, back);
    deposit_once(s, first, slug);
    deposit_keeps(s, first, slug);
    withdraw_accounts(t, back, slug);
    withdraw_keeps(t, back, slug);
    deposit_once(u, first, slug);
    deposit_keeps(u, first, slug);
    record_at_put(t, first.pool, Record::Pool(withdraw_given(t, back).pool), first.user_pool);
    record_at_put(u, first.pool, Record::Pool(deposit_given(u, first).pool), first.user_pool);
}

/// One call keeps the ledger well formed and loses no record, whether it is
/// accepted or refused.
pub proof fn applied_keeps(s: Seq<Entry>, operation: Operation)
    requires
        well_formed(s),
    ensures
        well_formed(applied(s, operation)),
        later(s, applied(s, operation)),
{
    match operation {
        Operation::CreateState(ctx) => create_state_keeps(s, ctx),
        Operation::CreatePool(ctx, slug, accepted_amount, fee_rate) => create_pool_keeps(
            s,
            ctx,
            slug,
            accepted_amount,
            fee_rate,
        ),
        Operation::Deposit(ctx, slug) => deposit_keeps(s, ctx, slug),
        Operation::Withdraw(ctx, slug) => withdraw_keeps(s, ctx, slug),
    }
}

/// Over any run of calls, from a well-formed ledger: every state is well
/// formed, so the total of each pool is the sum of its positions and never
/// less than nothing; and every later state keeps the records of every
/// earlier one, with the fees taken by a pool never less than before.
pub proof fn history_keeps(
    states: Seq<Seq<Entry>>,
    operations: Seq<Operation>,
    i: int,
    j: int,
)
    requires
        history(states, operations),
        well_formed(states[0]),
        0 <= i <= j < states.len(),
    ensures
        well_formed(states[i]),
        well_formed(states[j]),
        later(states[i], states[j]),
    decreases j, i,
{
    if j == 0 {
        assert forall|address: Address| #[trigger] record_lasts(states[0], states[0], address) by {}
    } else if i == j {
        history_keeps(states, operations, 0, j);
        assert forall|address: Address| #[trigger] record_lasts(states[j], states[j], address) by {}
    } else {
        history_keeps(states, operations, i, j - 1);
        let before = states[j - 1];
        let after = states[j - 1 + 1];
        applied_keeps(before, operations[j - 1]);
        assert forall|address: Address| #[trigger] record_lasts(states[i], after, address) by {
            assert(record_lasts(states[i], before, address));
            assert(record_lasts(before, applied(before, operations[j - 1]), address));
        }
    }
}

/// Two contexts resolved for the same call are the same context: the
/// addresses of the records are a function of the slug and the caller.
pub proof fn resolved_contexts_agree(
    a: Deposit,
    b: Deposit,
    authority: Address,
    mint: Mint,
    vault: Address,
    user_vault: TokenAccount,
    slug: Seq<u8>,
)
    requires
        a.resolved(authority, mint, vault, user_vault, slug),
        b.resolved(authority, mint, vault, user_vault, slug),
    ensures
        a == b,
{
    derivation_is_a_function(pool_seeds(zero_padded(slug)), a.pool, b.pool);
    derivation_is_a_function(
        user_pool_seeds(zero_padded(slug), authority),
        a.user_pool,
        b.user_pool,
    );
}

/// A deposit and a withdrawal that are resolved for the same caller and slug
/// are about the same pool and the same position.
pub proof fn deposit_and_withdraw_agree(
    put_in: Deposit,
    take_out: Withdraw,
    authority: Address,
    slug: Seq<u8>,
)
    requires
        put_in.resolved(authority, put_in.mint, put_in.vault, put_in.user_vault, slug),
        take_out.resolved(
            authority,
            take_out.mint,
            take_out.vault,
            take_out.fee_vault,
            take_out.user_vault,
            slug,
        ),
    ensures
        put_in.pool == take_out.pool,
        put_in.user_pool == take_out.user_pool,
        put_in.authority == take_out.authority,
{
    assert(derives_address(pool_seeds(zero_padded(slug)), take_out.pool));
    derivation_is_a_function(pool_seeds(zero_padded(slug)), put_in.pool, take_out.pool);
    derivation_is_a_function(
        user_pool_seeds(zero_padded(slug), authority),
        put_in.user_pool,
        take_out.user_pool,
    );
}

} // verus!
