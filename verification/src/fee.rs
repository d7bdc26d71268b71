//! The fee that a withdrawal pays, in basis points of the amount.

use vstd::prelude::*;

verus! {

/// The fee rate, in basis points, that takes the whole amount.
pub const FULL_RATE: u16 = 10000;

/// The fee on `amount` at `fee_rate` basis points: the exact share, rounded down.
pub open spec fn fee_of(amount: u64, fee_rate: u16) -> int {
    (amount as int * fee_rate as int) / (FULL_RATE as int)
}

/// What is left of `amount` once the fee is taken.
pub open spec fn net_of(amount: u64, fee_rate: u16) -> int {
    amount as int - fee_of(amount, fee_rate)
}

/// At a rate of at most `FULL_RATE` the fee is between nothing and the whole
/// amount, so fee and net are both amounts, and together they make `amount`.
pub proof fn fee_is_a_share(amount: u64, fee_rate: u16)
    requires
        fee_rate <= FULL_RATE,
    ensures
        0 <= fee_of(amount, fee_rate) <= amount,
        0 <= net_of(amount, fee_rate) <= amount,
        net_of(amount, fee_rate) + fee_of(amount, fee_rate) == amount,
{
    let a = amount as int;
    let r = fee_rate as int;
    assert(0 <= (a * r) / 10000 <= a) by (nonlinear_arith)
        requires
            0 <= a,
            0 <= r <= 10000,
    ;
}

/// Computes the fee on `amount`, through a 128-bit product so that nothing
/// overflows. The rate must be at most `FULL_RATE`: a fee above the amount
/// need not fit in 64 bits.
pub fn withdrawal_fee(amount: u64, fee_rate: u16) -> (fee: u64)
    requires
        fee_rate <= FULL_RATE,
    ensures
        fee == fee_of(amount, fee_rate),
        fee <= amount,
{
    proof {
        fee_is_a_share(amount, fee_rate);
        assert((amount as int) * (fee_rate as int) <= 0xffff_ffff_ffff_ffff * 0xffff) by (nonlinear_arith)
            requires
                0 <= amount as int <= 0xffff_ffff_ffff_ffff,
                0 <= fee_rate as int <= 0xffff,
        ;
    }
    let product: u128 = (amount as u128) * (fee_rate as u128);
    let share: u128 = product / (FULL_RATE as u128);
    share as u64
}

} // verus!
