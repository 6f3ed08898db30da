//! The constant-product pricing rule.
//!
//! A trade keeps the product of the two supplies from growing: what the paying
//! side holds afterwards is the product before the deposit, divided by the
//! receiving side's supply after it, rounded down. What the division drops
//! stays in the pool.

use crate::error::PoolError;
use vstd::prelude::*;

verus! {

/// What the paying side holds after a trade: the product of the two supplies
/// before the deposit, divided by the receiving side's supply after it,
/// rounded down. A deposit of nothing into an empty side leaves the paying
/// side as it was.
pub open spec fn remaining_supply(supply_in: nat, supply_out: nat, amount: nat) -> nat {
    if supply_in + amount == 0 {
        supply_out
    } else {
        (supply_in * supply_out) / (supply_in + amount)
    }
}

/// What a trade pays out: the paying side's supply before the trade less its
/// supply after it.
pub open spec fn payout(supply_in: nat, supply_out: nat, amount: nat) -> int {
    supply_out - remaining_supply(supply_in, supply_out, amount)
}

/// The two supplies after a trade, and what the trade pays.
#[derive(Clone, Copy, Debug, PartialEq, Eq, Structural)]
pub struct Quote {
    /// The receiving side's supply after the deposit.
    pub supply_in: u128,
    /// The paying side's supply after the payout.
    pub supply_out: u128,
    /// What is paid out; never zero.
    pub payout: u128,
}

/// What `quote` returns. The trade fails with `ArithmeticOverflow` where the
/// receiving side's new supply, or the product of the two old supplies, does
/// not fit in 128 bits, and with `RejectedPayout` where it would pay nothing.
pub open spec fn quote_spec(supply_in: u128, supply_out: u128, amount: u128) -> Result<
    Quote,
    PoolError,
> {
    if supply_in + amount > u128::MAX || supply_in * supply_out > u128::MAX {
        Err(PoolError::ArithmeticOverflow)
    } else if payout(supply_in as nat, supply_out as nat, amount as nat) == 0 {
        Err(PoolError::RejectedPayout)
    } else {
        Ok(
            Quote {
                supply_in: (supply_in + amount) as u128,
                supply_out: remaining_supply(supply_in as nat, supply_out as nat, amount as nat)
                    as u128,
                payout: payout(supply_in as nat, supply_out as nat, amount as nat) as u128,
            },
        )
    }
}

/// Prices a deposit of `amount` into a side that holds `supply_in`, against a
/// side that holds `supply_out`: the two supplies after the trade and what it
/// pays, or why there is no trade.
pub fn quote(supply_in: u128, supply_out: u128, amount: u128) -> (result: Result<Quote, PoolError>)
    ensures
        result == quote_spec(supply_in, supply_out, amount),
        result matches Ok(q) ==> 0 < q.payout <= supply_out && q.supply_out + q.payout
            == supply_out,
{
    let product: u128 = match supply_in.checked_mul(supply_out) {
        Some(product) => product,
        None => {
            return Err(PoolError::ArithmeticOverflow);
        },
    };
    let credited: u128 = match supply_in.checked_add(amount) {
        Some(credited) => credited,
        None => {
            return Err(PoolError::ArithmeticOverflow);
        },
    };
    proof {
        lemma_payout_bounds(supply_in as nat, supply_out as nat, amount as nat);
    }
    if credited == 0 {
        return Err(PoolError::RejectedPayout);
    }
    let remaining: u128 = product / credited;
    let paid: u128 = supply_out - remaining;
    if paid == 0 {
        return Err(PoolError::RejectedPayout);
    }
    Ok(Quote { supply_in: credited, supply_out: remaining, payout: paid })
}

/// The paying side never grows in a trade, so a payout is never negative and
/// never more than the paying side held.
pub proof fn lemma_payout_bounds(supply_in: nat, supply_out: nat, amount: nat)
    ensures
        remaining_supply(supply_in, supply_out, amount) <= supply_out,
        0 <= payout(supply_in, supply_out, amount) <= supply_out,
{
    if supply_in + amount > 0 {
        let d = supply_in + amount;
        assert(supply_in * supply_out <= d * supply_out) by (nonlinear_arith)
            requires
                supply_in <= d,
        ;
        assert((supply_in * supply_out) / d <= supply_out) by (nonlinear_arith)
            requires
                d > 0,
                supply_in * supply_out <= d * supply_out,
        ;
    }
}

/// The product of the two supplies never grows in a trade: rounding down can
/// only lose value to the pool, never create it.
pub proof fn lemma_product_never_grows(supply_in: nat, supply_out: nat, amount: nat)
    ensures
        (supply_in + amount) * remaining_supply(supply_in, supply_out, amount) <= supply_in
            * supply_out,
{
    if supply_in + amount > 0 {
        let d = supply_in + amount;
        let p = supply_in * supply_out;
        assert(d * (p / d) <= p) by (nonlinear_arith)
            requires
                d > 0,
                p >= 0,
        ;
    } else {
        assert((supply_in + amount) * supply_out == 0) by (nonlinear_arith)
            requires
                supply_in + amount == 0,
        ;
    }
}

/// Against an empty side a trade pays nothing, whatever is deposited.
pub proof fn lemma_empty_side_pays_nothing(supply_in: nat, amount: nat)
    ensures
        payout(supply_in, 0, amount) == 0,
{
    assert(supply_in * 0 == 0) by (nonlinear_arith);
    if supply_in + amount > 0 {
        assert(0nat / (supply_in + amount) == 0) by (nonlinear_arith)
            requires
                supply_in + amount > 0,
        ;
    }
}

/// A deposit of nothing buys nothing.
pub proof fn lemma_nothing_buys_nothing(supply_in: nat, supply_out: nat)
    ensures
        payout(supply_in, supply_out, 0) == 0,
{
    if supply_in > 0 {
        assert((supply_in * supply_out) / supply_in == supply_out) by (nonlinear_arith)
            requires
                supply_in > 0,
        ;
    }
}

} // verus!
