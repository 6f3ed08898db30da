//! What holds of the pool whatever it is asked. Each law is proved from the
//! model in which the contracts of the operations are stated.

use crate::error::PoolError;
use crate::messages::{
    ContractInfoView, PayoutView, PendingBootstrapView, TransferOutcomeView,
};
use crate::model::PoolView;
use crate::swap::{
    lemma_empty_side_pays_nothing, lemma_nothing_buys_nothing, lemma_payout_bounds,
    lemma_product_never_grows, payout,
};
use crate::token::TokenMetadataView;
use vstd::prelude::*;

verus! {

/// An unbound pool is bound by the answers of both ledgers, whatever they are.
pub proof fn lemma_unbound_pool_can_be_bound(
    pool: PoolView,
    metadata_a: TokenMetadataView,
    metadata_b: TokenMetadataView,
)
    requires
        pool.tokens is None,
    ensures
        pool.handle_init_outcome(Some(metadata_a), Some(metadata_b)) is Ok,
{
}

/// A pool that has just been bound shows both assets as their ledgers
/// described them, and holds nothing of either.
pub proof fn lemma_bound_pool_reads_empty(
    pool: PoolView,
    token_a: Seq<char>,
    token_b: Seq<char>,
    metadata_a: TokenMetadataView,
    metadata_b: TokenMetadataView,
)
    requires
        pool.handle_init_outcome(Some(metadata_a), Some(metadata_b)) is Ok,
    ensures
        pool.after_handle_init(token_a, token_b, Some(metadata_a), Some(metadata_b)).info()
            == Some(
            ContractInfoView {
                token_a_id: token_a,
                token_a_name: metadata_a.name,
                token_a_symbol: metadata_a.symbol,
                token_a_supply: 0,
                token_a_decimals: metadata_a.decimals,
                token_b_id: token_b,
                token_b_name: metadata_b.name,
                token_b_symbol: metadata_b.symbol,
                token_b_supply: 0,
                token_b_decimals: metadata_b.decimals,
            },
        ),
        pool.after_handle_init(token_a, token_b, Some(metadata_a), Some(metadata_b)).owner
            == pool.owner,
{
}

/// A pool is bound once: after it has been, a request to bind it again fails
/// with `AlreadyBootstrapped`, whatever assets it names, and so does a second
/// pair of answers, which changes nothing.
pub proof fn lemma_bound_only_once(
    pool: PoolView,
    token_a: Seq<char>,
    token_b: Seq<char>,
    metadata_a: TokenMetadataView,
    metadata_b: TokenMetadataView,
    next_a: Seq<char>,
    next_b: Seq<char>,
    next_metadata_a: Option<TokenMetadataView>,
    next_metadata_b: Option<TokenMetadataView>,
)
    requires
        pool.handle_init_outcome(Some(metadata_a), Some(metadata_b)) is Ok,
    ensures
        pool.after_handle_init(token_a, token_b, Some(metadata_a), Some(metadata_b)).init_outcome(
            next_a,
            next_b,
        ) == Err::<PendingBootstrapView, PoolError>(PoolError::AlreadyBootstrapped),
        pool.after_handle_init(
            token_a,
            token_b,
            Some(metadata_a),
            Some(metadata_b),
        ).handle_init_outcome(next_metadata_a, next_metadata_b) == Err::<(), PoolError>(
            PoolError::AlreadyBootstrapped,
        ),
        pool.after_handle_init(
            token_a,
            token_b,
            Some(metadata_a),
            Some(metadata_b),
        ).after_handle_init(next_a, next_b, next_metadata_a, next_metadata_b)
            == pool.after_handle_init(token_a, token_b, Some(metadata_a), Some(metadata_b)),
{
}

/// Where a ledger did not answer, an unbound pool stays unbound and can be
/// asked again.
pub proof fn lemma_failed_bootstrap_can_be_retried(
    pool: PoolView,
    token_a: Seq<char>,
    token_b: Seq<char>,
    metadata_a: Option<TokenMetadataView>,
    metadata_b: Option<TokenMetadataView>,
    next_a: Seq<char>,
    next_b: Seq<char>,
)
    requires
        pool.tokens is None,
        metadata_a is None || metadata_b is None,
    ensures
        pool.handle_init_outcome(metadata_a, metadata_b) == Err::<(), PoolError>(
            PoolError::BootstrapJoinFailure,
        ),
        pool.after_handle_init(token_a, token_b, metadata_a, metadata_b) == pool,
        pool.after_handle_init(token_a, token_b, metadata_a, metadata_b).init_outcome(
            next_a,
            next_b,
        ) is Ok,
{
}

/// A pool that is bound to two different assets has one side for each.
pub proof fn lemma_bound_to_different_assets(
    pool: PoolView,
    token_a: Seq<char>,
    token_b: Seq<char>,
    metadata_a: TokenMetadataView,
    metadata_b: TokenMetadataView,
)
    requires
        pool.handle_init_outcome(Some(metadata_a), Some(metadata_b)) is Ok,
        token_a != token_b,
    ensures
        pool.after_handle_init(
            token_a,
            token_b,
            Some(metadata_a),
            Some(metadata_b),
        ).distinct_assets(),
{
}

/// An unbound pool takes no deposit.
pub proof fn lemma_unbound_pool_takes_nothing(
    pool: PoolView,
    sender: Seq<char>,
    token: Seq<char>,
    amount: u128,
)
    requires
        pool.tokens is None,
    ensures
        pool.transfer_outcome(sender, token, amount) == Err::<TransferOutcomeView, PoolError>(
            PoolError::Uninitialized,
        ),
        pool.after_transfer(sender, token, amount) == pool,
{
}

/// A deposit of an asset that is neither side's is handed back whole and
/// changes nothing, whoever sent it.
pub proof fn lemma_foreign_asset_is_declined(
    pool: PoolView,
    sender: Seq<char>,
    token: Seq<char>,
    amount: u128,
)
    requires
        pool.tokens is Some,
        pool.side_in(token) is None,
    ensures
        pool.transfer_outcome(sender, token, amount) == Ok::<TransferOutcomeView, PoolError>(
            TransferOutcomeView::declined(amount),
        ),
        pool.after_transfer(sender, token, amount) == pool,
{
}

/// The owner's deposit, where the side it lands on can hold it, grows that
/// side by exactly the deposit and leaves the other side as it was; all of it
/// is kept and nothing is paid.
pub proof fn lemma_owner_deposit(pool: PoolView, token: Seq<char>, amount: u128)
    requires
        pool.side_in(token) is Some,
        pool.supply_in(token) + amount <= u128::MAX,
    ensures
        pool.transfer_outcome(pool.owner, token, amount) == Ok::<TransferOutcomeView, PoolError>(
            TransferOutcomeView::kept(),
        ),
        pool.after_transfer(pool.owner, token, amount).supply_in(token) == pool.supply_in(token)
            + amount,
        pool.after_transfer(pool.owner, token, amount).supply_out(token) == pool.supply_out(
            token,
        ),
{
}

/// A deposit by anyone but the owner buys a trade, where the numbers fit and
/// something is paid: the deposit is credited to the side it lands on, the
/// other side is left with the product of the two old supplies divided by the
/// credited supply, rounded down, and what the other side held beyond that is
/// to be paid to the sender.
pub proof fn lemma_trade(pool: PoolView, sender: Seq<char>, token: Seq<char>, amount: u128)
    requires
        pool.side_in(token) is Some,
        sender != pool.owner,
        pool.supply_in(token) + amount <= u128::MAX,
        pool.supply_in(token) * pool.supply_out(token) <= u128::MAX,
        payout(pool.supply_in(token), pool.supply_out(token), amount as nat) > 0,
    ensures
        amount > 0,
        pool.after_transfer(sender, token, amount).supply_in(token) == pool.supply_in(token)
            + amount,
        pool.after_transfer(sender, token, amount).supply_out(token) == (pool.supply_in(token)
            * pool.supply_out(token)) / (pool.supply_in(token) + amount as nat),
        pool.transfer_outcome(sender, token, amount) == Ok::<TransferOutcomeView, PoolError>(
            TransferOutcomeView::traded(
                PayoutView {
                    token_in: token,
                    amount_in: amount,
                    token_out: pool.side_out(token)->Some_0.account_id,
                    receiver_id: sender,
                    amount_out: (pool.supply_out(token) - (pool.supply_in(token)
                        * pool.supply_out(token)) / (pool.supply_in(token) + amount as nat))
                        as u128,
                },
            ),
        ),
        0 < pool.supply_out(token) - (pool.supply_in(token) * pool.supply_out(token)) / (
        pool.supply_in(token) + amount as nat) <= pool.supply_out(token),
{
    let supply_in = pool.supply_in(token);
    let supply_out = pool.supply_out(token);
    lemma_payout_bounds(supply_in, supply_out, amount as nat);
    if amount == 0 {
        lemma_nothing_buys_nothing(supply_in, supply_out);
    }
}

/// A trade that would pay nothing is not made: the deposit fails, with
/// `RejectedPayout` where the numbers fit, and the pool stays as it was, the
/// deposit uncredited.
pub proof fn lemma_empty_trade_leaves_no_trace(
    pool: PoolView,
    sender: Seq<char>,
    token: Seq<char>,
    amount: u128,
)
    requires
        pool.side_in(token) is Some,
        sender != pool.owner,
        payout(pool.supply_in(token), pool.supply_out(token), amount as nat) == 0,
    ensures
        pool.transfer_outcome(sender, token, amount) is Err,
        pool.supply_in(token) + amount <= u128::MAX && pool.supply_in(token) * pool.supply_out(
            token,
        ) <= u128::MAX ==> pool.transfer_outcome(sender, token, amount) == Err::<
            TransferOutcomeView,
            PoolError,
        >(PoolError::RejectedPayout),
        pool.after_transfer(sender, token, amount) == pool,
        pool.after_transfer(sender, token, amount).info() == pool.info(),
{
}

/// Against an empty side every trade fails, and leaves the pool as it was.
pub proof fn lemma_no_trade_against_empty_side(
    pool: PoolView,
    sender: Seq<char>,
    token: Seq<char>,
    amount: u128,
)
    requires
        pool.side_in(token) is Some,
        sender != pool.owner,
        pool.supply_out(token) == 0,
    ensures
        pool.transfer_outcome(sender, token, amount) is Err,
        pool.after_transfer(sender, token, amount) == pool,
{
    lemma_empty_side_pays_nothing(pool.supply_in(token), amount as nat);
    lemma_empty_trade_leaves_no_trace(pool, sender, token, amount);
}

/// A deposit that fails changes nothing.
pub proof fn lemma_failed_deposit_changes_nothing(
    pool: PoolView,
    sender: Seq<char>,
    token: Seq<char>,
    amount: u128,
)
    requires
        pool.transfer_outcome(sender, token, amount) is Err,
    ensures
        pool.after_transfer(sender, token, amount) == pool,
{
}

/// No deposit changes the owner, which asset a side is of, or what its ledger
/// said of it: only the supplies move. The side that the deposit lands on
/// never shrinks, the other never grows, and what the other side loses is
/// what is to be paid.
pub proof fn lemma_deposit_moves_supplies_only(
    pool: PoolView,
    sender: Seq<char>,
    token: Seq<char>,
    amount: u128,
)
    requires
        pool.tokens is Some,
    ensures
        pool.after_transfer(sender, token, amount).owner == pool.owner,
        pool.after_transfer(sender, token, amount).tokens is Some,
        pool.after_transfer(sender, token, amount).tokens->Some_0.0
            == pool.tokens->Some_0.0.with_supply(
            pool.after_transfer(sender, token, amount).tokens->Some_0.0.supply,
        ),
        pool.after_transfer(sender, token, amount).tokens->Some_0.1
            == pool.tokens->Some_0.1.with_supply(
            pool.after_transfer(sender, token, amount).tokens->Some_0.1.supply,
        ),
        pool.distinct_assets() ==> pool.after_transfer(sender, token, amount).distinct_assets(),
        pool.after_transfer(sender, token, amount).supply_in(token) >= pool.supply_in(token),
        pool.after_transfer(sender, token, amount).supply_out(token) <= pool.supply_out(token),
        pool.transfer_outcome(sender, token, amount) matches Ok(outcome) ==> pool.supply_out(token)
            - pool.after_transfer(sender, token, amount).supply_out(token) == (match outcome.payout {
            Some(payout) => payout.amount_out as int,
            None => 0,
        }),
{
    if pool.side_in(token) is Some {
        lemma_payout_bounds(pool.supply_in(token), pool.supply_out(token), amount as nat);
    }
}

/// A trade never lets the product of the two supplies grow: what the rounding
/// drops stays in the pool.
pub proof fn lemma_trade_keeps_product_from_growing(
    pool: PoolView,
    sender: Seq<char>,
    token: Seq<char>,
    amount: u128,
)
    requires
        sender != pool.owner,
    ensures
        pool.after_transfer(sender, token, amount).supply_in(token) * pool.after_transfer(
            sender,
            token,
            amount,
        ).supply_out(token) <= pool.supply_in(token) * pool.supply_out(token),
{
    if pool.side_in(token) is Some && pool.transfer_outcome(sender, token, amount) is Ok {
        lemma_product_never_grows(pool.supply_in(token), pool.supply_out(token), amount as nat);
    }
}

/// A payout that the paying ledger refuses is undone whole: the pool is again
/// as it was before the deposit that bought it, and the deposit is handed
/// back.
pub proof fn lemma_refused_payout_is_undone(
    pool: PoolView,
    sender: Seq<char>,
    token: Seq<char>,
    amount: u128,
    payout: PayoutView,
)
    requires
        pool.transfer_outcome(sender, token, amount) == Ok::<TransferOutcomeView, PoolError>(
            TransferOutcomeView::traded(payout),
        ),
    ensures
        pool.after_transfer(sender, token, amount).swap_outcome(payout, false) == Ok::<
            u128,
            PoolError,
        >(amount),
        pool.after_transfer(sender, token, amount).after_swap(payout, false) == pool,
{
    lemma_payout_bounds(pool.supply_in(token), pool.supply_out(token), amount as nat);
}

/// A payout that was delivered stands: the pool stays as the trade left it and
/// nothing is handed back.
pub proof fn lemma_delivered_payout_stands(pool: PoolView, payout: PayoutView)
    ensures
        pool.swap_outcome(payout, true) == Ok::<u128, PoolError>(0),
        pool.after_swap(payout, true) == pool,
{
}

/// Settling a payout changes nothing but the supplies, and fails without
/// changing anything.
pub proof fn lemma_settling_moves_supplies_only(
    pool: PoolView,
    payout: PayoutView,
    delivered: bool,
)
    ensures
        pool.after_swap(payout, delivered).owner == pool.owner,
        pool.after_swap(payout, delivered).tokens is Some <==> pool.tokens is Some,
        pool.distinct_assets() ==> pool.after_swap(payout, delivered).distinct_assets(),
        pool.swap_outcome(payout, delivered) is Err ==> pool.after_swap(payout, delivered) == pool,
{
}

/// What is read of a pool, with its owner, is the whole pool.
pub proof fn lemma_info_tells_the_pool(pool: PoolView)
    ensures
        PoolView::of_info(pool.owner, pool.info()) == pool,
{
}

} // verus!
