//! The pool: its owner, its two sides once it is bound to them, and the
//! operations that bind it, read it and take deposits into it.
//!
//! The pool talks to no one. Where an operation needs an asset's ledger to act
//! (to report its metadata, to pay a trader), it returns a value that says what
//! to ask for, and a second operation takes the answer.

use crate::error::PoolError;
use crate::messages::{
    info_view, metadata_view, pending_view, transfer_view, ContractInfo, Payout,
    PendingBootstrap, TransferOutcome,
};
use crate::model::{can_undo, deposit_outcome, deposit_supplies, PoolView};
use crate::swap::{quote, Quote};
use crate::token::{TokenMetadata, TokenPair};
use vstd::prelude::*;

verus! {

/// The pool: who owns it, and its two sides once it is bound to them.
#[derive(Debug, PartialEq, Eq)]
pub struct OrderlyContract {
    owner: String,
    tokens: Option<(TokenPair, TokenPair)>,
}

impl View for OrderlyContract {
    type V = PoolView;

    closed spec fn view(&self) -> PoolView {
        PoolView {
            owner: self.owner@,
            tokens: match self.tokens {
                Some((a, b)) => Some((a@, b@)),
                None => None,
            },
        }
    }
}

impl OrderlyContract {
    /// A pool that `owner` owns and that is bound to no asset yet.
    pub fn new(owner: String) -> (pool: Self)
        ensures
            pool@ == (PoolView { owner: owner@, tokens: None }),
    {
        OrderlyContract { owner, tokens: None }
    }

    /// The pool that `owner` owns and of which `info` was read: how a pool
    /// that was stored away comes back.
    pub fn restore(owner: String, info: Option<ContractInfo>) -> (pool: Self)
        ensures
            pool@ == PoolView::of_info(owner@, info_view(info)),
    {
        match info {
            Some(info) => OrderlyContract {
                owner,
                tokens: Some(
                    (
                        TokenPair {
                            account_id: info.token_a_id,
                            metadata: TokenMetadata {
                                name: info.token_a_name,
                                symbol: info.token_a_symbol,
                                decimals: info.token_a_decimals,
                            },
                            supply: info.token_a_supply,
                        },
                        TokenPair {
                            account_id: info.token_b_id,
                            metadata: TokenMetadata {
                                name: info.token_b_name,
                                symbol: info.token_b_symbol,
                                decimals: info.token_b_decimals,
                            },
                            supply: info.token_b_supply,
                        },
                    ),
                ),
            },
            None => OrderlyContract { owner, tokens: None },
        }
    }

    /// The account that may add to the pool without trading.
    pub fn owner(&self) -> (owner: &String)
        ensures
            owner@ == self@.owner,
    {
        &self.owner
    }

    /// Starts binding the pool to the assets of the ledgers `token_a` and
    /// `token_b`. Nothing is changed by it: the answer names the two ledgers to
    /// ask for their metadata, and `handle_init` takes what they said. A pool
    /// that is bound already fails with `AlreadyBootstrapped`.
    pub fn init(&self, token_a: String, token_b: String) -> (result: Result<
        PendingBootstrap,
        PoolError,
    >)
        ensures
            pending_view(result) == self@.init_outcome(token_a@, token_b@),
    {
        if self.tokens.is_some() {
            Err(PoolError::AlreadyBootstrapped)
        } else {
            Ok(PendingBootstrap { token_a, token_b })
        }
    }

    /// Ends binding the pool: `token_a_metadata` and `token_b_metadata` are
    /// what the two ledgers answered, `None` for one that did not.
    ///
    /// A pool that is bound already fails with `AlreadyBootstrapped`, and one
    /// of whose ledgers did not answer with `BootstrapJoinFailure`; either way
    /// it stays as it was. Otherwise the pool is bound to the two assets and
    /// holds nothing of either.
    pub fn handle_init(
        &mut self,
        token_a: String,
        token_b: String,
        token_a_metadata: Option<TokenMetadata>,
        token_b_metadata: Option<TokenMetadata>,
    ) -> (result: Result<(), PoolError>)
        ensures
            result == old(self)@.handle_init_outcome(
                metadata_view(token_a_metadata),
                metadata_view(token_b_metadata),
            ),
            final(self)@ == old(self)@.after_handle_init(
                token_a@,
                token_b@,
                metadata_view(token_a_metadata),
                metadata_view(token_b_metadata),
            ),
            result is Err ==> final(self)@ == old(self)@,
    {
        if self.tokens.is_some() {
            return Err(PoolError::AlreadyBootstrapped);
        }
        match (token_a_metadata, token_b_metadata) {
            (Some(metadata_a), Some(metadata_b)) => {
                self.tokens = Some(
                    (TokenPair::new(token_a, metadata_a), TokenPair::new(token_b, metadata_b)),
                );
                Ok(())
            },
            _ => Err(PoolError::BootstrapJoinFailure),
        }
    }

    /// Reads the pool: both sides with their supplies, or nothing while the
    /// pool is unbound. What is read depends on the pool alone, so reading it
    /// again without a change in between reads the same.
    pub fn get_contract_info(&self) -> (info: Option<ContractInfo>)
        ensures
            info_view(info) == self@.info(),
    {
        match &self.tokens {
            Some((token_a, token_b)) => Some(
                ContractInfo {
                    token_a_id: token_a.account_id.clone(),
                    token_a_name: token_a.metadata.name.clone(),
                    token_a_symbol: token_a.metadata.symbol.clone(),
                    token_a_supply: token_a.supply,
                    token_a_decimals: token_a.metadata.decimals,
                    token_b_id: token_b.account_id.clone(),
                    token_b_name: token_b.metadata.name.clone(),
                    token_b_symbol: token_b.metadata.symbol.clone(),
                    token_b_supply: token_b.supply,
                    token_b_decimals: token_b.metadata.decimals,
                },
            ),
            None => None,
        }
    }

    /// Takes a deposit: the ledger `token_id` reports that `sender_id` has
    /// moved `amount` of its asset into the pool.
    ///
    /// An unbound pool fails with `Uninitialized`. An asset that is neither
    /// side's is handed back whole. The owner's deposit is added to the
    /// asset's side. Anyone else's is added too and buys a trade: the other
    /// side is left with the product of the two old supplies divided by the
    /// new supply of the asset's side, rounded down, and the answer carries
    /// the transfer of the rest to the sender, to be asked of the paying
    /// ledger. A supply or product that does not fit in 128 bits fails with
    /// `ArithmeticOverflow`, and a trade that would pay nothing with
    /// `RejectedPayout`. A deposit that fails leaves the pool as it was.
    pub fn ft_on_transfer(&mut self, sender_id: String, token_id: String, amount: u128) -> (result:
        Result<TransferOutcome, PoolError>)
        ensures
            transfer_view(result) == old(self)@.transfer_outcome(sender_id@, token_id@, amount),
            final(self)@ == old(self)@.after_transfer(sender_id@, token_id@, amount),
            result is Err ==> final(self)@ == old(self)@,
    {
        let from_owner: bool = self.owner == sender_id;
        match &mut self.tokens {
            None => Err(PoolError::Uninitialized),
            Some((token_a, token_b)) => {
                if token_a.account_id == token_id {
                    deposit(token_a, token_b, from_owner, sender_id, amount)
                } else if token_b.account_id == token_id {
                    deposit(token_b, token_a, from_owner, sender_id, amount)
                } else {
                    Ok(TransferOutcome { refund: amount, payout: None })
                }
            },
        }
    }

    /// Takes the paying ledger's answer to a payout that `ft_on_transfer`
    /// asked for: `delivered` says whether the transfer was made.
    ///
    /// A payout that was delivered stands, and nothing is handed back. One
    /// that was refused is undone: the deposit is taken off its side again,
    /// what was to be paid is put back on the other, and the answer is the
    /// deposit, to be handed back whole. Undoing fails with `Uninitialized` on
    /// an unbound pool, and with `ArithmeticOverflow` where the deposit's side
    /// holds less than the deposit or the other side cannot hold what it paid;
    /// the pool then stays as it was. Of an asset that is neither side's the
    /// pool holds nothing, so all of it is handed back.
    pub fn handle_swap(&mut self, payout: &Payout, delivered: bool) -> (result: Result<
        u128,
        PoolError,
    >)
        ensures
            result == old(self)@.swap_outcome(payout@, delivered),
            final(self)@ == old(self)@.after_swap(payout@, delivered),
            result is Err ==> final(self)@ == old(self)@,
    {
        if delivered {
            return Ok(0);
        }
        match &mut self.tokens {
            None => Err(PoolError::Uninitialized),
            Some((token_a, token_b)) => {
                if token_a.account_id == payout.token_in {
                    undo_trade(token_a, token_b, payout.amount_in, payout.amount_out)
                } else if token_b.account_id == payout.token_in {
                    undo_trade(token_b, token_a, payout.amount_in, payout.amount_out)
                } else {
                    Ok(payout.amount_in)
                }
            },
        }
    }
}

/// Takes a deposit of `amount` into `pair_in`, against `pair_out`.
fn deposit(
    pair_in: &mut TokenPair,
    pair_out: &mut TokenPair,
    from_owner: bool,
    sender_id: String,
    amount: u128,
) -> (result: Result<TransferOutcome, PoolError>)
    ensures
        transfer_view(result) == deposit_outcome(
            old(pair_in)@,
            old(pair_out)@,
            from_owner,
            sender_id@,
            amount,
        ),
        final(pair_in)@ == old(pair_in)@.with_supply(
            deposit_supplies(old(pair_in)@, old(pair_out)@, from_owner, amount).0,
        ),
        final(pair_out)@ == old(pair_out)@.with_supply(
            deposit_supplies(old(pair_in)@, old(pair_out)@, from_owner, amount).1,
        ),
{
    if from_owner {
        match pair_in.supply.checked_add(amount) {
            Some(credited) => {
                pair_in.supply = credited;
                Ok(TransferOutcome { refund: 0, payout: None })
            },
            None => Err(PoolError::ArithmeticOverflow),
        }
    } else {
        match quote(pair_in.supply, pair_out.supply, amount) {
            Ok(Quote { supply_in, supply_out, payout }) => {
                pair_in.supply = supply_in;
                pair_out.supply = supply_out;
                Ok(
                    TransferOutcome {
                        refund: 0,
                        payout: Some(
                            Payout {
                                token_in: pair_in.account_id.clone(),
                                amount_in: amount,
                                token_out: pair_out.account_id.clone(),
                                receiver_id: sender_id,
                                amount_out: payout,
                            },
                        ),
                    },
                )
            },
            Err(error) => Err(error),
        }
    }
}

/// Undoes a trade that took `amount_in` into `pair_in` and paid `amount_out`
/// from `pair_out`, and answers how much to hand back: the deposit. Where the
/// trade cannot be undone, nothing is changed.
fn undo_trade(
    pair_in: &mut TokenPair,
    pair_out: &mut TokenPair,
    amount_in: u128,
    amount_out: u128,
) -> (result: Result<u128, PoolError>)
    ensures
        result is Ok <==> can_undo(old(pair_in)@, old(pair_out)@, amount_in, amount_out),
        result is Ok ==> result == Ok::<u128, PoolError>(amount_in),
        result is Ok ==> final(pair_in)@ == old(pair_in)@.with_supply(
            (old(pair_in)@.supply - amount_in) as u128,
        ),
        result is Ok ==> final(pair_out)@ == old(pair_out)@.with_supply(
            (old(pair_out)@.supply + amount_out) as u128,
        ),
        result is Err ==> result == Err::<u128, PoolError>(PoolError::ArithmeticOverflow),
        result is Err ==> final(pair_in)@ == old(pair_in)@ && final(pair_out)@ == old(pair_out)@,
{
    match (pair_in.supply.checked_sub(amount_in), pair_out.supply.checked_add(amount_out)) {
        (Some(supply_in), Some(supply_out)) => {
            pair_in.supply = supply_in;
            pair_out.supply = supply_out;
            Ok(amount_in)
        },
        _ => Err(PoolError::ArithmeticOverflow),
    }
}

} // verus!
