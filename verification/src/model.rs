//! The pool as a mathematical value, and what each operation makes of it.
//!
//! Every operation of the pool is stated here twice over: what it answers, and
//! what the pool is afterwards. The contracts of the executable operations say
//! that they compute exactly these.

use crate::error::PoolError;
use crate::messages::{
    ContractInfoView, PayoutView, PendingBootstrapView, TransferOutcomeView,
};
use crate::swap::quote_spec;
use crate::token::{TokenMetadataView, TokenPairView};
use vstd::prelude::*;

verus! {

/// What a deposit of `amount` is answered with where it lands on `side_in` and
/// `side_out` is the other side.
///
/// The deposit is credited first, and fails where the credited supply does not
/// fit. From the owner that is all: the deposit is kept and nothing is paid.
/// From anyone else the deposit buys a trade at the constant-product price,
/// paid to the sender; a trade that would pay nothing fails.
pub open spec fn deposit_outcome(
    side_in: TokenPairView,
    side_out: TokenPairView,
    from_owner: bool,
    sender: Seq<char>,
    amount: u128,
) -> Result<TransferOutcomeView, PoolError> {
    if side_in.supply + amount > u128::MAX {
        Err(PoolError::ArithmeticOverflow)
    } else if from_owner {
        Ok(TransferOutcomeView::kept())
    } else {
        match quote_spec(side_in.supply, side_out.supply, amount) {
            Ok(q) => Ok(
                TransferOutcomeView::traded(
                    PayoutView {
                        token_in: side_in.account_id,
                        amount_in: amount,
                        token_out: side_out.account_id,
                        receiver_id: sender,
                        amount_out: q.payout,
                    },
                ),
            ),
            Err(error) => Err(error),
        }
    }
}

/// The supplies of `side_in` and of `side_out` after a deposit of `amount`:
/// as they were where the deposit fails, else the one credited and, after a
/// trade, the other paid from.
pub open spec fn deposit_supplies(
    side_in: TokenPairView,
    side_out: TokenPairView,
    from_owner: bool,
    amount: u128,
) -> (u128, u128) {
    if side_in.supply + amount > u128::MAX {
        (side_in.supply, side_out.supply)
    } else if from_owner {
        ((side_in.supply + amount) as u128, side_out.supply)
    } else {
        match quote_spec(side_in.supply, side_out.supply, amount) {
            Ok(q) => (q.supply_in, q.supply_out),
            Err(_) => (side_in.supply, side_out.supply),
        }
    }
}

/// Whether a trade that took `amount_in` into `side_in` and paid `amount_out`
/// from `side_out` can be undone: `side_in` still holds the deposit, and
/// `side_out` can hold again what it paid.
pub open spec fn can_undo(
    side_in: TokenPairView,
    side_out: TokenPairView,
    amount_in: u128,
    amount_out: u128,
) -> bool {
    side_in.supply >= amount_in && side_out.supply + amount_out <= u128::MAX
}

impl ContractInfoView {
    /// What is shown of a pool whose sides are `a` and `b`.
    pub open spec fn of_sides(a: TokenPairView, b: TokenPairView) -> ContractInfoView {
        ContractInfoView {
            token_a_id: a.account_id,
            token_a_name: a.metadata.name,
            token_a_symbol: a.metadata.symbol,
            token_a_supply: a.supply,
            token_a_decimals: a.metadata.decimals,
            token_b_id: b.account_id,
            token_b_name: b.metadata.name,
            token_b_symbol: b.metadata.symbol,
            token_b_supply: b.supply,
            token_b_decimals: b.metadata.decimals,
        }
    }

    /// The first side of the pool that this was read from.
    pub open spec fn side_a(self) -> TokenPairView {
        TokenPairView {
            account_id: self.token_a_id,
            metadata: TokenMetadataView {
                name: self.token_a_name,
                symbol: self.token_a_symbol,
                decimals: self.token_a_decimals,
            },
            supply: self.token_a_supply,
        }
    }

    /// The second side of the pool that this was read from.
    pub open spec fn side_b(self) -> TokenPairView {
        TokenPairView {
            account_id: self.token_b_id,
            metadata: TokenMetadataView {
                name: self.token_b_name,
                symbol: self.token_b_symbol,
                decimals: self.token_b_decimals,
            },
            supply: self.token_b_supply,
        }
    }
}

/// The pool as a mathematical value: its owner, and its two sides once it is
/// bound to them.
pub struct PoolView {
    pub owner: Seq<char>,
    pub tokens: Option<(TokenPairView, TokenPairView)>,
}

impl PoolView {
    /// The pool that `owner` owns and of which a reader is shown `info`.
    pub open spec fn of_info(owner: Seq<char>, info: Option<ContractInfoView>) -> PoolView {
        PoolView {
            owner,
            tokens: match info {
                Some(info) => Some((info.side_a(), info.side_b())),
                None => None,
            },
        }
    }

    /// What a reader is shown of this pool: nothing while it is unbound.
    pub open spec fn info(self) -> Option<ContractInfoView> {
        match self.tokens {
            Some((a, b)) => Some(ContractInfoView::of_sides(a, b)),
            None => None,
        }
    }

    /// Whether the two sides are of different assets. A pool that was bound to
    /// two different assets stays so: no operation changes what a side is of.
    pub open spec fn distinct_assets(self) -> bool {
        self.tokens matches Some((a, b)) ==> a.account_id != b.account_id
    }

    /// The side that a deposit of `token` lands on: the side of that asset,
    /// and the first one where both are. There is none while the pool is
    /// unbound, or where `token` is neither side's asset.
    pub open spec fn side_in(self, token: Seq<char>) -> Option<TokenPairView> {
        match self.tokens {
            Some((a, b)) => if a.account_id == token {
                Some(a)
            } else if b.account_id == token {
                Some(b)
            } else {
                None
            },
            None => None,
        }
    }

    /// The side that pays for a deposit of `token`: the other one.
    pub open spec fn side_out(self, token: Seq<char>) -> Option<TokenPairView> {
        match self.tokens {
            Some((a, b)) => if a.account_id == token {
                Some(b)
            } else if b.account_id == token {
                Some(a)
            } else {
                None
            },
            None => None,
        }
    }

    /// What the side that a deposit of `token` lands on holds; nothing where
    /// there is no such side.
    pub open spec fn supply_in(self, token: Seq<char>) -> nat {
        match self.side_in(token) {
            Some(side) => side.supply as nat,
            None => 0,
        }
    }

    /// What the side that pays for a deposit of `token` holds; nothing where
    /// there is no such side.
    pub open spec fn supply_out(self, token: Seq<char>) -> nat {
        match self.side_out(token) {
            Some(side) => side.supply as nat,
            None => 0,
        }
    }

    /// This pool with `supply_in` on the side that a deposit of `token` lands
    /// on and `supply_out` on the other; the pool itself where there is no
    /// such side.
    pub open spec fn with_supplies(
        self,
        token: Seq<char>,
        supply_in: u128,
        supply_out: u128,
    ) -> PoolView {
        match self.tokens {
            Some((a, b)) => if a.account_id == token {
                PoolView {
                    tokens: Some((a.with_supply(supply_in), b.with_supply(supply_out))),
                    ..self
                }
            } else if b.account_id == token {
                PoolView {
                    tokens: Some((a.with_supply(supply_out), b.with_supply(supply_in))),
                    ..self
                }
            } else {
                self
            },
            None => self,
        }
    }

    /// What the pool answers to a request to bind it to `token_a` and
    /// `token_b`: the two ledgers to ask, or `AlreadyBootstrapped` where it is
    /// bound.
    pub open spec fn init_outcome(self, token_a: Seq<char>, token_b: Seq<char>) -> Result<
        PendingBootstrapView,
        PoolError,
    > {
        if self.tokens is Some {
            Err(PoolError::AlreadyBootstrapped)
        } else {
            Ok(PendingBootstrapView { token_a, token_b })
        }
    }

    /// What the pool answers once the two ledgers have been asked, where
    /// `metadata_a` and `metadata_b` are what they said, `None` for one that
    /// did not answer: `AlreadyBootstrapped` where the pool is bound, else
    /// `BootstrapJoinFailure` where an answer is missing.
    pub open spec fn handle_init_outcome(
        self,
        metadata_a: Option<TokenMetadataView>,
        metadata_b: Option<TokenMetadataView>,
    ) -> Result<(), PoolError> {
        if self.tokens is Some {
            Err(PoolError::AlreadyBootstrapped)
        } else if metadata_a is None || metadata_b is None {
            Err(PoolError::BootstrapJoinFailure)
        } else {
            Ok(())
        }
    }

    /// The pool after that: bound to the two assets, with nothing held of
    /// either, where it was unbound and both ledgers answered; else as it was.
    pub open spec fn after_handle_init(
        self,
        token_a: Seq<char>,
        token_b: Seq<char>,
        metadata_a: Option<TokenMetadataView>,
        metadata_b: Option<TokenMetadataView>,
    ) -> PoolView {
        match (self.tokens, metadata_a, metadata_b) {
            (None, Some(metadata_a), Some(metadata_b)) => PoolView {
                tokens: Some(
                    (
                        TokenPairView::fresh(token_a, metadata_a),
                        TokenPairView::fresh(token_b, metadata_b),
                    ),
                ),
                ..self
            },
            _ => self,
        }
    }

    /// What the pool answers to a deposit of `amount` of the asset `token` by
    /// `sender`. An unbound pool fails with `Uninitialized`. An asset that is
    /// neither side's is declined whole. Any other deposit lands on its side,
    /// as `deposit_outcome` says.
    pub open spec fn transfer_outcome(
        self,
        sender: Seq<char>,
        token: Seq<char>,
        amount: u128,
    ) -> Result<TransferOutcomeView, PoolError> {
        if self.tokens is None {
            Err(PoolError::Uninitialized)
        } else {
            match (self.side_in(token), self.side_out(token)) {
                (Some(side_in), Some(side_out)) => deposit_outcome(
                    side_in,
                    side_out,
                    sender == self.owner,
                    sender,
                    amount,
                ),
                _ => Ok(TransferOutcomeView::declined(amount)),
            }
        }
    }

    /// The pool after that deposit: the supplies are as `deposit_supplies`
    /// says, and nothing else has changed.
    pub open spec fn after_transfer(
        self,
        sender: Seq<char>,
        token: Seq<char>,
        amount: u128,
    ) -> PoolView {
        match (self.side_in(token), self.side_out(token)) {
            (Some(side_in), Some(side_out)) => {
                let supplies = deposit_supplies(side_in, side_out, sender == self.owner, amount);
                self.with_supplies(token, supplies.0, supplies.1)
            },
            _ => self,
        }
    }

    /// What the pool answers once the paying ledger has settled `payout`: the
    /// part of the deposit to hand back. A payout that was delivered leaves
    /// nothing to hand back. One that was refused is undone and the deposit
    /// handed back whole; that fails with `Uninitialized` on an unbound pool,
    /// and with `ArithmeticOverflow` where the trade cannot be undone. Of an
    /// asset that is neither side's the pool has kept nothing, so all of it
    /// goes back.
    pub open spec fn swap_outcome(self, payout: PayoutView, delivered: bool) -> Result<
        u128,
        PoolError,
    > {
        if delivered {
            Ok(0)
        } else if self.tokens is None {
            Err(PoolError::Uninitialized)
        } else {
            match (self.side_in(payout.token_in), self.side_out(payout.token_in)) {
                (Some(side_in), Some(side_out)) => if can_undo(
                    side_in,
                    side_out,
                    payout.amount_in,
                    payout.amount_out,
                ) {
                    Ok(payout.amount_in)
                } else {
                    Err(PoolError::ArithmeticOverflow)
                },
                _ => Ok(payout.amount_in),
            }
        }
    }

    /// The pool after that: as it was, but for a refused payout that could be
    /// undone, after which the deposit is taken off its side again and the
    /// payout put back on the other.
    pub open spec fn after_swap(self, payout: PayoutView, delivered: bool) -> PoolView {
        match (self.side_in(payout.token_in), self.side_out(payout.token_in)) {
            (Some(side_in), Some(side_out)) => if !delivered && can_undo(
                side_in,
                side_out,
                payout.amount_in,
                payout.amount_out,
            ) {
                self.with_supplies(
                    payout.token_in,
                    (side_in.supply - payout.amount_in) as u128,
                    (side_out.supply + payout.amount_out) as u128,
                )
            } else {
                self
            },
            _ => self,
        }
    }
}

} // verus!
