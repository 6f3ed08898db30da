//! What passes between the pool and the world around it: the requests that the
//! pool makes of the asset ledgers, its answer to a deposit, and what it shows
//! of itself to a reader.

use crate::error::PoolError;
use crate::token::{TokenMetadata, TokenMetadataView};
use vstd::prelude::*;

verus! {

/// The request that binding the pool starts with: the two asset ledgers whose
/// metadata is to be fetched. It lives until both have answered and is never
/// stored.
#[derive(Debug, PartialEq, Eq)]
pub struct PendingBootstrap {
    /// The ledger of the first asset.
    pub token_a: String,
    /// The ledger of the second asset.
    pub token_b: String,
}

/// `PendingBootstrap` as a mathematical value.
pub struct PendingBootstrapView {
    pub token_a: Seq<char>,
    pub token_b: Seq<char>,
}

impl View for PendingBootstrap {
    type V = PendingBootstrapView;

    open spec fn view(&self) -> PendingBootstrapView {
        PendingBootstrapView { token_a: self.token_a@, token_b: self.token_b@ }
    }
}

/// A trade that the pool has booked and that the paying asset's ledger has yet
/// to carry out: the transfer to ask of it, and the deposit that bought it.
#[derive(Debug, PartialEq, Eq)]
pub struct Payout {
    /// The ledger of the asset that was deposited.
    pub token_in: String,
    /// How much was deposited.
    pub amount_in: u128,
    /// The ledger of the asset that pays.
    pub token_out: String,
    /// The account to pay: the one that made the deposit.
    pub receiver_id: String,
    /// How much to pay.
    pub amount_out: u128,
}

/// `Payout` as a mathematical value.
pub struct PayoutView {
    pub token_in: Seq<char>,
    pub amount_in: u128,
    pub token_out: Seq<char>,
    pub receiver_id: Seq<char>,
    pub amount_out: u128,
}

impl View for Payout {
    type V = PayoutView;

    open spec fn view(&self) -> PayoutView {
        PayoutView {
            token_in: self.token_in@,
            amount_in: self.amount_in,
            token_out: self.token_out@,
            receiver_id: self.receiver_id@,
            amount_out: self.amount_out,
        }
    }
}

impl Clone for Payout {
    fn clone(&self) -> (copy: Self)
        ensures
            copy@ == self@,
    {
        Payout {
            token_in: self.token_in.clone(),
            amount_in: self.amount_in,
            token_out: self.token_out.clone(),
            receiver_id: self.receiver_id.clone(),
            amount_out: self.amount_out,
        }
    }
}

/// What the pool made of a deposit.
#[derive(Debug, PartialEq, Eq)]
pub struct TransferOutcome {
    /// The part of the deposit that the pool does not keep, to be handed back
    /// to the sender.
    pub refund: u128,
    /// The transfer to ask of the paying asset's ledger, where the deposit
    /// bought a trade.
    pub payout: Option<Payout>,
}

/// `TransferOutcome` as a mathematical value.
pub struct TransferOutcomeView {
    pub refund: u128,
    pub payout: Option<PayoutView>,
}

impl TransferOutcomeView {
    /// The deposit is handed back whole and nothing is paid.
    pub open spec fn declined(amount: u128) -> TransferOutcomeView {
        TransferOutcomeView { refund: amount, payout: None }
    }

    /// The deposit is kept whole and nothing is paid.
    pub open spec fn kept() -> TransferOutcomeView {
        TransferOutcomeView { refund: 0, payout: None }
    }

    /// The deposit is kept whole and `payout` is to be paid for it.
    pub open spec fn traded(payout: PayoutView) -> TransferOutcomeView {
        TransferOutcomeView { refund: 0, payout: Some(payout) }
    }
}

impl View for TransferOutcome {
    type V = TransferOutcomeView;

    open spec fn view(&self) -> TransferOutcomeView {
        TransferOutcomeView {
            refund: self.refund,
            payout: match self.payout {
                Some(payout) => Some(payout@),
                None => None,
            },
        }
    }
}

/// What a reader is shown of a bound pool: for each side the asset's ledger,
/// name, symbol and decimals, and the supply that the pool holds of it.
#[derive(Debug, PartialEq, Eq)]
pub struct ContractInfo {
    pub token_a_id: String,
    pub token_a_name: String,
    pub token_a_symbol: String,
    pub token_a_supply: u128,
    pub token_a_decimals: u8,
    pub token_b_id: String,
    pub token_b_name: String,
    pub token_b_symbol: String,
    pub token_b_supply: u128,
    pub token_b_decimals: u8,
}

/// `ContractInfo` as a mathematical value.
pub struct ContractInfoView {
    pub token_a_id: Seq<char>,
    pub token_a_name: Seq<char>,
    pub token_a_symbol: Seq<char>,
    pub token_a_supply: u128,
    pub token_a_decimals: u8,
    pub token_b_id: Seq<char>,
    pub token_b_name: Seq<char>,
    pub token_b_symbol: Seq<char>,
    pub token_b_supply: u128,
    pub token_b_decimals: u8,
}

impl View for ContractInfo {
    type V = ContractInfoView;

    open spec fn view(&self) -> ContractInfoView {
        ContractInfoView {
            token_a_id: self.token_a_id@,
            token_a_name: self.token_a_name@,
            token_a_symbol: self.token_a_symbol@,
            token_a_supply: self.token_a_supply,
            token_a_decimals: self.token_a_decimals,
            token_b_id: self.token_b_id@,
            token_b_name: self.token_b_name@,
            token_b_symbol: self.token_b_symbol@,
            token_b_supply: self.token_b_supply,
            token_b_decimals: self.token_b_decimals,
        }
    }
}

impl Clone for ContractInfo {
    fn clone(&self) -> (copy: Self)
        ensures
            copy@ == self@,
    {
        ContractInfo {
            token_a_id: self.token_a_id.clone(),
            token_a_name: self.token_a_name.clone(),
            token_a_symbol: self.token_a_symbol.clone(),
            token_a_supply: self.token_a_supply,
            token_a_decimals: self.token_a_decimals,
            token_b_id: self.token_b_id.clone(),
            token_b_name: self.token_b_name.clone(),
            token_b_symbol: self.token_b_symbol.clone(),
            token_b_supply: self.token_b_supply,
            token_b_decimals: self.token_b_decimals,
        }
    }
}

/// What a ledger answered, if it did, as a mathematical value.
pub open spec fn metadata_view(metadata: Option<TokenMetadata>) -> Option<TokenMetadataView> {
    match metadata {
        Some(metadata) => Some(metadata@),
        None => None,
    }
}

/// The pool's answer to a request to bind it, as a mathematical value.
pub open spec fn pending_view(result: Result<PendingBootstrap, PoolError>) -> Result<
    PendingBootstrapView,
    PoolError,
> {
    match result {
        Ok(pending) => Ok(pending@),
        Err(error) => Err(error),
    }
}

/// The pool's answer to a deposit, as a mathematical value.
pub open spec fn transfer_view(result: Result<TransferOutcome, PoolError>) -> Result<
    TransferOutcomeView,
    PoolError,
> {
    match result {
        Ok(outcome) => Ok(outcome@),
        Err(error) => Err(error),
    }
}

/// What was read of a pool, bound or not, as a mathematical value.
pub open spec fn info_view(info: Option<ContractInfo>) -> Option<ContractInfoView> {
    match info {
        Some(info) => Some(info@),
        None => None,
    }
}

} // verus!
