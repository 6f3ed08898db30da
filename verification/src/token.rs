//! One side of the pool: an asset, what its ledger says of it, and how much of
//! it the pool holds.

use vstd::prelude::*;

verus! {

/// What an asset's ledger says of the asset. It is fetched once, when the pool
/// is bound to the asset, and kept as it came.
#[derive(Debug, PartialEq, Eq)]
pub struct TokenMetadata {
    /// The asset's display name.
    pub name: String,
    /// The asset's ticker symbol.
    pub symbol: String,
    /// How many decimal places one unit of the asset is divided into.
    pub decimals: u8,
}

/// `TokenMetadata` as a mathematical value.
pub struct TokenMetadataView {
    pub name: Seq<char>,
    pub symbol: Seq<char>,
    pub decimals: u8,
}

impl View for TokenMetadata {
    type V = TokenMetadataView;

    open spec fn view(&self) -> TokenMetadataView {
        TokenMetadataView { name: self.name@, symbol: self.symbol@, decimals: self.decimals }
    }
}

impl Clone for TokenMetadata {
    fn clone(&self) -> (copy: Self)
        ensures
            copy@ == self@,
    {
        TokenMetadata {
            name: self.name.clone(),
            symbol: self.symbol.clone(),
            decimals: self.decimals,
        }
    }
}

/// One side of the pool: the account of the asset's ledger, the asset's
/// metadata and the supply that the pool tracks.
#[derive(Debug, PartialEq, Eq)]
pub struct TokenPair {
    /// The account of the asset's ledger.
    pub account_id: String,
    /// What that ledger says of the asset.
    pub metadata: TokenMetadata,
    /// How much of the asset the pool holds.
    pub supply: u128,
}

/// `TokenPair` as a mathematical value.
pub struct TokenPairView {
    pub account_id: Seq<char>,
    pub metadata: TokenMetadataView,
    pub supply: u128,
}

impl TokenPairView {
    /// A side that has just been bound: the asset and its metadata, and nothing
    /// held of it.
    pub open spec fn fresh(account_id: Seq<char>, metadata: TokenMetadataView) -> TokenPairView {
        TokenPairView { account_id, metadata, supply: 0 }
    }

    /// This side with another supply.
    pub open spec fn with_supply(self, supply: u128) -> TokenPairView {
        TokenPairView { supply, ..self }
    }
}

impl View for TokenPair {
    type V = TokenPairView;

    open spec fn view(&self) -> TokenPairView {
        TokenPairView {
            account_id: self.account_id@,
            metadata: self.metadata@,
            supply: self.supply,
        }
    }
}

impl Clone for TokenPair {
    fn clone(&self) -> (copy: Self)
        ensures
            copy@ == self@,
    {
        TokenPair {
            account_id: self.account_id.clone(),
            metadata: self.metadata.clone(),
            supply: self.supply,
        }
    }
}

impl TokenPair {
    /// Binds a side to an asset: nothing is held of it yet.
    pub fn new(account_id: String, metadata: TokenMetadata) -> (pair: Self)
        ensures
            pair@ == TokenPairView::fresh(account_id@, metadata@),
    {
        TokenPair { account_id, metadata, supply: 0 }
    }
}

} // verus!
