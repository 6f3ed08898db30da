//! A two-asset liquidity pool: a ledger of what the pool holds of each asset,
//! and the constant-product rule by which it trades one for the other.
//!
//! The pool is bound once to the ledgers of its two assets. After that each
//! ledger reports the deposits made into the pool. What the owner deposits is
//! added to the pool; what anyone else deposits buys some of the other asset,
//! at a price that keeps the product of the two supplies from growing.

pub mod contract;
pub mod error;
pub mod laws;
pub mod messages;
pub mod model;
pub mod pool;
pub mod swap;
pub mod token;

pub use contract::Contract;
pub use error::PoolError;
pub use messages::{ContractInfo, Payout, PendingBootstrap, TransferOutcome};
pub use pool::OrderlyContract;
pub use swap::{quote, Quote};
pub use token::{TokenMetadata, TokenPair};
