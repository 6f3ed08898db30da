//! The ways in which an operation on the pool can fail.

use vstd::prelude::*;

verus! {

/// Why the pool refused an operation. A refused operation leaves the pool as
/// it found it.
#[derive(Clone, Copy, Debug, PartialEq, Eq, Structural)]
pub enum PoolError {
    /// The pool is already bound to its two assets.
    AlreadyBootstrapped,
    /// The pool is not yet bound to its two assets.
    Uninitialized,
    /// A supply, or the product of the two supplies, does not fit in 128 bits.
    ArithmeticOverflow,
    /// The trade would pay nothing: a payout that the paying asset's ledger
    /// would refuse, so it is not asked for.
    RejectedPayout,
    /// The metadata of one asset, or of both, could not be fetched.
    BootstrapJoinFailure,
}

impl PoolError {
    /// The message that goes with the error.
    pub fn message(&self) -> (text: &'static str)
        ensures
            text@ == self.message_text(),
    {
        match self {
            PoolError::AlreadyBootstrapped => "Already initialized",
            PoolError::Uninitialized => "Contract uninitialized",
            PoolError::ArithmeticOverflow => "Token supply overflow",
            PoolError::RejectedPayout => "Swap payout rejected",
            PoolError::BootstrapJoinFailure => "Token metadata unavailable",
        }
    }

    /// The text of `message`, one literal for each error.
    pub open spec fn message_text(&self) -> Seq<char> {
        match self {
            PoolError::AlreadyBootstrapped => "Already initialized"@,
            PoolError::Uninitialized => "Contract uninitialized"@,
            PoolError::ArithmeticOverflow => "Token supply overflow"@,
            PoolError::RejectedPayout => "Swap payout rejected"@,
            PoolError::BootstrapJoinFailure => "Token metadata unavailable"@,
        }
    }
}

} // verus!
