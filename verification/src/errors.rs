//! The failure cases of a withdrawal.  Every failing call returns one of
//! these; no failure mutates the pool.

use vstd::prelude::*;

verus! {

/// Why a withdrawal was refused.
#[derive(Clone, Copy, Debug, PartialEq, Eq, Structural)]
pub enum AmmError {
    /// The pool is administratively frozen; withdrawals are categorically
    /// refused until it is unlocked.
    PoolLocked,
    /// The requested burn amount is zero.
    InvalidAmount,
    /// The share supply is zero: no claims exist to redeem against.
    InsufficientBalance,
    /// A computed payout fell below the caller's minimum.
    SlippageExceeded,
    /// An intermediate value exceeded the representable range (or a division
    /// by a zero supply was refused); never silently clamped.
    ArithmeticOverflow,
}

impl AmmError {
    /// A short stable name for the error, for hosts that report failures.
    pub fn describe(&self) -> (r: &'static str)
        ensures
            r@ == match *self {
                AmmError::PoolLocked => "pool locked"@,
                AmmError::InvalidAmount => "invalid amount"@,
                AmmError::InsufficientBalance => "insufficient balance"@,
                AmmError::SlippageExceeded => "slippage exceeded"@,
                AmmError::ArithmeticOverflow => "arithmetic overflow"@,
            },
    {
        match *self {
            AmmError::PoolLocked => "pool locked",
            AmmError::InvalidAmount => "invalid amount",
            AmmError::InsufficientBalance => "insufficient balance",
            AmmError::SlippageExceeded => "slippage exceeded",
            AmmError::ArithmeticOverflow => "arithmetic overflow",
        }
    }
}

} // verus!
