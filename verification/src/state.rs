//! Pool state and the transient values that flow through one withdrawal.
//!
//! `PoolState` is the durable entity: the two reserve balances, the
//! outstanding share supply, the fee rate, the fixed-point precision the pool
//! was created with, and the lock flag.  A `WithdrawRequest` and a
//! `WithdrawResult` are created per call and consumed immediately.

use vstd::prelude::*;

verus! {

/// The fixed-point decimal scaling exponent pools are created with unless
/// configured otherwise.
pub const DEFAULT_PRECISION: u8 = 6;

/// Durable state of a two-asset pool, as materialized by the host from the
/// ledger's live balances and the pool's persisted configuration.
#[derive(Clone, Copy, Debug, PartialEq, Eq, Structural)]
pub struct PoolState {
    /// Balance of reserve asset X held by the pool.
    pub reserve_x: u64,
    /// Balance of reserve asset Y held by the pool.
    pub reserve_y: u64,
    /// Outstanding supply of pool-share tokens.
    pub share_supply: u64,
    /// Swap fee rate in basis points; withdrawals are fee-exempt, the rate is
    /// carried for interface symmetry with the other curve operations.
    pub fee_bps: u16,
    /// Fixed-point decimal scaling exponent the pool was created with.
    pub precision: u8,
    /// Administrative freeze: when set, every withdrawal is refused.
    pub locked: bool,
}

/// One withdrawal request: how many shares to burn, and the smallest payouts
/// the caller will accept.
#[derive(Clone, Copy, Debug, PartialEq, Eq, Structural)]
pub struct WithdrawRequest {
    /// Shares the caller wants to burn; must be nonzero to be accepted.
    pub burn_amount: u64,
    /// Minimum acceptable payout of asset X.
    pub min_x: u64,
    /// Minimum acceptable payout of asset Y.
    pub min_y: u64,
}

/// The payouts owed for an accepted withdrawal, and the shares to destroy.
#[derive(Clone, Copy, Debug, PartialEq, Eq, Structural)]
pub struct WithdrawResult {
    /// Amount of reserve asset X to transfer to the caller.
    pub pay_x: u64,
    /// Amount of reserve asset Y to transfer to the caller.
    pub pay_y: u64,
    /// Shares actually destroyed; equals the request's burn amount.
    pub burn_amount: u64,
}

/// The pool as it stands after the ledger commits an accepted withdrawal:
/// both payouts leave the reserves and the burned shares leave the supply.
/// Configuration (fee, precision, lock flag) is untouched.
pub open spec fn committed(pool: PoolState, res: WithdrawResult) -> PoolState
    recommends
        res.pay_x <= pool.reserve_x,
        res.pay_y <= pool.reserve_y,
        res.burn_amount <= pool.share_supply,
{
    PoolState {
        reserve_x: (pool.reserve_x - res.pay_x) as u64,
        reserve_y: (pool.reserve_y - res.pay_y) as u64,
        share_supply: (pool.share_supply - res.burn_amount) as u64,
        fee_bps: pool.fee_bps,
        precision: pool.precision,
        locked: pool.locked,
    }
}

impl PoolState {
    /// Applies an accepted withdrawal to the bookkeeping, mirroring what the
    /// ledger commits: reserves drop by the payouts, the supply by the burn.
    pub fn commit(&mut self, res: &WithdrawResult)
        requires
            res.pay_x <= old(self).reserve_x,
            res.pay_y <= old(self).reserve_y,
            res.burn_amount <= old(self).share_supply,
        ensures
            *final(self) == committed(*old(self), *res),
    {
        self.reserve_x = self.reserve_x - res.pay_x;
        self.reserve_y = self.reserve_y - res.pay_y;
        self.share_supply = self.share_supply - res.burn_amount;
    }
}

} // verus!
