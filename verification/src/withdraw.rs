//! The withdrawal orchestrator: pool-level validation, the curve engine
//! call, and the plan of ledger effects an accepted withdrawal owes.
//!
//! The orchestrator decides; the host performs.  [`withdraw`] reads the pool
//! and returns either the exact payouts or the error, mutating nothing, so a
//! failing call can be retried unchanged and fails identically.  On success
//! the host performs the three ledger effects in the fixed order
//! [`effects`] states, and commits the bookkeeping with
//! [`crate::state::PoolState::commit`].

use vstd::prelude::*;

use crate::curve::curve_withdraw;
use crate::curve::lemma_full_redemption;
use crate::curve::lemma_payout_within_reserve;
use crate::curve::payout;
use crate::curve::payout_fits;
use crate::curve::withdraw_liquidity;
use crate::errors::AmmError;
use crate::state::committed;
use crate::state::PoolState;
use crate::state::WithdrawRequest;
use crate::state::WithdrawResult;

verus! {

/// The whole withdrawal decision: the precondition checks in their fixed
/// order (lock flag, zero burn, zero supply), then the curve engine.
pub open spec fn decide_withdraw(pool: PoolState, req: WithdrawRequest) -> Result<
    WithdrawResult,
    AmmError,
> {
    if pool.locked {
        Err(AmmError::PoolLocked)
    } else if req.burn_amount == 0 {
        Err(AmmError::InvalidAmount)
    } else if pool.share_supply == 0 {
        Err(AmmError::InsufficientBalance)
    } else {
        curve_withdraw(
            pool.reserve_x,
            pool.reserve_y,
            pool.share_supply,
            req.burn_amount,
            req.min_x,
            req.min_y,
        )
    }
}

/// Validates the pool state and computes the payouts owed for the request,
/// or the exact error.  Reads the pool and mutates nothing: payouts are only
/// proposed here, the ledger commits them.
pub fn withdraw(pool: &PoolState, req: &WithdrawRequest) -> (r: Result<WithdrawResult, AmmError>)
    ensures
        r == decide_withdraw(*pool, *req),
        (r == Err::<WithdrawResult, AmmError>(AmmError::PoolLocked)) <==> pool.locked,
        !pool.locked ==> ((r == Err::<WithdrawResult, AmmError>(AmmError::InvalidAmount))
            <==> req.burn_amount == 0),
        !pool.locked && req.burn_amount != 0 ==> ((r == Err::<WithdrawResult, AmmError>(
            AmmError::InsufficientBalance,
        )) <==> pool.share_supply == 0),
        !pool.locked && req.burn_amount != 0 && pool.share_supply != 0 && payout_fits(
            pool.reserve_x,
            req.burn_amount,
            pool.share_supply,
        ) && payout_fits(pool.reserve_y, req.burn_amount, pool.share_supply) ==> ((r
            == Err::<WithdrawResult, AmmError>(AmmError::SlippageExceeded)) <==> (payout(
            pool.reserve_x,
            req.burn_amount,
            pool.share_supply,
        ) < req.min_x || payout(pool.reserve_y, req.burn_amount, pool.share_supply) < req.min_y)),
        r is Ok ==> {
            &&& !pool.locked
            &&& req.burn_amount != 0
            &&& pool.share_supply != 0
            &&& r->Ok_0.pay_x == payout(pool.reserve_x, req.burn_amount, pool.share_supply)
            &&& r->Ok_0.pay_y == payout(pool.reserve_y, req.burn_amount, pool.share_supply)
            &&& r->Ok_0.burn_amount == req.burn_amount
            &&& r->Ok_0.pay_x >= req.min_x
            &&& r->Ok_0.pay_y >= req.min_y
        },
{
    if pool.locked {
        return Err(AmmError::PoolLocked);
    }
    if req.burn_amount == 0 {
        return Err(AmmError::InvalidAmount);
    }
    if pool.share_supply == 0 {
        return Err(AmmError::InsufficientBalance);
    }
    withdraw_liquidity(
        pool.reserve_x,
        pool.reserve_y,
        pool.share_supply,
        pool.fee_bps,
        pool.precision,
        req.burn_amount,
        req.min_x,
        req.min_y,
    )
}

/// One effect the host must perform against the ledger.
#[derive(Clone, Copy, Debug, PartialEq, Eq, Structural)]
pub enum LedgerEffect {
    /// Transfer this much of reserve asset X from the pool's vault to the
    /// caller, signed by the pool's own authority.
    TransferX { amount: u64 },
    /// Transfer this much of reserve asset Y from the pool's vault to the
    /// caller, signed by the pool's own authority.
    TransferY { amount: u64 },
    /// Destroy this many of the caller's share tokens, signed by the caller.
    BurnShares { amount: u64 },
}

/// The ledger effects an accepted withdrawal owes, in the fixed order the
/// host must perform them: asset X out, asset Y out, then the share burn.
pub fn effects(res: &WithdrawResult) -> (v: Vec<LedgerEffect>)
    ensures
        v@ =~= seq![
            LedgerEffect::TransferX { amount: res.pay_x },
            LedgerEffect::TransferY { amount: res.pay_y },
            LedgerEffect::BurnShares { amount: res.burn_amount },
        ],
{
    let mut v: Vec<LedgerEffect> = Vec::new();
    v.push(LedgerEffect::TransferX { amount: res.pay_x });
    v.push(LedgerEffect::TransferY { amount: res.pay_y });
    v.push(LedgerEffect::BurnShares { amount: res.burn_amount });
    v
}

/// The pool after one whole withdrawal call: committed on acceptance,
/// untouched on any failure.
pub open spec fn pool_after_withdraw(pool: PoolState, req: WithdrawRequest) -> PoolState {
    match decide_withdraw(pool, req) {
        Ok(res) => committed(pool, res),
        Err(_) => pool,
    }
}

/// A failing withdrawal mutates nothing, so retrying it unchanged decides
/// identically: failure is idempotent.
pub proof fn lemma_failure_idempotent(pool: PoolState, req: WithdrawRequest)
    requires
        decide_withdraw(pool, req) is Err,
    ensures
        pool_after_withdraw(pool, req) == pool,
        decide_withdraw(pool_after_withdraw(pool, req), req) == decide_withdraw(pool, req),
{
}

/// An accepted withdrawal that burns no more than the outstanding supply is
/// always coverable: each payout fits in its reserve and the burn in the
/// supply, so the bookkeeping commit is well-defined.
pub proof fn lemma_accepted_within_pool(pool: PoolState, req: WithdrawRequest)
    requires
        decide_withdraw(pool, req) is Ok,
        req.burn_amount <= pool.share_supply,
    ensures
        decide_withdraw(pool, req)->Ok_0.pay_x <= pool.reserve_x,
        decide_withdraw(pool, req)->Ok_0.pay_y <= pool.reserve_y,
        decide_withdraw(pool, req)->Ok_0.burn_amount <= pool.share_supply,
{
    lemma_payout_within_reserve(pool.reserve_x, pool.share_supply, req.burn_amount);
    lemma_payout_within_reserve(pool.reserve_y, pool.share_supply, req.burn_amount);
}

/// Redeeming the full supply is always accepted when the caller's minimums
/// allow it, pays out both reserves exactly, and leaves an empty pool.
pub proof fn lemma_full_redemption_drains_pool(pool: PoolState, req: WithdrawRequest)
    requires
        !pool.locked,
        pool.share_supply > 0,
        req.burn_amount == pool.share_supply,
        req.min_x <= pool.reserve_x,
        req.min_y <= pool.reserve_y,
    ensures
        decide_withdraw(pool, req) == Ok::<WithdrawResult, AmmError>(
            WithdrawResult {
                pay_x: pool.reserve_x,
                pay_y: pool.reserve_y,
                burn_amount: pool.share_supply,
            },
        ),
        pool_after_withdraw(pool, req).reserve_x == 0,
        pool_after_withdraw(pool, req).reserve_y == 0,
        pool_after_withdraw(pool, req).share_supply == 0,
{
    lemma_full_redemption(pool.reserve_x, pool.share_supply);
    lemma_full_redemption(pool.reserve_y, pool.share_supply);
}

} // verus!
