//! The curve engine: pure computation of withdrawal payouts under the
//! constant-product model.
//!
//! Withdrawal is proportional-share redemption at the pool's current ratio:
//! each payout is `floor(reserve * burn_amount / share_supply)`.  The floor
//! keeps the rounding dust in the pool's favour.  Withdrawal is fee-exempt:
//! the fee rate (and the fixed-point precision) are accepted for interface
//! symmetry with the other curve operations but do not alter the payouts.

use vstd::arithmetic::div_mod::lemma_div_by_multiple;
use vstd::arithmetic::div_mod::lemma_div_is_ordered;
use vstd::arithmetic::div_mod::lemma_div_pos_is_pos;
use vstd::arithmetic::mul::lemma_mul_inequality;
use vstd::arithmetic::mul::lemma_mul_is_commutative;
use vstd::arithmetic::mul::lemma_mul_nonnegative;
use vstd::arithmetic::mul::lemma_mul_upper_bound;
use vstd::prelude::*;

use crate::errors::AmmError;
use crate::state::WithdrawResult;

verus! {

/// What a burn of `burn_amount` shares pays out of one reserve:
/// `floor(reserve * burn_amount / share_supply)`, computed without
/// intermediate truncation.
pub open spec fn payout(reserve: u64, burn_amount: u64, share_supply: u64) -> int
    recommends
        share_supply > 0,
{
    (reserve * burn_amount) / (share_supply as int)
}

/// Whether the payout of one reserve is representable as a 64-bit quantity.
pub open spec fn payout_fits(reserve: u64, burn_amount: u64, share_supply: u64) -> bool
    recommends
        share_supply > 0,
{
    payout(reserve, burn_amount, share_supply) <= u64::MAX
}

/// The curve engine's whole decision: which error a withdrawal computation
/// fails with, or the exact payouts it owes.  The checks short-circuit in
/// this order: zero burn, zero supply, unrepresentable payout, slippage.
pub open spec fn curve_withdraw(
    reserve_x: u64,
    reserve_y: u64,
    share_supply: u64,
    burn_amount: u64,
    min_x: u64,
    min_y: u64,
) -> Result<WithdrawResult, AmmError> {
    if burn_amount == 0 {
        Err(AmmError::InvalidAmount)
    } else if share_supply == 0 {
        Err(AmmError::ArithmeticOverflow)
    } else if !payout_fits(reserve_x, burn_amount, share_supply) || !payout_fits(
        reserve_y,
        burn_amount,
        share_supply,
    ) {
        Err(AmmError::ArithmeticOverflow)
    } else if payout(reserve_x, burn_amount, share_supply) < min_x || payout(
        reserve_y,
        burn_amount,
        share_supply,
    ) < min_y {
        Err(AmmError::SlippageExceeded)
    } else {
        Ok(
            WithdrawResult {
                pay_x: payout(reserve_x, burn_amount, share_supply) as u64,
                pay_y: payout(reserve_y, burn_amount, share_supply) as u64,
                burn_amount,
            },
        )
    }
}

/// Payouts of one reserve are non-negative and, in the widened range, always
/// well-defined; this also bounds the widened product itself.
proof fn lemma_product_in_range(reserve: u64, burn_amount: u64)
    ensures
        0 <= reserve * burn_amount <= u128::MAX,
{
    lemma_mul_nonnegative(reserve as int, burn_amount as int);
    lemma_mul_upper_bound(reserve as int, u64::MAX as int, burn_amount as int, u64::MAX as int);
}

/// Computes the payouts owed for burning `burn_amount` shares, or the exact
/// error.  All multiplications are widened to 128 bits before the division,
/// which truncates toward zero, so the pool retains the remainder.
///
/// `fee_bps` and `precision` do not alter the result: withdrawal is
/// fee-exempt redemption at the current ratio.
#[allow(unused_variables)]
pub fn withdraw_liquidity(
    reserve_x: u64,
    reserve_y: u64,
    share_supply: u64,
    fee_bps: u16,
    precision: u8,
    burn_amount: u64,
    min_x: u64,
    min_y: u64,
) -> (r: Result<WithdrawResult, AmmError>)
    ensures
        r == curve_withdraw(reserve_x, reserve_y, share_supply, burn_amount, min_x, min_y),
{
    if burn_amount == 0 {
        return Err(AmmError::InvalidAmount);
    }
    if share_supply == 0 {
        return Err(AmmError::ArithmeticOverflow);
    }
    proof {
        lemma_product_in_range(reserve_x, burn_amount);
        lemma_product_in_range(reserve_y, burn_amount);
    }
    let qx: u128 = (reserve_x as u128) * (burn_amount as u128) / (share_supply as u128);
    let qy: u128 = (reserve_y as u128) * (burn_amount as u128) / (share_supply as u128);
    if qx > (u64::MAX as u128) || qy > (u64::MAX as u128) {
        return Err(AmmError::ArithmeticOverflow);
    }
    let pay_x: u64 = qx as u64;
    let pay_y: u64 = qy as u64;
    if pay_x < min_x || pay_y < min_y {
        return Err(AmmError::SlippageExceeded);
    }
    Ok(WithdrawResult { pay_x, pay_y, burn_amount })
}

/// For a fixed pool, payouts never decrease as the burned amount grows.
pub proof fn lemma_payout_monotone(reserve: u64, share_supply: u64, b1: u64, b2: u64)
    requires
        share_supply > 0,
        b1 <= b2,
    ensures
        payout(reserve, b1, share_supply) <= payout(reserve, b2, share_supply),
{
    lemma_mul_inequality(b1 as int, b2 as int, reserve as int);
    lemma_mul_is_commutative(b1 as int, reserve as int);
    lemma_mul_is_commutative(b2 as int, reserve as int);
    lemma_div_is_ordered(reserve * b1, reserve * b2, share_supply as int);
}

/// Burning the entire share supply redeems the entire reserve exactly: the
/// division is exact, so no rounding dust is left behind.
pub proof fn lemma_full_redemption(reserve: u64, share_supply: u64)
    requires
        share_supply > 0,
    ensures
        payout(reserve, share_supply, share_supply) == reserve,
{
    lemma_div_by_multiple(reserve as int, share_supply as int);
}

/// A burn within the outstanding supply pays out at most the reserve: the
/// pool can always cover an accepted withdrawal.
pub proof fn lemma_payout_within_reserve(reserve: u64, share_supply: u64, burn_amount: u64)
    requires
        share_supply > 0,
        burn_amount <= share_supply,
    ensures
        0 <= payout(reserve, burn_amount, share_supply) <= reserve,
{
    lemma_mul_nonnegative(reserve as int, burn_amount as int);
    lemma_div_pos_is_pos(reserve * burn_amount, share_supply as int);
    lemma_mul_inequality(burn_amount as int, share_supply as int, reserve as int);
    lemma_mul_is_commutative(burn_amount as int, reserve as int);
    lemma_mul_is_commutative(share_supply as int, reserve as int);
    lemma_div_is_ordered(reserve * burn_amount, reserve * share_supply, share_supply as int);
    lemma_full_redemption(reserve, share_supply);
}

} // verus!
