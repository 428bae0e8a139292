use amm_withdraw::effects;
use amm_withdraw::withdraw;
use amm_withdraw::withdraw_liquidity;
use amm_withdraw::AmmError;
use amm_withdraw::LedgerEffect;
use amm_withdraw::PoolState;
use amm_withdraw::DEFAULT_PRECISION;
use amm_withdraw::WithdrawRequest;
use amm_withdraw::WithdrawResult;

fn pool_1000_2000_100() -> PoolState {
    PoolState {
        reserve_x: 1000,
        reserve_y: 2000,
        share_supply: 100,
        fee_bps: 30,
        precision: DEFAULT_PRECISION,
        locked: false,
    }
}

#[test]
fn proportional_payout_succeeds() {
    let pool = pool_1000_2000_100();
    let req = WithdrawRequest { burn_amount: 10, min_x: 100, min_y: 200 };
    let r = withdraw(&pool, &req);
    assert_eq!(r, Ok(WithdrawResult { pay_x: 100, pay_y: 200, burn_amount: 10 }));
}

#[test]
fn commit_reduces_supply_and_reserves() {
    let mut pool = pool_1000_2000_100();
    let req = WithdrawRequest { burn_amount: 10, min_x: 100, min_y: 200 };
    let res = withdraw(&pool, &req).unwrap();
    pool.commit(&res);
    assert_eq!(pool.reserve_x, 900);
    assert_eq!(pool.reserve_y, 1800);
    assert_eq!(pool.share_supply, 90);
    assert_eq!(pool.fee_bps, 30);
    assert_eq!(pool.precision, 6);
    assert!(!pool.locked);
}

#[test]
fn raised_minimum_hits_slippage() {
    let pool = pool_1000_2000_100();
    let req = WithdrawRequest { burn_amount: 10, min_x: 101, min_y: 200 };
    assert_eq!(withdraw(&pool, &req), Err(AmmError::SlippageExceeded));
}

#[test]
fn slippage_on_second_asset_alone() {
    let pool = pool_1000_2000_100();
    let req = WithdrawRequest { burn_amount: 10, min_x: 100, min_y: 201 };
    assert_eq!(withdraw(&pool, &req), Err(AmmError::SlippageExceeded));
}

#[test]
fn payout_exactly_at_minimum_is_accepted() {
    let pool = pool_1000_2000_100();
    let req = WithdrawRequest { burn_amount: 1, min_x: 10, min_y: 20 };
    let r = withdraw(&pool, &req);
    assert_eq!(r, Ok(WithdrawResult { pay_x: 10, pay_y: 20, burn_amount: 1 }));
}

#[test]
fn zero_burn_is_invalid_amount() {
    let pool = pool_1000_2000_100();
    let req = WithdrawRequest { burn_amount: 0, min_x: 0, min_y: 0 };
    assert_eq!(withdraw(&pool, &req), Err(AmmError::InvalidAmount));
}

#[test]
fn locked_pool_refuses_before_anything_else() {
    let mut pool = pool_1000_2000_100();
    pool.locked = true;
    // Even a request that would otherwise be an invalid amount reports the
    // lock: the lock check comes first.
    let req = WithdrawRequest { burn_amount: 0, min_x: 0, min_y: 0 };
    assert_eq!(withdraw(&pool, &req), Err(AmmError::PoolLocked));
    let req2 = WithdrawRequest { burn_amount: 10, min_x: 0, min_y: 0 };
    assert_eq!(withdraw(&pool, &req2), Err(AmmError::PoolLocked));
}

#[test]
fn zero_supply_is_insufficient_balance() {
    let mut pool = pool_1000_2000_100();
    pool.share_supply = 0;
    let req = WithdrawRequest { burn_amount: 10, min_x: 0, min_y: 0 };
    assert_eq!(withdraw(&pool, &req), Err(AmmError::InsufficientBalance));
}

#[test]
fn unrepresentable_payout_is_arithmetic_overflow() {
    // Burning more shares than exist against a maximal reserve pushes the
    // quotient past the 64-bit range.
    let pool = PoolState {
        reserve_x: u64::MAX,
        reserve_y: 1,
        share_supply: 1,
        fee_bps: 0,
        precision: 6,
        locked: false,
    };
    let req = WithdrawRequest { burn_amount: 2, min_x: 0, min_y: 0 };
    assert_eq!(withdraw(&pool, &req), Err(AmmError::ArithmeticOverflow));
}

#[test]
fn curve_refuses_zero_supply_as_overflow() {
    // The engine itself guards the division: a zero supply is refused
    // explicitly, never left to a runtime trap.
    let r = withdraw_liquidity(1000, 2000, 0, 30, 6, 10, 0, 0);
    assert_eq!(r, Err(AmmError::ArithmeticOverflow));
}

#[test]
fn curve_refuses_zero_burn_first() {
    let r = withdraw_liquidity(1000, 2000, 0, 30, 6, 0, 0, 0);
    assert_eq!(r, Err(AmmError::InvalidAmount));
}

#[test]
fn fee_and_precision_do_not_alter_payouts() {
    let a = withdraw_liquidity(1000, 2000, 100, 0, 6, 10, 0, 0);
    let b = withdraw_liquidity(1000, 2000, 100, 500, 9, 10, 0, 0);
    assert_eq!(a, b);
    assert_eq!(a, Ok(WithdrawResult { pay_x: 100, pay_y: 200, burn_amount: 10 }));
}

#[test]
fn full_redemption_drains_both_reserves() {
    let mut pool = pool_1000_2000_100();
    let req = WithdrawRequest { burn_amount: 100, min_x: 1000, min_y: 2000 };
    let res = withdraw(&pool, &req).unwrap();
    assert_eq!(res, WithdrawResult { pay_x: 1000, pay_y: 2000, burn_amount: 100 });
    pool.commit(&res);
    assert_eq!(pool.reserve_x, 0);
    assert_eq!(pool.reserve_y, 0);
    assert_eq!(pool.share_supply, 0);
}

#[test]
fn division_floors_in_the_pools_favour() {
    // 10 * 1 / 3 floors to 3 on both sides; the dust stays in the pool.
    let r = withdraw_liquidity(10, 10, 3, 0, 6, 1, 0, 0);
    assert_eq!(r, Ok(WithdrawResult { pay_x: 3, pay_y: 3, burn_amount: 1 }));
}

#[test]
fn payouts_grow_with_the_burned_amount() {
    let mut last_x: u64 = 0;
    let mut last_y: u64 = 0;
    for b in 1..=100u64 {
        let r = withdraw_liquidity(1000, 2000, 100, 0, 6, b, 0, 0).unwrap();
        assert!(r.pay_x >= last_x);
        assert!(r.pay_y >= last_y);
        last_x = r.pay_x;
        last_y = r.pay_y;
    }
    assert_eq!(last_x, 1000);
    assert_eq!(last_y, 2000);
}

#[test]
fn failing_call_retried_unchanged_fails_identically() {
    let pool = pool_1000_2000_100();
    let req = WithdrawRequest { burn_amount: 10, min_x: 5000, min_y: 0 };
    let first = withdraw(&pool, &req);
    assert_eq!(first, Err(AmmError::SlippageExceeded));
    // The failing call proposed no effects and touched nothing: the same
    // pool and request decide the same way again.
    let second = withdraw(&pool, &req);
    assert_eq!(second, first);
}

#[test]
fn effects_come_in_the_fixed_order() {
    let res = WithdrawResult { pay_x: 100, pay_y: 200, burn_amount: 10 };
    let v = effects(&res);
    assert_eq!(
        v,
        vec![
            LedgerEffect::TransferX { amount: 100 },
            LedgerEffect::TransferY { amount: 200 },
            LedgerEffect::BurnShares { amount: 10 },
        ]
    );
}

#[test]
fn error_descriptions_are_distinct() {
    let all = [
        AmmError::PoolLocked,
        AmmError::InvalidAmount,
        AmmError::InsufficientBalance,
        AmmError::SlippageExceeded,
        AmmError::ArithmeticOverflow,
    ];
    for (i, a) in all.iter().enumerate() {
        for (j, b) in all.iter().enumerate() {
            assert_eq!(i == j, a.describe() == b.describe());
        }
    }
    assert_eq!(AmmError::PoolLocked.describe(), "pool locked");
}
