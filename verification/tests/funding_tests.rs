use staking::account::Pool;
use staking::errors::ErrorCode;
use staking::funders::authorize_funder;
use staking::funding::fund;

fn funding_pool() -> Pool {
    Pool {
        authority: 1,
        nonce: 0,
        paused: false,
        staking_mint: 11,
        staking_vault: 12,
        reward_mint: 13,
        reward_vault: 14,
        reward_duration: 100,
        reward_duration_end: 0,
        lock_period: 0,
        last_update_time: 0,
        reward_rate: 0,
        reward_per_token_stored: 0,
        user_stake_count: 0,
        total_staked: 0,
        no_tier: true,
        funders: vec![0, 0, 0, 0, 0],
    }
}

#[test]
fn fund_fresh_epoch_divides_amount_by_duration() {
    let mut pool = funding_pool();
    assert_eq!(fund(&mut pool, 1, 0, 1000), Ok(()));
    assert_eq!(pool.reward_rate, 10);
    assert_eq!(pool.last_update_time, 0);
    assert_eq!(pool.reward_duration_end, 100);
}

#[test]
fn fund_rounding_loses_the_remainder() {
    // 1005 over 100 seconds still yields rate 10: the 5 surplus units
    // are lost to integer division, by design.
    let mut pool = funding_pool();
    assert_eq!(fund(&mut pool, 1, 0, 1005), Ok(()));
    assert_eq!(pool.reward_rate, 10);
}

#[test]
fn fund_active_epoch_folds_leftover_into_rate() {
    let mut pool = funding_pool();
    assert_eq!(fund(&mut pool, 1, 0, 1000), Ok(()));
    assert_eq!(pool.reward_rate, 10);

    // At time 50 the running epoch still owes 50 * 10 = 500 units;
    // adding 500 more makes 1000 over a fresh 100-second epoch.
    assert_eq!(fund(&mut pool, 1, 50, 500), Ok(()));
    assert_eq!(pool.reward_rate, 10);
    assert_eq!(pool.last_update_time, 50);
    assert_eq!(pool.reward_duration_end, 150);
}

#[test]
fn fund_on_paused_pool_fails() {
    let mut pool = funding_pool();
    pool.paused = true;
    assert_eq!(fund(&mut pool, 1, 0, 1000), Err(ErrorCode::PoolPaused));
    assert_eq!(pool.reward_rate, 0);
}

#[test]
fn fund_by_stranger_fails() {
    let mut pool = funding_pool();
    assert_eq!(fund(&mut pool, 9, 0, 1000), Err(ErrorCode::Unauthorized));
    assert_eq!(pool.reward_rate, 0);
}

#[test]
fn fund_by_empty_marker_identity_fails() {
    // Free slots hold the empty marker, but the marker is no funder.
    let mut pool = funding_pool();
    assert_eq!(fund(&mut pool, 0, 0, 1000), Err(ErrorCode::Unauthorized));
    assert_eq!(pool.reward_rate, 0);
}

#[test]
fn fund_by_authorized_funder_succeeds() {
    let mut pool = funding_pool();
    assert_eq!(authorize_funder(&mut pool, 1, 9), Ok(()));
    assert_eq!(fund(&mut pool, 9, 0, 1000), Ok(()));
    assert_eq!(pool.reward_rate, 10);
}

#[test]
fn fund_leftover_overflow_leaves_pool_unchanged() {
    let mut pool = funding_pool();
    pool.reward_duration_end = u64::MAX;
    pool.reward_rate = u64::MAX;
    pool.total_staked = 0;
    assert_eq!(fund(&mut pool, 1, 10, 1), Err(ErrorCode::ArithmeticOverflow));
    assert_eq!(pool.reward_rate, u64::MAX);
    assert_eq!(pool.reward_duration_end, u64::MAX);
    assert_eq!(pool.last_update_time, 0);
}

#[test]
fn fund_zero_amount_still_restarts_the_epoch() {
    let mut pool = funding_pool();
    assert_eq!(fund(&mut pool, 1, 200, 0), Ok(()));
    assert_eq!(pool.reward_rate, 0);
    assert_eq!(pool.last_update_time, 200);
    assert_eq!(pool.reward_duration_end, 300);
}
