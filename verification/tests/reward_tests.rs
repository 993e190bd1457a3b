use staking::PRECISION;
use staking::account::{Pool, User};
use staking::errors::ErrorCode;
use staking::reward::{
    checkpoint_pool, earned, last_time_reward_applicable, reward_per_token, try_earned,
    try_reward_per_token, update_rewards,
};

fn reward_pool() -> Pool {
    Pool {
        authority: 1,
        nonce: 0,
        paused: false,
        staking_mint: 11,
        staking_vault: 12,
        reward_mint: 13,
        reward_vault: 14,
        reward_duration: 86400,
        reward_duration_end: 1000,
        lock_period: 0,
        last_update_time: 0,
        reward_rate: 50,
        reward_per_token_stored: 0,
        user_stake_count: 1,
        total_staked: 100,
        no_tier: true,
        funders: vec![0, 0, 0, 0, 0],
    }
}

fn reward_user() -> User {
    User {
        pool: 21,
        owner: 22,
        reward_per_token_complete: 0,
        reward_per_token_pending: 0,
        balance_staked: 100,
        maturity_time: 0,
        tier: 0,
        nonce: 0,
    }
}

#[test]
fn applicable_time_is_capped_at_epoch_end() {
    assert_eq!(last_time_reward_applicable(100, 50), 50);
    assert_eq!(last_time_reward_applicable(100, 100), 100);
    assert_eq!(last_time_reward_applicable(100, 150), 100);
}

#[test]
fn reward_per_token_exact_increment() {
    // 10 seconds at rate 50 over 100 staked units: 5 whole reward
    // units per staked unit, scaled by PRECISION.
    let r = reward_per_token(100, 0, 10, 0, 50);
    assert_eq!(r, 5 * PRECISION);
}

#[test]
fn reward_per_token_unchanged_with_nothing_staked() {
    assert_eq!(reward_per_token(0, 77, 10, 0, 50), 77);
}

#[test]
fn reward_per_token_underflow_when_time_moves_back() {
    let r = try_reward_per_token(100, 0, 10, 500, 50);
    assert_eq!(r, Err(ErrorCode::ArithmeticUnderflow));
}

#[test]
fn reward_per_token_overflow_on_huge_rate() {
    let r = try_reward_per_token(1, 0, u64::MAX, 0, u64::MAX);
    assert_eq!(r, Err(ErrorCode::ArithmeticOverflow));
}

#[test]
fn earned_exact_value() {
    // 100 staked units over an accumulator movement of 5 whole units,
    // plus 7 already pending.
    let e = earned(100, 5 * PRECISION, 0, 7);
    assert_eq!(e, 507);
}

#[test]
fn earned_underflow_when_snapshot_ahead() {
    let e = try_earned(100, 1, 2, 0);
    assert_eq!(e, Err(ErrorCode::ArithmeticUnderflow));
}

#[test]
fn earned_overflow_when_result_exceeds_pending_field() {
    // The accumulator moved by u64::MAX whole units against one staked
    // unit: the pending field cannot absorb the last added unit.
    let e = try_earned(1, u128::MAX, 0, 1);
    assert_eq!(e, Err(ErrorCode::ArithmeticOverflow));
}

#[test]
fn checkpoint_advances_accumulator_and_clock() {
    let mut pool = reward_pool();
    assert_eq!(checkpoint_pool(&mut pool, 100, 10), Ok(()));
    assert_eq!(pool.reward_per_token_stored, 5 * PRECISION);
    assert_eq!(pool.last_update_time, 10);
}

#[test]
fn checkpoint_with_nothing_staked_only_advances_clock() {
    let mut pool = reward_pool();
    pool.reward_per_token_stored = 123;
    assert_eq!(checkpoint_pool(&mut pool, 0, 10), Ok(()));
    assert_eq!(pool.reward_per_token_stored, 123);
    assert_eq!(pool.last_update_time, 10);

    // Past the epoch's end the clock advances only to the end.
    assert_eq!(checkpoint_pool(&mut pool, 0, 5000), Ok(()));
    assert_eq!(pool.reward_per_token_stored, 123);
    assert_eq!(pool.last_update_time, 1000);
}

#[test]
fn checkpoint_never_decreases_accumulator() {
    let mut pool = reward_pool();
    let mut previous = pool.reward_per_token_stored;
    for now in [5u64, 10, 10, 400, 1000, 2000] {
        assert_eq!(checkpoint_pool(&mut pool, 100, now), Ok(()));
        assert!(pool.reward_per_token_stored >= previous);
        previous = pool.reward_per_token_stored;
    }
}

#[test]
fn update_rewards_folds_movement_into_pending() {
    let mut pool = reward_pool();
    let mut user = reward_user();
    assert_eq!(update_rewards(&mut pool, &mut user, 100, 10), Ok(()));
    assert_eq!(pool.reward_per_token_stored, 5 * PRECISION);
    assert_eq!(pool.last_update_time, 10);
    assert_eq!(user.reward_per_token_pending, 500);
    assert_eq!(user.reward_per_token_complete, 5 * PRECISION);

    // A second checkpoint at the same time adds nothing.
    assert_eq!(update_rewards(&mut pool, &mut user, 100, 10), Ok(()));
    assert_eq!(user.reward_per_token_pending, 500);
}

#[test]
fn update_rewards_error_leaves_records_unchanged() {
    let mut pool = reward_pool();
    pool.last_update_time = 500;
    let mut user = reward_user();
    // The checkpoint time lies before the last update: an underflow,
    // and neither record moves.
    assert_eq!(
        update_rewards(&mut pool, &mut user, 100, 10),
        Err(ErrorCode::ArithmeticUnderflow)
    );
    assert_eq!(pool.reward_per_token_stored, 0);
    assert_eq!(pool.last_update_time, 500);
    assert_eq!(user.reward_per_token_pending, 0);
    assert_eq!(user.reward_per_token_complete, 0);
}
