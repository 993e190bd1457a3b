use staking::account::Pool;
use staking::errors::ErrorCode;
use staking::funders::{authorize_funder, deauthorize_funder};

fn registry_pool() -> Pool {
    Pool {
        authority: 1,
        nonce: 0,
        paused: false,
        staking_mint: 11,
        staking_vault: 12,
        reward_mint: 13,
        reward_vault: 14,
        reward_duration: 86400,
        reward_duration_end: 0,
        lock_period: 0,
        last_update_time: 0,
        reward_rate: 0,
        reward_per_token_stored: 0,
        user_stake_count: 0,
        total_staked: 0,
        no_tier: true,
        funders: vec![0, 0, 0, 0, 0],
    }
}

#[test]
fn authorize_fills_first_empty_slot() {
    let mut pool = registry_pool();
    assert_eq!(authorize_funder(&mut pool, 1, 7), Ok(()));
    assert_eq!(pool.funders, vec![7, 0, 0, 0, 0]);
    assert_eq!(authorize_funder(&mut pool, 1, 8), Ok(()));
    assert_eq!(pool.funders, vec![7, 8, 0, 0, 0]);
}

#[test]
fn authorize_by_stranger_fails() {
    let mut pool = registry_pool();
    assert_eq!(authorize_funder(&mut pool, 2, 7), Err(ErrorCode::Unauthorized));
    assert_eq!(pool.funders, vec![0, 0, 0, 0, 0]);
}

#[test]
fn authorize_the_authority_fails() {
    let mut pool = registry_pool();
    assert_eq!(
        authorize_funder(&mut pool, 1, 1),
        Err(ErrorCode::FunderAlreadyAuthorized)
    );
}

#[test]
fn authorize_twice_fails() {
    let mut pool = registry_pool();
    assert_eq!(authorize_funder(&mut pool, 1, 7), Ok(()));
    assert_eq!(
        authorize_funder(&mut pool, 1, 7),
        Err(ErrorCode::FunderAlreadyAuthorized)
    );
    assert_eq!(pool.funders, vec![7, 0, 0, 0, 0]);
}

#[test]
fn sixth_funder_exceeds_capacity() {
    let mut pool = registry_pool();
    for candidate in [2u64, 3, 4, 5, 6] {
        assert_eq!(authorize_funder(&mut pool, 1, candidate), Ok(()));
    }
    assert_eq!(pool.funders, vec![2, 3, 4, 5, 6]);
    assert_eq!(
        authorize_funder(&mut pool, 1, 7),
        Err(ErrorCode::FunderCapacityExceeded)
    );
    assert_eq!(pool.funders, vec![2, 3, 4, 5, 6]);
}

#[test]
fn deauthorize_frees_the_slot_for_reuse() {
    let mut pool = registry_pool();
    for candidate in [2u64, 3, 4, 5, 6] {
        assert_eq!(authorize_funder(&mut pool, 1, candidate), Ok(()));
    }
    assert_eq!(deauthorize_funder(&mut pool, 1, 4), Ok(()));
    assert_eq!(pool.funders, vec![2, 3, 0, 5, 6]);
    assert_eq!(authorize_funder(&mut pool, 1, 9), Ok(()));
    assert_eq!(pool.funders, vec![2, 3, 9, 5, 6]);
}

#[test]
fn deauthorize_the_authority_fails() {
    let mut pool = registry_pool();
    assert_eq!(
        deauthorize_funder(&mut pool, 1, 1),
        Err(ErrorCode::CannotModifyPoolAuthorityAsFunder)
    );
}

#[test]
fn deauthorize_by_stranger_fails() {
    let mut pool = registry_pool();
    assert_eq!(authorize_funder(&mut pool, 1, 7), Ok(()));
    assert_eq!(
        deauthorize_funder(&mut pool, 2, 7),
        Err(ErrorCode::Unauthorized)
    );
    assert_eq!(pool.funders, vec![7, 0, 0, 0, 0]);
}

#[test]
fn authorize_the_empty_marker_fails() {
    // The empty-slot marker stands for no identity and cannot be
    // authorized, however many slots are free.
    let mut pool = registry_pool();
    assert_eq!(
        authorize_funder(&mut pool, 1, 0),
        Err(ErrorCode::FunderAlreadyAuthorized)
    );
    assert_eq!(pool.funders, vec![0, 0, 0, 0, 0]);
}

#[test]
fn deauthorize_the_empty_marker_fails() {
    let mut pool = registry_pool();
    assert_eq!(
        deauthorize_funder(&mut pool, 1, 0),
        Err(ErrorCode::FunderNotFound)
    );
    assert_eq!(pool.funders, vec![0, 0, 0, 0, 0]);
}

#[test]
fn deauthorize_missing_funder_fails() {
    let mut pool = registry_pool();
    assert_eq!(
        deauthorize_funder(&mut pool, 1, 7),
        Err(ErrorCode::FunderNotFound)
    );
}
