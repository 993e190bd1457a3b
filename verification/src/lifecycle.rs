//! The pool lifecycle: creation, pause and unpause, user-record
//! bookkeeping, and closure.
//!
//! The host verifies signatures and owns the records; this module holds
//! the business rules: who may act, in which state, and what the
//! terminal conditions are.

use vstd::prelude::*;

use crate::{EMPTY_FUNDER, MIN_DURATION};
use crate::account::{FUNDER_SLOTS, Pool, PoolModel, PoolRefunds, User, UserModel};
use crate::errors::ErrorCode;

verus! {

/// The record a new pool starts from: nothing staked, nothing funded,
/// no users, an empty funder list, and an epoch that has never started.
/// A reward duration under `MIN_DURATION` is refused.
pub open spec fn spec_initialize_pool(
    authority: u64,
    nonce: u8,
    staking_mint: u64,
    staking_vault: u64,
    reward_mint: u64,
    reward_vault: u64,
    reward_duration: u64,
    lock_period: u64,
    no_tier: bool,
) -> Result<PoolModel, ErrorCode> {
    if reward_duration < MIN_DURATION {
        Err(ErrorCode::DurationTooShort)
    } else {
        Ok(
            PoolModel {
                authority,
                nonce,
                paused: false,
                staking_mint,
                staking_vault,
                reward_mint,
                reward_vault,
                reward_duration,
                reward_duration_end: 0,
                lock_period,
                last_update_time: 0,
                reward_rate: 0,
                reward_per_token_stored: 0,
                user_stake_count: 0,
                total_staked: 0,
                no_tier,
                funders: Seq::new(FUNDER_SLOTS as nat, |i: int| EMPTY_FUNDER),
            },
        )
    }
}

/// Creates a pool record for a new staking campaign.
pub fn initialize_pool(
    authority: u64,
    pool_nonce: u8,
    staking_mint: u64,
    staking_vault: u64,
    reward_mint: u64,
    reward_vault: u64,
    reward_duration: u64,
    lock_period: u64,
    no_tier: bool,
) -> (r: Result<Pool, ErrorCode>)
    ensures
        match spec_initialize_pool(
            authority,
            pool_nonce,
            staking_mint,
            staking_vault,
            reward_mint,
            reward_vault,
            reward_duration,
            lock_period,
            no_tier,
        ) {
            Ok(pm) => r matches Ok(p) && p@ == pm,
            Err(e) => r == Err::<Pool, ErrorCode>(e),
        },
{
    if reward_duration < MIN_DURATION {
        return Err(ErrorCode::DurationTooShort);
    }
    let mut funders: Vec<u64> = Vec::new();
    let mut i: usize = 0;
    while i < FUNDER_SLOTS
        invariant
            i <= FUNDER_SLOTS,
            funders@.len() == i,
            forall|j: int| 0 <= j < i ==> funders@[j] == EMPTY_FUNDER,
        decreases FUNDER_SLOTS - i,
    {
        funders.push(EMPTY_FUNDER);
        i += 1;
    }
    proof {
        assert(funders@ =~= Seq::new(FUNDER_SLOTS as nat, |j: int| EMPTY_FUNDER));
    }
    Ok(
        Pool {
            authority,
            nonce: pool_nonce,
            paused: false,
            staking_mint,
            staking_vault,
            reward_mint,
            reward_vault,
            reward_duration,
            reward_duration_end: 0,
            lock_period,
            last_update_time: 0,
            reward_rate: 0,
            reward_per_token_stored: 0,
            user_stake_count: 0,
            total_staked: 0,
            no_tier,
            funders,
        },
    )
}

/// The outcome of opening a user record in the pool identified by
/// `pool_key` for `owner`: the record starts with nothing staked,
/// nothing pending and no snapshot, and the pool's user count grows by
/// one. A pause does not block it: it gates only new stakes and new
/// funding, and a record that stakes nothing moves neither.
pub open spec fn spec_create_user(p: PoolModel, pool_key: u64, owner: u64, nonce: u8) -> Result<
    (PoolModel, UserModel),
    ErrorCode,
> {
    if p.user_stake_count + 1 > u32::MAX {
        Err(ErrorCode::ArithmeticOverflow)
    } else {
        Ok(
            (
                PoolModel { user_stake_count: (p.user_stake_count + 1) as u32, ..p },
                UserModel {
                    pool: pool_key,
                    owner,
                    reward_per_token_complete: 0,
                    reward_per_token_pending: 0,
                    balance_staked: 0,
                    maturity_time: 0,
                    tier: 0,
                    nonce,
                },
            ),
        )
    }
}

/// Opens a user record and counts it in the pool. On an error nothing
/// changes.
pub fn create_user(pool: &mut Pool, pool_key: u64, owner: u64, nonce: u8) -> (r: Result<
    User,
    ErrorCode,
>)
    ensures
        match spec_create_user(old(pool)@, pool_key, owner, nonce) {
            Ok((pm, um)) => r matches Ok(u) && final(pool)@ == pm && u@ == um,
            Err(e) => r == Err::<User, ErrorCode>(e) && *final(pool) == *old(pool),
        },
{
    let new_count = match pool.user_stake_count.checked_add(1) {
        Some(c) => c,
        None => {
            return Err(ErrorCode::ArithmeticOverflow);
        },
    };
    pool.user_stake_count = new_count;
    Ok(
        User {
            pool: pool_key,
            owner,
            reward_per_token_complete: 0,
            reward_per_token_pending: 0,
            balance_staked: 0,
            maturity_time: 0,
            tier: 0,
            nonce,
        },
    )
}

/// The outcome of pausing: only the authority, only a pool not already
/// paused, and only once the current funding epoch has fully elapsed.
pub open spec fn spec_pause(p: PoolModel, caller: u64, now: u64) -> Result<PoolModel, ErrorCode> {
    if caller != p.authority {
        Err(ErrorCode::Unauthorized)
    } else if p.paused {
        Err(ErrorCode::PoolPaused)
    } else if p.reward_duration_end >= now {
        Err(ErrorCode::StorageConstraintViolated)
    } else {
        Ok(PoolModel { paused: true, ..p })
    }
}

/// Pauses the pool, blocking new stakes and new funding. Stakers may
/// still exit and claim. On an error nothing changes.
pub fn pause(pool: &mut Pool, caller: u64, now: u64) -> (r: Result<(), ErrorCode>)
    ensures
        match spec_pause(old(pool)@, caller, now) {
            Ok(p1) => r is Ok && final(pool)@ == p1,
            Err(e) => r == Err::<(), ErrorCode>(e) && *final(pool) == *old(pool),
        },
{
    if caller != pool.authority {
        return Err(ErrorCode::Unauthorized);
    }
    if pool.paused {
        return Err(ErrorCode::PoolPaused);
    }
    if pool.reward_duration_end >= now {
        return Err(ErrorCode::StorageConstraintViolated);
    }
    pool.paused = true;
    Ok(())
}

/// The outcome of unpausing: only the authority, only a paused pool.
pub open spec fn spec_unpause(p: PoolModel, caller: u64) -> Result<PoolModel, ErrorCode> {
    if caller != p.authority {
        Err(ErrorCode::Unauthorized)
    } else if !p.paused {
        Err(ErrorCode::StorageConstraintViolated)
    } else {
        Ok(PoolModel { paused: false, ..p })
    }
}

/// Lifts a pause. On an error nothing changes.
pub fn unpause(pool: &mut Pool, caller: u64) -> (r: Result<(), ErrorCode>)
    ensures
        match spec_unpause(old(pool)@, caller) {
            Ok(p1) => r is Ok && final(pool)@ == p1,
            Err(e) => r == Err::<(), ErrorCode>(e) && *final(pool) == *old(pool),
        },
{
    if caller != pool.authority {
        return Err(ErrorCode::Unauthorized);
    }
    if !pool.paused {
        return Err(ErrorCode::StorageConstraintViolated);
    }
    pool.paused = false;
    Ok(())
}

/// The outcome of destroying a user record: only a record with nothing
/// staked and nothing pending may go, and the pool's user count shrinks
/// by one.
pub open spec fn spec_close_user(p: PoolModel, u: UserModel) -> Result<PoolModel, ErrorCode> {
    if u.balance_staked != 0 || u.reward_per_token_pending != 0 {
        Err(ErrorCode::StorageConstraintViolated)
    } else if p.user_stake_count == 0 {
        Err(ErrorCode::ArithmeticUnderflow)
    } else {
        Ok(PoolModel { user_stake_count: (p.user_stake_count - 1) as u32, ..p })
    }
}

/// Checks the destruction preconditions of a user record and counts it
/// out of the pool; the host then destroys the record. The host has
/// already verified that the record belongs to this pool and that its
/// owner signed. On an error nothing changes.
pub fn close_user(pool: &mut Pool, user: &User) -> (r: Result<(), ErrorCode>)
    ensures
        match spec_close_user(old(pool)@, user@) {
            Ok(p1) => r is Ok && final(pool)@ == p1,
            Err(e) => r == Err::<(), ErrorCode>(e) && *final(pool) == *old(pool),
        },
{
    if user.balance_staked != 0 || user.reward_per_token_pending != 0 {
        return Err(ErrorCode::StorageConstraintViolated);
    }
    let new_count = match pool.user_stake_count.checked_sub(1) {
        Some(c) => c,
        None => {
            return Err(ErrorCode::ArithmeticUnderflow);
        },
    };
    pool.user_stake_count = new_count;
    Ok(())
}

/// The outcome of closing a pool: only the authority, only a paused
/// pool whose funding epoch has started (`reward_duration_end > 0`) and
/// fully elapsed, with no user records and nothing staked. What the two
/// vaults still hold is swept to the refund destinations.
pub open spec fn spec_close_pool(
    p: PoolModel,
    caller: u64,
    now: u64,
    staking_vault_balance: u64,
    reward_vault_balance: u64,
) -> Result<PoolRefunds, ErrorCode> {
    if caller != p.authority {
        Err(ErrorCode::Unauthorized)
    } else if !p.paused {
        Err(ErrorCode::StorageConstraintViolated)
    } else if p.reward_duration_end == 0 {
        Err(ErrorCode::StorageConstraintViolated)
    } else if p.reward_duration_end >= now {
        Err(ErrorCode::StorageConstraintViolated)
    } else if p.user_stake_count != 0 {
        Err(ErrorCode::StorageConstraintViolated)
    } else if p.total_staked != 0 {
        Err(ErrorCode::StorageConstraintViolated)
    } else {
        Ok(PoolRefunds { staking_refund: staking_vault_balance, reward_refund: reward_vault_balance })
    }
}

/// Checks the terminal conditions of a pool and reports what the host
/// must sweep out of each vault before destroying the pool record and
/// both vault records. Each sweep, when its amount is above zero, and
/// the destruction must be atomic with the caller's transaction.
pub fn close_pool(
    pool: &Pool,
    caller: u64,
    now: u64,
    staking_vault_balance: u64,
    reward_vault_balance: u64,
) -> (r: Result<PoolRefunds, ErrorCode>)
    ensures
        r == spec_close_pool(pool@, caller, now, staking_vault_balance, reward_vault_balance),
{
    if caller != pool.authority {
        return Err(ErrorCode::Unauthorized);
    }
    if !pool.paused {
        return Err(ErrorCode::StorageConstraintViolated);
    }
    if pool.reward_duration_end == 0 {
        return Err(ErrorCode::StorageConstraintViolated);
    }
    if pool.reward_duration_end >= now {
        return Err(ErrorCode::StorageConstraintViolated);
    }
    if pool.user_stake_count != 0 {
        return Err(ErrorCode::StorageConstraintViolated);
    }
    if pool.total_staked != 0 {
        return Err(ErrorCode::StorageConstraintViolated);
    }
    Ok(PoolRefunds { staking_refund: staking_vault_balance, reward_refund: reward_vault_balance })
}

} // verus!
