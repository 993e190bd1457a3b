//! The funding scheduler: refreshing the reward emission rate when new
//! rewards are deposited.

use vstd::prelude::*;

use crate::account::{Pool, PoolModel};
use crate::errors::ErrorCode;
use crate::funders::spec_first_slot;
use crate::reward::{spec_pool_checkpoint, try_reward_per_token};

verus! {

/// Whether `funder` may deposit rewards: the pool authority always may,
/// and so may any identity in the funder list. The empty-slot marker
/// stands for no identity and authorizes nobody, however many slots
/// are free.
pub open spec fn spec_may_fund(p: PoolModel, funder: u64) -> bool {
    funder == p.authority || (funder != crate::EMPTY_FUNDER && spec_first_slot(p.funders, funder)
        >= 0)
}

/// The outcome of depositing `amount` of reward at time `now`: refused
/// while the pool is paused or for an unauthorized funder. Otherwise a
/// checkpoint, then the emission rate is recomputed. On a fresh epoch
/// (the prior one has elapsed) the rate is `amount / reward_duration`,
/// the integer division losing up to `reward_duration - 1` units to
/// rounding, by design. On an active epoch the undistributed remainder
/// `remaining * rate` is folded into the new rate. Either way a new
/// epoch of the pool's full duration starts at `now`.
pub open spec fn spec_fund(p: PoolModel, funder: u64, now: u64, amount: u64) -> Result<
    PoolModel,
    ErrorCode,
> {
    if p.paused {
        Err(ErrorCode::PoolPaused)
    } else if !spec_may_fund(p, funder) {
        Err(ErrorCode::Unauthorized)
    } else {
        match spec_pool_checkpoint(p, p.total_staked, now) {
            Ok(p1) => {
                if now >= p.reward_duration_end {
                    if p.reward_duration == 0 {
                        Err(ErrorCode::ArithmeticOverflow)
                    } else if now + p.reward_duration > u64::MAX {
                        Err(ErrorCode::ArithmeticOverflow)
                    } else {
                        Ok(
                            PoolModel {
                                reward_rate: (amount as int / p.reward_duration as int) as u64,
                                last_update_time: now,
                                reward_duration_end: (now + p.reward_duration) as u64,
                                ..p1
                            },
                        )
                    }
                } else {
                    let remaining = p.reward_duration_end - now;
                    let leftover = remaining * p.reward_rate;
                    if leftover > u64::MAX {
                        Err(ErrorCode::ArithmeticOverflow)
                    } else if amount + leftover > u64::MAX {
                        Err(ErrorCode::ArithmeticOverflow)
                    } else if p.reward_duration == 0 {
                        Err(ErrorCode::ArithmeticOverflow)
                    } else if now + p.reward_duration > u64::MAX {
                        Err(ErrorCode::ArithmeticOverflow)
                    } else {
                        Ok(
                            PoolModel {
                                reward_rate: ((amount + leftover) / p.reward_duration as int) as u64,
                                last_update_time: now,
                                reward_duration_end: (now + p.reward_duration) as u64,
                                ..p1
                            },
                        )
                    }
                }
            },
            Err(e) => Err(e),
        }
    }
}

/// Deposits `amount` of reward at time `now` and recomputes the
/// emission rate. On success the host must move `amount` of the reward
/// asset from the funder's account into the reward vault when `amount`
/// is above zero, atomically with this state change; on an error
/// nothing changed and nothing moves.
pub fn fund(pool: &mut Pool, funder: u64, now: u64, amount: u64) -> (r: Result<(), ErrorCode>)
    ensures
        match spec_fund(old(pool)@, funder, now, amount) {
            Ok(p1) => r is Ok && final(pool)@ == p1,
            Err(e) => r == Err::<(), ErrorCode>(e) && *final(pool) == *old(pool),
        },
        final(pool).reward_per_token_stored >= old(pool).reward_per_token_stored,
{
    if pool.paused {
        return Err(ErrorCode::PoolPaused);
    }
    let authorized = funder == pool.authority || (funder != crate::EMPTY_FUNDER
        && crate::funders::is_funder(&pool.funders, funder));
    if !authorized {
        return Err(ErrorCode::Unauthorized);
    }
    let t = if now < pool.reward_duration_end {
        now
    } else {
        pool.reward_duration_end
    };
    let stored = match try_reward_per_token(
        pool.total_staked,
        pool.reward_per_token_stored,
        t,
        pool.last_update_time,
        pool.reward_rate,
    ) {
        Ok(s) => s,
        Err(e) => {
            return Err(e);
        },
    };
    let new_rate = if now >= pool.reward_duration_end {
        match amount.checked_div(pool.reward_duration) {
            Some(rate) => rate,
            None => {
                return Err(ErrorCode::ArithmeticOverflow);
            },
        }
    } else {
        let remaining = pool.reward_duration_end - now;
        let leftover = match remaining.checked_mul(pool.reward_rate) {
            Some(l) => l,
            None => {
                return Err(ErrorCode::ArithmeticOverflow);
            },
        };
        let refreshed = match amount.checked_add(leftover) {
            Some(s) => s,
            None => {
                return Err(ErrorCode::ArithmeticOverflow);
            },
        };
        match refreshed.checked_div(pool.reward_duration) {
            Some(rate) => rate,
            None => {
                return Err(ErrorCode::ArithmeticOverflow);
            },
        }
    };
    let new_end = match now.checked_add(pool.reward_duration) {
        Some(e) => e,
        None => {
            return Err(ErrorCode::ArithmeticOverflow);
        },
    };
    pool.reward_per_token_stored = stored;
    pool.reward_rate = new_rate;
    pool.last_update_time = now;
    pool.reward_duration_end = new_end;
    Ok(())
}

} // verus!
