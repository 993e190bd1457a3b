//! The checkpoint arithmetic: advancing the pool's reward-per-token
//! accumulator and a user's pending reward.
//!
//! Every operation that reads or writes a staked balance, the total
//! stake or the emission rate checkpoints first, so the accumulator is
//! never advanced against a stale total. All arithmetic is checked:
//! an overflow, underflow or division edge case aborts the operation
//! with an arithmetic error and no state change.

use vstd::prelude::*;

use crate::PRECISION;
use crate::account::{Pool, PoolModel, User, UserModel};
use crate::errors::ErrorCode;

verus! {

/// The smaller of two timestamps.
pub open spec fn min64(a: u64, b: u64) -> u64 {
    if a < b {
        a
    } else {
        b
    }
}

/// The effective checkpoint time: rewards stop accruing once the
/// current funding epoch has ended.
pub open spec fn spec_last_time_reward_applicable(reward_duration_end: u64, now: u64) -> u64 {
    min64(now, reward_duration_end)
}

/// The timestamp up to which rewards accrue: the current time, capped
/// at the end of the funding epoch.
pub fn last_time_reward_applicable(reward_duration_end: u64, unix_timestamp: i64) -> (t: u64)
    requires
        0 <= unix_timestamp,
    ensures
        t == spec_last_time_reward_applicable(reward_duration_end, unix_timestamp as u64),
{
    let now = unix_timestamp as u64;
    if now < reward_duration_end {
        now
    } else {
        reward_duration_end
    }
}

/// The accumulator after attributing the reward emitted between
/// `last_update_time` and `last_time_reward_applicable` to the current
/// stake. With nothing staked the accumulator is unchanged, since no
/// reward can be attributed to nobody. The increment is
/// `elapsed * rate * PRECISION / total_staked`, computed in unsigned
/// 128-bit arithmetic; any step out of range is an arithmetic error.
pub open spec fn spec_reward_per_token(
    total_staked: u64,
    reward_per_token_stored: u128,
    last_time_reward_applicable: u64,
    last_update_time: u64,
    reward_rate: u64,
) -> Result<u128, ErrorCode> {
    if total_staked == 0 {
        Ok(reward_per_token_stored)
    } else if last_time_reward_applicable < last_update_time {
        Err(ErrorCode::ArithmeticUnderflow)
    } else {
        let scaled = (last_time_reward_applicable - last_update_time) * reward_rate * PRECISION;
        if scaled > u128::MAX {
            Err(ErrorCode::ArithmeticOverflow)
        } else if reward_per_token_stored + scaled / (total_staked as int) > u128::MAX {
            Err(ErrorCode::ArithmeticOverflow)
        } else {
            Ok((reward_per_token_stored + scaled / (total_staked as int)) as u128)
        }
    }
}

/// Computes `spec_reward_per_token` with checked arithmetic, reporting
/// the first step that leaves the representable range.
pub fn try_reward_per_token(
    total_staked: u64,
    reward_per_token_stored: u128,
    last_time_reward_applicable: u64,
    last_update_time: u64,
    reward_rate: u64,
) -> (r: Result<u128, ErrorCode>)
    ensures
        r == spec_reward_per_token(
            total_staked,
            reward_per_token_stored,
            last_time_reward_applicable,
            last_update_time,
            reward_rate,
        ),
        r matches Ok(stored) ==> stored >= reward_per_token_stored,
{
    if total_staked == 0 {
        return Ok(reward_per_token_stored);
    }
    let elapsed = match (last_time_reward_applicable as u128).checked_sub(
        last_update_time as u128,
    ) {
        Some(e) => e,
        None => {
            return Err(ErrorCode::ArithmeticUnderflow);
        },
    };
    let emitted = match elapsed.checked_mul(reward_rate as u128) {
        Some(p) => p,
        None => {
            proof {
                assert(elapsed * (reward_rate as u128) * PRECISION >= elapsed * (
                reward_rate as u128)) by (nonlinear_arith)
                    requires
                        elapsed * (reward_rate as u128) >= 0,
                        PRECISION >= 1,
                ;
            }
            return Err(ErrorCode::ArithmeticOverflow);
        },
    };
    let scaled = match emitted.checked_mul(PRECISION) {
        Some(s) => s,
        None => {
            return Err(ErrorCode::ArithmeticOverflow);
        },
    };
    let increment = scaled / (total_staked as u128);
    match reward_per_token_stored.checked_add(increment) {
        Some(s) => Ok(s),
        None => Err(ErrorCode::ArithmeticOverflow),
    }
}

/// The accumulator advanced to `last_time_reward_applicable`. The
/// caller must have ruled the arithmetic errors out; `update_rewards`
/// and the ledger operations check them instead.
pub fn reward_per_token(
    total_staked: u64,
    reward_per_token_stored: u128,
    last_time_reward_applicable: u64,
    last_update_time: u64,
    reward_rate: u64,
) -> (r: u128)
    requires
        spec_reward_per_token(
            total_staked,
            reward_per_token_stored,
            last_time_reward_applicable,
            last_update_time,
            reward_rate,
        ) is Ok,
    ensures
        Ok::<u128, ErrorCode>(r) == spec_reward_per_token(
            total_staked,
            reward_per_token_stored,
            last_time_reward_applicable,
            last_update_time,
            reward_rate,
        ),
{
    let r = try_reward_per_token(
        total_staked,
        reward_per_token_stored,
        last_time_reward_applicable,
        last_update_time,
        reward_rate,
    );
    r.unwrap()
}

/// A user's pending reward after a checkpoint: the staked balance times
/// the accumulator movement since the user's last snapshot, scaled back
/// down by `PRECISION`, plus what was already pending. Any step out of
/// the 128-bit range, or a result that does not fit the 64-bit pending
/// field, is an arithmetic error.
pub open spec fn spec_earned(
    balance_staked: u64,
    reward_per_token: u128,
    reward_per_token_complete: u128,
    reward_per_token_pending: u64,
) -> Result<u64, ErrorCode> {
    if reward_per_token < reward_per_token_complete {
        Err(ErrorCode::ArithmeticUnderflow)
    } else if balance_staked * (reward_per_token - reward_per_token_complete) > u128::MAX {
        Err(ErrorCode::ArithmeticOverflow)
    } else {
        let total = balance_staked * (reward_per_token - reward_per_token_complete) / (
        PRECISION as int) + reward_per_token_pending;
        if total > u128::MAX {
            Err(ErrorCode::ArithmeticOverflow)
        } else if total > u64::MAX {
            Err(ErrorCode::ArithmeticOverflow)
        } else {
            Ok(total as u64)
        }
    }
}

/// Computes `spec_earned` with checked arithmetic, reporting the first
/// step that leaves the representable range.
pub fn try_earned(
    balance_staked: u64,
    reward_per_token: u128,
    reward_per_token_complete: u128,
    reward_per_token_pending: u64,
) -> (r: Result<u64, ErrorCode>)
    ensures
        r == spec_earned(
            balance_staked,
            reward_per_token,
            reward_per_token_complete,
            reward_per_token_pending,
        ),
{
    let moved = match reward_per_token.checked_sub(reward_per_token_complete) {
        Some(d) => d,
        None => {
            return Err(ErrorCode::ArithmeticUnderflow);
        },
    };
    let weighted = match (balance_staked as u128).checked_mul(moved) {
        Some(p) => p,
        None => {
            return Err(ErrorCode::ArithmeticOverflow);
        },
    };
    let earned_units = weighted / PRECISION;
    let total = match earned_units.checked_add(reward_per_token_pending as u128) {
        Some(t) => t,
        None => {
            return Err(ErrorCode::ArithmeticOverflow);
        },
    };
    if total <= u64::MAX as u128 {
        Ok(total as u64)
    } else {
        Err(ErrorCode::ArithmeticOverflow)
    }
}

/// A user's pending reward after a checkpoint. The caller must have
/// ruled the arithmetic errors out; `update_rewards` and the ledger
/// operations check them instead.
pub fn earned(
    balance_staked: u64,
    reward_per_token: u128,
    user_reward_per_token_paid: u128,
    user_reward_pending: u64,
) -> (r: u64)
    requires
        spec_earned(
            balance_staked,
            reward_per_token,
            user_reward_per_token_paid,
            user_reward_pending,
        ) is Ok,
    ensures
        Ok::<u64, ErrorCode>(r) == spec_earned(
            balance_staked,
            reward_per_token,
            user_reward_per_token_paid,
            user_reward_pending,
        ),
{
    let r = try_earned(
        balance_staked,
        reward_per_token,
        user_reward_per_token_paid,
        user_reward_pending,
    );
    r.unwrap()
}

/// The pool after a checkpoint at time `now` against the given total
/// stake: the accumulator is advanced and the last update time moves to
/// the effective checkpoint time, even when nothing is staked.
pub open spec fn spec_pool_checkpoint(p: PoolModel, total_staked: u64, now: u64) -> Result<
    PoolModel,
    ErrorCode,
> {
    let t = spec_last_time_reward_applicable(p.reward_duration_end, now);
    match spec_reward_per_token(
        total_staked,
        p.reward_per_token_stored,
        t,
        p.last_update_time,
        p.reward_rate,
    ) {
        Ok(stored) => Ok(
            PoolModel { reward_per_token_stored: stored, last_update_time: t, ..p },
        ),
        Err(e) => Err(e),
    }
}

/// The user after a checkpoint against an already-advanced accumulator
/// value: the pending reward absorbs the accumulator movement and the
/// snapshot catches up to the accumulator.
pub open spec fn spec_user_checkpoint(stored: u128, u: UserModel) -> Result<
    UserModel,
    ErrorCode,
> {
    match spec_earned(
        u.balance_staked,
        stored,
        u.reward_per_token_complete,
        u.reward_per_token_pending,
    ) {
        Ok(pending) => Ok(
            UserModel {
                reward_per_token_pending: pending,
                reward_per_token_complete: stored,
                ..u
            },
        ),
        Err(e) => Err(e),
    }
}

/// A full checkpoint: the pool step, then the user step against the
/// advanced accumulator.
pub open spec fn spec_checkpoint(p: PoolModel, u: UserModel, total_staked: u64, now: u64) -> Result<
    (PoolModel, UserModel),
    ErrorCode,
> {
    match spec_pool_checkpoint(p, total_staked, now) {
        Ok(p1) => match spec_user_checkpoint(p1.reward_per_token_stored, u) {
            Ok(u1) => Ok((p1, u1)),
            Err(e) => Err(e),
        },
        Err(e) => Err(e),
    }
}

/// Checkpoints the pool alone: advances the accumulator against
/// `total_staked` and moves the last update time to the effective
/// checkpoint time. On an error nothing changes. The accumulator never
/// decreases.
pub fn checkpoint_pool(pool: &mut Pool, total_staked: u64, now: u64) -> (r: Result<(), ErrorCode>)
    ensures
        match spec_pool_checkpoint(old(pool)@, total_staked, now) {
            Ok(p1) => r is Ok && final(pool)@ == p1,
            Err(e) => r == Err::<(), ErrorCode>(e) && *final(pool) == *old(pool),
        },
        final(pool).reward_per_token_stored >= old(pool).reward_per_token_stored,
{
    let t = if now < pool.reward_duration_end {
        now
    } else {
        pool.reward_duration_end
    };
    let stored = match try_reward_per_token(
        total_staked,
        pool.reward_per_token_stored,
        t,
        pool.last_update_time,
        pool.reward_rate,
    ) {
        Ok(s) => s,
        Err(e) => {
            return Err(e);
        },
    };
    pool.reward_per_token_stored = stored;
    pool.last_update_time = t;
    Ok(())
}

/// Checkpoints the pool and one user: advances the accumulator, then
/// folds the accumulator movement into the user's pending reward and
/// snapshot. On an error nothing changes. The accumulator never
/// decreases.
pub fn update_rewards(pool: &mut Pool, user: &mut User, total_staked: u64, now: u64) -> (r: Result<
    (),
    ErrorCode,
>)
    ensures
        match spec_checkpoint(old(pool)@, old(user)@, total_staked, now) {
            Ok((p1, u1)) => r is Ok && final(pool)@ == p1 && final(user)@ == u1,
            Err(e) => r == Err::<(), ErrorCode>(e) && *final(pool) == *old(pool) && *final(user)
                == *old(user),
        },
        final(pool).reward_per_token_stored >= old(pool).reward_per_token_stored,
{
    let t = if now < pool.reward_duration_end {
        now
    } else {
        pool.reward_duration_end
    };
    let stored = match try_reward_per_token(
        total_staked,
        pool.reward_per_token_stored,
        t,
        pool.last_update_time,
        pool.reward_rate,
    ) {
        Ok(s) => s,
        Err(e) => {
            return Err(e);
        },
    };
    let pending = match try_earned(
        user.balance_staked,
        stored,
        user.reward_per_token_complete,
        user.reward_per_token_pending,
    ) {
        Ok(p) => p,
        Err(e) => {
            return Err(e);
        },
    };
    pool.reward_per_token_stored = stored;
    pool.last_update_time = t;
    user.reward_per_token_pending = pending;
    user.reward_per_token_complete = stored;
    Ok(())
}

} // verus!
