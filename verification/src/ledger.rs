//! The stake ledger: depositing, withdrawing and claiming rewards.
//!
//! Each operation checkpoints the pool and the user first, then applies
//! its own state change. The first violated precondition aborts the
//! operation with no state change at all; the host then performs the
//! asset movement the operation calls for, atomically with it.

use vstd::prelude::*;

use crate::account::{Pool, PoolModel, User, UserModel};
use crate::errors::ErrorCode;
use crate::reward::{min64, spec_checkpoint, try_earned, try_reward_per_token};
use crate::tier::{get_tier, spec_get_tier};

verus! {

/// The outcome of staking `amount` at time `now`: refused while the
/// pool is paused or for a zero amount; otherwise a checkpoint, then
/// the balance, the maturity time, the cached tier and the pool total
/// are brought up to date.
pub open spec fn spec_stake(p: PoolModel, u: UserModel, now: u64, amount: u64) -> Result<
    (PoolModel, UserModel),
    ErrorCode,
> {
    if amount == 0 {
        Err(ErrorCode::ZeroAmount)
    } else if p.paused {
        Err(ErrorCode::PoolPaused)
    } else {
        match spec_checkpoint(p, u, p.total_staked, now) {
            Ok((p1, u1)) => {
                if u1.balance_staked + amount > u64::MAX {
                    Err(ErrorCode::ArithmeticOverflow)
                } else if now + p.lock_period > u64::MAX {
                    Err(ErrorCode::ArithmeticOverflow)
                } else if p1.total_staked + amount > u64::MAX {
                    Err(ErrorCode::ArithmeticOverflow)
                } else {
                    let balance = (u1.balance_staked + amount) as u64;
                    Ok(
                        (
                            PoolModel { total_staked: (p1.total_staked + amount) as u64, ..p1 },
                            UserModel {
                                balance_staked: balance,
                                maturity_time: (now + p.lock_period) as u64,
                                tier: if !p.no_tier {
                                    spec_get_tier(balance)
                                } else {
                                    u1.tier
                                },
                                ..u1
                            },
                        ),
                    )
                }
            },
            Err(e) => Err(e),
        }
    }
}

/// Stakes `amount` at time `now`. On success the host must move
/// `amount` of the staking asset from the staker's account into the
/// staking vault, atomically with this state change; on an error
/// nothing changed and nothing moves.
pub fn stake(pool: &mut Pool, user: &mut User, now: u64, amount: u64) -> (r: Result<(), ErrorCode>)
    ensures
        match spec_stake(old(pool)@, old(user)@, now, amount) {
            Ok((p1, u1)) => r is Ok && final(pool)@ == p1 && final(user)@ == u1,
            Err(e) => r == Err::<(), ErrorCode>(e) && *final(pool) == *old(pool) && *final(user)
                == *old(user),
        },
        final(pool).reward_per_token_stored >= old(pool).reward_per_token_stored,
{
    if amount == 0 {
        return Err(ErrorCode::ZeroAmount);
    }
    if pool.paused {
        return Err(ErrorCode::PoolPaused);
    }
    let t = if now < pool.reward_duration_end {
        now
    } else {
        pool.reward_duration_end
    };
    let stored = match try_reward_per_token(
        pool.total_staked,
        pool.reward_per_token_stored,
        t,
        pool.last_update_time,
        pool.reward_rate,
    ) {
        Ok(s) => s,
        Err(e) => {
            return Err(e);
        },
    };
    let pending = match try_earned(
        user.balance_staked,
        stored,
        user.reward_per_token_complete,
        user.reward_per_token_pending,
    ) {
        Ok(p) => p,
        Err(e) => {
            return Err(e);
        },
    };
    let new_balance = match user.balance_staked.checked_add(amount) {
        Some(b) => b,
        None => {
            return Err(ErrorCode::ArithmeticOverflow);
        },
    };
    let new_maturity = match now.checked_add(pool.lock_period) {
        Some(m) => m,
        None => {
            return Err(ErrorCode::ArithmeticOverflow);
        },
    };
    let new_total = match pool.total_staked.checked_add(amount) {
        Some(s) => s,
        None => {
            return Err(ErrorCode::ArithmeticOverflow);
        },
    };
    pool.reward_per_token_stored = stored;
    pool.last_update_time = t;
    pool.total_staked = new_total;
    user.reward_per_token_pending = pending;
    user.reward_per_token_complete = stored;
    user.balance_staked = new_balance;
    user.maturity_time = new_maturity;
    if !pool.no_tier {
        user.tier = get_tier(new_balance);
    }
    Ok(())
}

/// The outcome of unstaking `amount` at time `now`: refused for a zero
/// amount, before the maturity time, or beyond the staked balance;
/// otherwise a checkpoint, then the balance, the cached tier and the
/// pool total are reduced. A pause does not block it: stakers may exit
/// a paused pool.
pub open spec fn spec_unstake(p: PoolModel, u: UserModel, now: u64, amount: u64) -> Result<
    (PoolModel, UserModel),
    ErrorCode,
> {
    if amount == 0 {
        Err(ErrorCode::ZeroAmount)
    } else if u.maturity_time > now {
        Err(ErrorCode::MaturityNotReached)
    } else if u.balance_staked < amount {
        Err(ErrorCode::InsufficientBalance)
    } else {
        match spec_checkpoint(p, u, p.total_staked, now) {
            Ok((p1, u1)) => {
                if p1.total_staked < amount {
                    Err(ErrorCode::ArithmeticUnderflow)
                } else {
                    let balance = (u1.balance_staked - amount) as u64;
                    Ok(
                        (
                            PoolModel { total_staked: (p1.total_staked - amount) as u64, ..p1 },
                            UserModel {
                                balance_staked: balance,
                                tier: if !p.no_tier {
                                    spec_get_tier(balance)
                                } else {
                                    u1.tier
                                },
                                ..u1
                            },
                        ),
                    )
                }
            },
            Err(e) => Err(e),
        }
    }
}

/// Unstakes `amount` at time `now`. On success the host must move
/// `amount` of the staking asset from the staking vault back to the
/// staker, authorized by the pool's custodial identity, atomically with
/// this state change; on an error nothing changed and nothing moves.
pub fn unstake(pool: &mut Pool, user: &mut User, now: u64, spt_amount: u64) -> (r: Result<
    (),
    ErrorCode,
>)
    ensures
        match spec_unstake(old(pool)@, old(user)@, now, spt_amount) {
            Ok((p1, u1)) => r is Ok && final(pool)@ == p1 && final(user)@ == u1,
            Err(e) => r == Err::<(), ErrorCode>(e) && *final(pool) == *old(pool) && *final(user)
                == *old(user),
        },
        final(pool).reward_per_token_stored >= old(pool).reward_per_token_stored,
{
    if spt_amount == 0 {
        return Err(ErrorCode::ZeroAmount);
    }
    if user.maturity_time > now {
        return Err(ErrorCode::MaturityNotReached);
    }
    if user.balance_staked < spt_amount {
        return Err(ErrorCode::InsufficientBalance);
    }
    let t = if now < pool.reward_duration_end {
        now
    } else {
        pool.reward_duration_end
    };
    let stored = match try_reward_per_token(
        pool.total_staked,
        pool.reward_per_token_stored,
        t,
        pool.last_update_time,
        pool.reward_rate,
    ) {
        Ok(s) => s,
        Err(e) => {
            return Err(e);
        },
    };
    let pending = match try_earned(
        user.balance_staked,
        stored,
        user.reward_per_token_complete,
        user.reward_per_token_pending,
    ) {
        Ok(p) => p,
        Err(e) => {
            return Err(e);
        },
    };
    let new_total = match pool.total_staked.checked_sub(spt_amount) {
        Some(s) => s,
        None => {
            return Err(ErrorCode::ArithmeticUnderflow);
        },
    };
    let new_balance = user.balance_staked - spt_amount;
    pool.reward_per_token_stored = stored;
    pool.last_update_time = t;
    pool.total_staked = new_total;
    user.reward_per_token_pending = pending;
    user.reward_per_token_complete = stored;
    user.balance_staked = new_balance;
    if !pool.no_tier {
        user.tier = get_tier(new_balance);
    }
    Ok(())
}

/// The outcome of claiming at time `now` with `reward_vault_balance`
/// available: refused before the maturity time; otherwise a checkpoint,
/// then the pending reward is paid out, clamped to what the vault
/// holds. The pending amount is zeroed regardless: an under-funded
/// vault never fails the claim, and the unpaid remainder is not tracked
/// further.
pub open spec fn spec_claim(p: PoolModel, u: UserModel, now: u64, reward_vault_balance: u64) -> Result<
    (PoolModel, UserModel, u64),
    ErrorCode,
> {
    if u.maturity_time > now {
        Err(ErrorCode::MaturityNotReached)
    } else {
        match spec_checkpoint(p, u, p.total_staked, now) {
            Ok((p1, u1)) => {
                if u1.reward_per_token_pending > 0 {
                    let payout = min64(u1.reward_per_token_pending, reward_vault_balance);
                    Ok((p1, UserModel { reward_per_token_pending: 0, ..u1 }, payout))
                } else {
                    Ok((p1, u1, 0))
                }
            },
            Err(e) => Err(e),
        }
    }
}

/// Claims the pending reward at time `now` and returns the payout,
/// clamped to `reward_vault_balance`. On success the host must move the
/// payout, when it is above zero, from the reward vault to the user,
/// authorized by the pool's custodial identity, atomically with this
/// state change; on an error nothing changed and nothing moves.
pub fn claim(pool: &mut Pool, user: &mut User, now: u64, reward_vault_balance: u64) -> (r: Result<
    u64,
    ErrorCode,
>)
    ensures
        match spec_claim(old(pool)@, old(user)@, now, reward_vault_balance) {
            Ok((p1, u1, payout)) => r == Ok::<u64, ErrorCode>(payout) && final(pool)@ == p1
                && final(user)@ == u1,
            Err(e) => r == Err::<u64, ErrorCode>(e) && *final(pool) == *old(pool) && *final(user)
                == *old(user),
        },
        final(pool).reward_per_token_stored >= old(pool).reward_per_token_stored,
{
    if user.maturity_time > now {
        return Err(ErrorCode::MaturityNotReached);
    }
    let t = if now < pool.reward_duration_end {
        now
    } else {
        pool.reward_duration_end
    };
    let stored = match try_reward_per_token(
        pool.total_staked,
        pool.reward_per_token_stored,
        t,
        pool.last_update_time,
        pool.reward_rate,
    ) {
        Ok(s) => s,
        Err(e) => {
            return Err(e);
        },
    };
    let pending = match try_earned(
        user.balance_staked,
        stored,
        user.reward_per_token_complete,
        user.reward_per_token_pending,
    ) {
        Ok(p) => p,
        Err(e) => {
            return Err(e);
        },
    };
    pool.reward_per_token_stored = stored;
    pool.last_update_time = t;
    user.reward_per_token_complete = stored;
    if pending > 0 {
        let payout = if pending < reward_vault_balance {
            pending
        } else {
            reward_vault_balance
        };
        user.reward_per_token_pending = 0;
        Ok(payout)
    } else {
        user.reward_per_token_pending = pending;
        Ok(0)
    }
}

} // verus!
