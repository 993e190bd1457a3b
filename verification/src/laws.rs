//! The laws of the accounting core, stated over the operation models
//! and proved once for all inputs.
//!
//! The central one is conservation of stake: every operation keeps the
//! sum of all users' staked balances equal to the pool's recorded
//! total. An operation touches at most one user, so each law speaks of
//! a sequence of users and the one index the operation touches.

use vstd::prelude::*;

use vstd::arithmetic::div_mod::lemma_div_pos_is_pos;

use crate::account::{PoolModel, UserModel};
use crate::errors::ErrorCode;
use crate::funding::spec_fund;
use crate::ledger::{spec_claim, spec_stake, spec_unstake};
use crate::lifecycle::{
    spec_close_pool,
    spec_close_user,
    spec_create_user,
    spec_initialize_pool,
};
use crate::reward::{
    spec_checkpoint,
    spec_last_time_reward_applicable,
    spec_pool_checkpoint,
};

verus! {

/// The sum of the staked balances of a sequence of users.
pub open spec fn sum_balances(users: Seq<UserModel>) -> int
    decreases users.len(),
{
    if users.len() == 0 {
        0
    } else {
        sum_balances(users.drop_last()) + users.last().balance_staked
    }
}

/// Replacing one user changes the sum by the difference of the staked
/// balances.
proof fn lemma_sum_update(users: Seq<UserModel>, i: int, v: UserModel)
    requires
        0 <= i < users.len(),
    ensures
        sum_balances(users.update(i, v)) == sum_balances(users) - users[i].balance_staked
            + v.balance_staked,
    decreases users.len(),
{
    let updated = users.update(i, v);
    if i == users.len() - 1 {
        assert(updated.drop_last() =~= users.drop_last());
    } else {
        assert(updated.drop_last() =~= users.drop_last().update(i, v));
        lemma_sum_update(users.drop_last(), i, v);
    }
}

/// Appending a user adds that user's staked balance to the sum.
proof fn lemma_sum_push(users: Seq<UserModel>, v: UserModel)
    ensures
        sum_balances(users.push(v)) == sum_balances(users) + v.balance_staked,
{
    assert(users.push(v).drop_last() =~= users);
}

/// Removing a user subtracts that user's staked balance from the sum.
proof fn lemma_sum_remove(users: Seq<UserModel>, i: int)
    requires
        0 <= i < users.len(),
    ensures
        sum_balances(users.remove(i)) == sum_balances(users) - users[i].balance_staked,
    decreases users.len(),
{
    let removed = users.remove(i);
    if i == users.len() - 1 {
        assert(removed =~= users.drop_last());
    } else {
        assert(removed.drop_last() =~= users.drop_last().remove(i));
        assert(removed.last() == users.last());
        lemma_sum_remove(users.drop_last(), i);
    }
}

/// A fresh pool starts stake conservation off: it has no users and
/// records a total of zero, so the sum of balances already equals the
/// total. Every operation preserves the equality from there, as the
/// conservation laws below state one by one.
pub proof fn lemma_initialize_pool_starts_stake_conservation(
    authority: u64,
    nonce: u8,
    staking_mint: u64,
    staking_vault: u64,
    reward_mint: u64,
    reward_vault: u64,
    reward_duration: u64,
    lock_period: u64,
    no_tier: bool,
)
    ensures
        spec_initialize_pool(
            authority,
            nonce,
            staking_mint,
            staking_vault,
            reward_mint,
            reward_vault,
            reward_duration,
            lock_period,
            no_tier,
        ) matches Ok(pm) ==> sum_balances(Seq::<UserModel>::empty()) == pm.total_staked,
{
}

/// A checkpoint never decreases the reward-per-token accumulator: with
/// nothing staked it is unchanged, and otherwise it grows by the
/// non-negative attributed increment.
pub proof fn lemma_accumulator_monotonic(p: PoolModel, total_staked: u64, now: u64)
    ensures
        spec_pool_checkpoint(p, total_staked, now) matches Ok(p1) ==> p1.reward_per_token_stored
            >= p.reward_per_token_stored,
{
    let t = spec_last_time_reward_applicable(p.reward_duration_end, now);
    if total_staked != 0 && t >= p.last_update_time {
        let elapsed: int = t - p.last_update_time;
        let rate: int = p.reward_rate as int;
        let precision: int = crate::PRECISION as int;
        assert(elapsed * rate >= 0) by (nonlinear_arith)
            requires
                elapsed >= 0,
                rate >= 0,
        ;
        assert(elapsed * rate * precision >= 0) by (nonlinear_arith)
            requires
                elapsed * rate >= 0,
                precision >= 0,
        ;
        lemma_div_pos_is_pos(elapsed * rate * precision, total_staked as int);
    }
}

/// A checkpoint with nothing staked leaves the accumulator unchanged
/// but still advances the last update time to the effective checkpoint
/// time, the current time capped at the epoch's end.
pub proof fn lemma_checkpoint_nothing_staked(p: PoolModel, now: u64)
    ensures
        spec_pool_checkpoint(p, 0, now) == Ok::<PoolModel, ErrorCode>(
            PoolModel {
                last_update_time: spec_last_time_reward_applicable(p.reward_duration_end, now),
                ..p
            },
        ),
{
}

/// A full checkpoint with nothing staked succeeds on any valid user
/// record (one whose snapshot has not outrun the accumulator and, as
/// stake conservation forces when the total is zero, stakes nothing):
/// the accumulator and the pending reward stay as they are, the user's
/// snapshot catches up, and the last update time still advances to the
/// effective checkpoint time.
pub proof fn lemma_checkpoint_nothing_staked_with_user(p: PoolModel, u: UserModel, now: u64)
    requires
        u.reward_per_token_complete <= p.reward_per_token_stored,
        u.balance_staked == 0,
    ensures
        spec_checkpoint(p, u, 0, now) == Ok::<(PoolModel, UserModel), ErrorCode>(
            (
                PoolModel {
                    last_update_time: spec_last_time_reward_applicable(p.reward_duration_end, now),
                    ..p
                },
                UserModel { reward_per_token_complete: p.reward_per_token_stored, ..u },
            ),
        ),
{
}

/// A full checkpoint leaves the user's snapshot exactly at the advanced
/// accumulator, which the snapshot therefore never exceeds.
pub proof fn lemma_checkpoint_snapshot_bound(p: PoolModel, u: UserModel, total_staked: u64, now: u64)
    ensures
        spec_checkpoint(p, u, total_staked, now) matches Ok((p1, u1)) ==> {
            &&& u1.reward_per_token_complete == p1.reward_per_token_stored
            &&& p1.reward_per_token_stored >= p.reward_per_token_stored
        },
{
    lemma_accumulator_monotonic(p, total_staked, now);
}

/// A checkpoint moves no stake: the sum of staked balances still equals
/// the pool's total.
pub proof fn lemma_checkpoint_preserves_stake_conservation(
    p: PoolModel,
    users: Seq<UserModel>,
    i: int,
    total_staked: u64,
    now: u64,
)
    requires
        0 <= i < users.len(),
        sum_balances(users) == p.total_staked,
    ensures
        spec_checkpoint(p, users[i], total_staked, now) matches Ok((p1, u1)) ==> sum_balances(
            users.update(i, u1),
        ) == p1.total_staked,
{
    match spec_checkpoint(p, users[i], total_staked, now) {
        Ok((p1, u1)) => {
            lemma_sum_update(users, i, u1);
        },
        Err(_) => {},
    }
}

/// Staking conserves stake: the staker's balance and the pool's total
/// grow by the same amount, so the sum of balances still equals the
/// total.
pub proof fn lemma_stake_preserves_stake_conservation(
    p: PoolModel,
    users: Seq<UserModel>,
    i: int,
    now: u64,
    amount: u64,
)
    requires
        0 <= i < users.len(),
        sum_balances(users) == p.total_staked,
    ensures
        spec_stake(p, users[i], now, amount) matches Ok((p1, u1)) ==> sum_balances(
            users.update(i, u1),
        ) == p1.total_staked,
{
    match spec_stake(p, users[i], now, amount) {
        Ok((p1, u1)) => {
            lemma_sum_update(users, i, u1);
        },
        Err(_) => {},
    }
}

/// Unstaking conserves stake: the staker's balance and the pool's total
/// shrink by the same amount.
pub proof fn lemma_unstake_preserves_stake_conservation(
    p: PoolModel,
    users: Seq<UserModel>,
    i: int,
    now: u64,
    amount: u64,
)
    requires
        0 <= i < users.len(),
        sum_balances(users) == p.total_staked,
    ensures
        spec_unstake(p, users[i], now, amount) matches Ok((p1, u1)) ==> sum_balances(
            users.update(i, u1),
        ) == p1.total_staked,
{
    match spec_unstake(p, users[i], now, amount) {
        Ok((p1, u1)) => {
            lemma_sum_update(users, i, u1);
        },
        Err(_) => {},
    }
}

/// Claiming conserves stake: it pays reward, never staked balance.
pub proof fn lemma_claim_preserves_stake_conservation(
    p: PoolModel,
    users: Seq<UserModel>,
    i: int,
    now: u64,
    reward_vault_balance: u64,
)
    requires
        0 <= i < users.len(),
        sum_balances(users) == p.total_staked,
    ensures
        spec_claim(p, users[i], now, reward_vault_balance) matches Ok((p1, u1, payout))
            ==> sum_balances(users.update(i, u1)) == p1.total_staked,
{
    match spec_claim(p, users[i], now, reward_vault_balance) {
        Ok((p1, u1, _)) => {
            lemma_sum_update(users, i, u1);
        },
        Err(_) => {},
    }
}

/// Funding conserves stake: it changes the emission schedule, never a
/// balance or the total.
pub proof fn lemma_fund_preserves_stake_conservation(
    p: PoolModel,
    users: Seq<UserModel>,
    funder: u64,
    now: u64,
    amount: u64,
)
    requires
        sum_balances(users) == p.total_staked,
    ensures
        spec_fund(p, funder, now, amount) matches Ok(p1) ==> sum_balances(users)
            == p1.total_staked,
{
}

/// Opening a user record conserves stake: the new record stakes
/// nothing.
pub proof fn lemma_create_user_preserves_stake_conservation(
    p: PoolModel,
    users: Seq<UserModel>,
    pool_key: u64,
    owner: u64,
    nonce: u8,
)
    requires
        sum_balances(users) == p.total_staked,
    ensures
        spec_create_user(p, pool_key, owner, nonce) matches Ok((p1, u1)) ==> sum_balances(
            users.push(u1),
        ) == p1.total_staked,
{
    match spec_create_user(p, pool_key, owner, nonce) {
        Ok((p1, u1)) => {
            lemma_sum_push(users, u1);
        },
        Err(_) => {},
    }
}

/// Destroying a user record conserves stake: only a record with
/// nothing staked may go.
pub proof fn lemma_close_user_preserves_stake_conservation(
    p: PoolModel,
    users: Seq<UserModel>,
    i: int,
)
    requires
        0 <= i < users.len(),
        sum_balances(users) == p.total_staked,
    ensures
        spec_close_user(p, users[i]) matches Ok(p1) ==> sum_balances(users.remove(i))
            == p1.total_staked,
{
    match spec_close_user(p, users[i]) {
        Ok(_) => {
            lemma_sum_remove(users, i);
        },
        Err(_) => {},
    }
}

/// Staking and then unstaking the same amount restores the staked
/// balance and the pool total to their pre-stake values, the reward
/// accounting aside.
pub proof fn lemma_stake_unstake_round_trip(
    p: PoolModel,
    u: UserModel,
    stake_time: u64,
    unstake_time: u64,
    amount: u64,
    p1: PoolModel,
    u1: UserModel,
    p2: PoolModel,
    u2: UserModel,
)
    requires
        spec_stake(p, u, stake_time, amount) == Ok::<(PoolModel, UserModel), ErrorCode>((p1, u1)),
        spec_unstake(p1, u1, unstake_time, amount) == Ok::<(PoolModel, UserModel), ErrorCode>(
            (p2, u2),
        ),
    ensures
        p2.total_staked == p.total_staked,
        u2.balance_staked == u.balance_staked,
{
}

/// A pool can be closed exactly in its terminal state: by its
/// authority, paused, with a funding epoch that has started and fully
/// elapsed, no user records and nothing staked.
pub proof fn lemma_close_pool_terminal_conditions(
    p: PoolModel,
    caller: u64,
    now: u64,
    staking_vault_balance: u64,
    reward_vault_balance: u64,
)
    ensures
        spec_close_pool(p, caller, now, staking_vault_balance, reward_vault_balance) is Ok <==> {
            &&& caller == p.authority
            &&& p.paused
            &&& 0 < p.reward_duration_end < now
            &&& p.user_stake_count == 0
            &&& p.total_staked == 0
        },
{
}

} // verus!
