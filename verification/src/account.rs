//! The pool and user records and their mathematical models.

use vstd::prelude::*;

verus! {

/// One staking campaign. Identities (the authority, the asset mints and
/// the custody vaults) are opaque handles issued by the host; the core
/// only ever compares them for equality.
#[derive(Clone)]
pub struct Pool {
    /// Identity with administrative rights over the pool.
    pub authority: u64,
    /// Host nonce from which the pool's custodial identity is derived.
    pub nonce: u8,
    /// Gates new stakes and new funding; exits stay open.
    pub paused: bool,
    /// Asset that can be staked.
    pub staking_mint: u64,
    /// Vault holding the staked assets.
    pub staking_vault: u64,
    /// Asset paid out as reward.
    pub reward_mint: u64,
    /// Vault holding the reward assets.
    pub reward_vault: u64,
    /// Length of one funding epoch, in seconds.
    pub reward_duration: u64,
    /// Timestamp at which the current emission schedule ends.
    pub reward_duration_end: u64,
    /// Seconds a deposit must remain staked before it may be withdrawn.
    pub lock_period: u64,
    /// Timestamp of the last reward checkpoint.
    pub last_update_time: u64,
    /// Reward units emitted per second.
    pub reward_rate: u64,
    /// Cumulative reward per staked unit since pool inception, scaled
    /// by `PRECISION`. Never decreases.
    pub reward_per_token_stored: u128,
    /// Number of currently open user records.
    pub user_stake_count: u32,
    /// Sum of all users' staked balances.
    pub total_staked: u64,
    /// Disables tier computation when true.
    pub no_tier: bool,
    /// Fixed-capacity list of authorized funding identities; empty
    /// slots hold `EMPTY_FUNDER`. Always `FUNDER_SLOTS` entries long.
    pub funders: Vec<u64>,
}

/// Number of funder slots a pool holds.
pub const FUNDER_SLOTS: usize = 5;

/// The mathematical value of a `Pool`.
#[verifier::ext_equal]
pub struct PoolModel {
    pub authority: u64,
    pub nonce: u8,
    pub paused: bool,
    pub staking_mint: u64,
    pub staking_vault: u64,
    pub reward_mint: u64,
    pub reward_vault: u64,
    pub reward_duration: u64,
    pub reward_duration_end: u64,
    pub lock_period: u64,
    pub last_update_time: u64,
    pub reward_rate: u64,
    pub reward_per_token_stored: u128,
    pub user_stake_count: u32,
    pub total_staked: u64,
    pub no_tier: bool,
    pub funders: Seq<u64>,
}

impl View for Pool {
    type V = PoolModel;

    open spec fn view(&self) -> PoolModel {
        PoolModel {
            authority: self.authority,
            nonce: self.nonce,
            paused: self.paused,
            staking_mint: self.staking_mint,
            staking_vault: self.staking_vault,
            reward_mint: self.reward_mint,
            reward_vault: self.reward_vault,
            reward_duration: self.reward_duration,
            reward_duration_end: self.reward_duration_end,
            lock_period: self.lock_period,
            last_update_time: self.last_update_time,
            reward_rate: self.reward_rate,
            reward_per_token_stored: self.reward_per_token_stored,
            user_stake_count: self.user_stake_count,
            total_staked: self.total_staked,
            no_tier: self.no_tier,
            funders: self.funders@,
        }
    }
}

/// One staker's record in one pool. A user record is meaningful only in
/// the context of the pool it names.
#[derive(Clone)]
pub struct User {
    /// The pool this record belongs to.
    pub pool: u64,
    /// The identity that owns this record.
    pub owner: u64,
    /// Snapshot of the pool's accumulator at this user's last
    /// checkpoint. Never exceeds the pool's stored value.
    pub reward_per_token_complete: u128,
    /// Reward units earned but not yet claimed.
    pub reward_per_token_pending: u64,
    /// Currently staked amount.
    pub balance_staked: u64,
    /// Earliest timestamp at which `balance_staked` may be reduced.
    pub maturity_time: u64,
    /// Cached classification of `balance_staked`.
    pub tier: u8,
    /// Host nonce from which this record's address is derived.
    pub nonce: u8,
}

/// The mathematical value of a `User`.
#[verifier::ext_equal]
pub struct UserModel {
    pub pool: u64,
    pub owner: u64,
    pub reward_per_token_complete: u128,
    pub reward_per_token_pending: u64,
    pub balance_staked: u64,
    pub maturity_time: u64,
    pub tier: u8,
    pub nonce: u8,
}

impl View for User {
    type V = UserModel;

    open spec fn view(&self) -> UserModel {
        UserModel {
            pool: self.pool,
            owner: self.owner,
            reward_per_token_complete: self.reward_per_token_complete,
            reward_per_token_pending: self.reward_per_token_pending,
            balance_staked: self.balance_staked,
            maturity_time: self.maturity_time,
            tier: self.tier,
            nonce: self.nonce,
        }
    }
}

/// What the host must sweep out of the vaults when a pool closes.
#[derive(Clone, Copy, Debug, PartialEq, Eq, Structural)]
pub struct PoolRefunds {
    /// Amount to move from the staking vault to its refund destination.
    pub staking_refund: u64,
    /// Amount to move from the reward vault to its refund destination.
    pub reward_refund: u64,
}

} // verus!
