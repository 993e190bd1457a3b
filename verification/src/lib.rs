//! Shared-pool staking-reward accounting.
//!
//! Participants deposit a staked asset into a pool and rewards accrue
//! linearly over funded periods. Each participant's earned reward is
//! computed lazily from a shared per-token accumulator, so no operation
//! ever iterates over all participants.
//!
//! The crate holds only the accounting core: the pool and user records,
//! the checkpoint arithmetic, the funding scheduler, the stake ledger,
//! the funder registry, the tier classifier and the pool lifecycle.
//! Durable storage, signature verification and the actual movement of
//! assets between vaults are the host's business: every operation here
//! takes plain values (identities, timestamps, vault balances) and
//! reports back what the host must transfer.

use vstd::prelude::*;

pub mod account;
pub mod errors;
pub mod funders;
pub mod funding;
pub mod laws;
pub mod ledger;
pub mod lifecycle;
pub mod reward;
pub mod tier;

verus! {

/// Scale of the fixed-point reward-per-token accumulator.
pub const PRECISION: u128 = u64::MAX as u128;

/// Shortest reward epoch a pool may be created with, in seconds.
pub const MIN_DURATION: u64 = 86400;

/// Identity value that marks an empty funder slot.
pub const EMPTY_FUNDER: u64 = 0;

} // verus!
