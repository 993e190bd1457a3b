//! Classification of a staked amount into a discrete tier.

use vstd::prelude::*;

verus! {

/// Smallest stake of tier 1.
pub const TIER_LIMIT_LOW: u64 = 100;

/// Smallest stake of tier 2.
pub const TIER_LIMIT_MID: u64 = 1000;

/// Smallest stake of tier 3.
pub const TIER_LIMIT_HIGH: u64 = 10000;

/// The 0-based index of the first tier limit strictly greater than
/// `amount`; the number of limits when none exceeds it.
pub open spec fn spec_get_tier(amount: u64) -> u8 {
    if amount < TIER_LIMIT_LOW {
        0
    } else if amount < TIER_LIMIT_MID {
        1
    } else if amount < TIER_LIMIT_HIGH {
        2
    } else {
        3
    }
}

/// Classifies a staked amount against the ascending tier limits. Pure:
/// no side effects and no failure mode.
pub fn get_tier(amount: u64) -> (tier: u8)
    ensures
        tier == spec_get_tier(amount),
{
    if amount < TIER_LIMIT_LOW {
        0
    } else if amount < TIER_LIMIT_MID {
        1
    } else if amount < TIER_LIMIT_HIGH {
        2
    } else {
        3
    }
}

} // verus!
