//! The error taxonomy of the accounting core.

use vstd::prelude::*;

verus! {

/// Why an operation was refused. Every precondition is checked before
/// any state mutation, so an operation that returns an error leaves the
/// pool and user records exactly as they were.
#[derive(Clone, Copy, Debug, PartialEq, Eq, Structural)]
pub enum ErrorCode {
    /// The requested reward epoch is shorter than `MIN_DURATION`.
    DurationTooShort,
    /// The pool is paused and the operation admits no new stake or funding.
    PoolPaused,
    /// The amount must be greater than zero.
    ZeroAmount,
    /// The staked balance has not reached its maturity time yet.
    MaturityNotReached,
    /// The requested amount exceeds the staked balance.
    InsufficientBalance,
    /// A checked addition, multiplication or division left the
    /// representable range.
    ArithmeticOverflow,
    /// A checked subtraction went below zero.
    ArithmeticUnderflow,
    /// The candidate is already authorized to fund the pool.
    FunderAlreadyAuthorized,
    /// Every funder slot is taken.
    FunderCapacityExceeded,
    /// The pool authority is implicitly authorized and is never stored
    /// in the funder list, so it cannot be removed from it.
    CannotModifyPoolAuthorityAsFunder,
    /// The candidate is not in the funder list.
    FunderNotFound,
    /// The caller is not the identity the operation demands.
    Unauthorized,
    /// The host's transfer collaborator refused to move the assets.
    /// The core itself never raises this; the host does when a
    /// delegated transfer cannot be performed and the whole
    /// transaction is rolled back.
    TransferFailed,
    /// A record does not satisfy the preconditions of the requested
    /// lifecycle step (destruction or pause-state change).
    StorageConstraintViolated,
}

} // verus!
