//! The funder registry: a fixed-capacity authorization list embedded in
//! the pool record, with `EMPTY_FUNDER` marking free slots.
//!
//! The pool authority is implicitly authorized and never stored in the
//! list, so the list never contains the authority and never needs to.

use vstd::prelude::*;

use crate::EMPTY_FUNDER;
use crate::account::{Pool, PoolModel};
use crate::errors::ErrorCode;

verus! {

/// The first slot holding `target`, or -1 when no slot does.
pub open spec fn spec_first_slot(funders: Seq<u64>, target: u64) -> int
    decreases funders.len(),
{
    if funders.len() == 0 {
        -1
    } else if funders[0] == target {
        0
    } else {
        let rest = spec_first_slot(funders.drop_first(), target);
        if rest < 0 {
            -1
        } else {
            1 + rest
        }
    }
}

/// A slot that holds `target` while no earlier slot does is the first.
proof fn lemma_first_slot_found(funders: Seq<u64>, target: u64, i: int)
    requires
        0 <= i < funders.len(),
        funders[i] == target,
        forall|j: int| 0 <= j < i ==> funders[j] != target,
    ensures
        spec_first_slot(funders, target) == i,
    decreases funders.len(),
{
    if funders[0] == target {
        assert(i == 0);
    } else {
        assert(forall|j: int| 0 <= j < i - 1 ==> funders.drop_first()[j] == funders[j + 1]);
        lemma_first_slot_found(funders.drop_first(), target, i - 1);
    }
}

/// When no slot holds `target` there is no first slot.
proof fn lemma_first_slot_none(funders: Seq<u64>, target: u64)
    requires
        forall|j: int| 0 <= j < funders.len() ==> funders[j] != target,
    ensures
        spec_first_slot(funders, target) == -1,
    decreases funders.len(),
{
    if funders.len() > 0 {
        assert(forall|j: int|
            0 <= j < funders.len() - 1 ==> funders.drop_first()[j] == funders[j + 1]);
        lemma_first_slot_none(funders.drop_first(), target);
    }
}

/// Scans the slots in order for `target`.
fn find_slot(funders: &Vec<u64>, target: u64) -> (r: Option<usize>)
    ensures
        match r {
            Some(i) => i < funders.len() && spec_first_slot(funders@, target) == i as int,
            None => spec_first_slot(funders@, target) == -1,
        },
{
    let mut i: usize = 0;
    while i < funders.len()
        invariant
            i <= funders@.len(),
            forall|j: int| 0 <= j < i ==> funders@[j] != target,
        decreases funders@.len() - i,
    {
        if funders[i] == target {
            proof {
                lemma_first_slot_found(funders@, target, i as int);
            }
            return Some(i);
        }
        i += 1;
    }
    proof {
        lemma_first_slot_none(funders@, target);
    }
    None
}

/// Whether some slot holds `target`.
pub fn is_funder(funders: &Vec<u64>, target: u64) -> (r: bool)
    ensures
        r == (spec_first_slot(funders@, target) >= 0),
{
    match find_slot(funders, target) {
        Some(_) => true,
        None => false,
    }
}

/// The outcome of authorizing `candidate` to fund the pool: only the
/// authority may do it; the authority itself, the empty-slot marker
/// and an identity already present are refused; otherwise `candidate`
/// takes the first empty slot, and with no empty slot left the
/// registry is full.
///
/// Both invalid candidates report `FunderAlreadyAuthorized`: the
/// authority is implicitly authorized and never stored, and the
/// empty-slot marker stands for no identity at all, so neither can be
/// added. Removing the authority reports its own kind instead, since
/// that asks to change the authority's standing (see
/// `spec_deauthorize_funder`).
pub open spec fn spec_authorize_funder(p: PoolModel, caller: u64, candidate: u64) -> Result<
    PoolModel,
    ErrorCode,
> {
    if caller != p.authority {
        Err(ErrorCode::Unauthorized)
    } else if candidate == p.authority {
        Err(ErrorCode::FunderAlreadyAuthorized)
    } else if candidate == EMPTY_FUNDER {
        Err(ErrorCode::FunderAlreadyAuthorized)
    } else if spec_first_slot(p.funders, candidate) >= 0 {
        Err(ErrorCode::FunderAlreadyAuthorized)
    } else if spec_first_slot(p.funders, EMPTY_FUNDER) >= 0 {
        Ok(
            PoolModel {
                funders: p.funders.update(spec_first_slot(p.funders, EMPTY_FUNDER), candidate),
                ..p
            },
        )
    } else {
        Err(ErrorCode::FunderCapacityExceeded)
    }
}

/// Writes `candidate` into the first empty funder slot. On an error
/// nothing changes.
pub fn authorize_funder(pool: &mut Pool, caller: u64, funder_to_add: u64) -> (r: Result<
    (),
    ErrorCode,
>)
    ensures
        match spec_authorize_funder(old(pool)@, caller, funder_to_add) {
            Ok(p1) => r is Ok && final(pool)@ == p1,
            Err(e) => r == Err::<(), ErrorCode>(e) && *final(pool) == *old(pool),
        },
{
    if caller != pool.authority {
        return Err(ErrorCode::Unauthorized);
    }
    if funder_to_add == pool.authority {
        return Err(ErrorCode::FunderAlreadyAuthorized);
    }
    if funder_to_add == EMPTY_FUNDER {
        return Err(ErrorCode::FunderAlreadyAuthorized);
    }
    match find_slot(&pool.funders, funder_to_add) {
        Some(_) => {
            return Err(ErrorCode::FunderAlreadyAuthorized);
        },
        None => {},
    }
    match find_slot(&pool.funders, EMPTY_FUNDER) {
        Some(idx) => {
            pool.funders[idx] = funder_to_add;
            Ok(())
        },
        None => Err(ErrorCode::FunderCapacityExceeded),
    }
}

/// The outcome of removing `candidate` from the funder list: only the
/// authority may do it; the authority itself cannot be removed because
/// it is never stored; the empty-slot marker names no funder and an
/// identity not present is not found; otherwise the candidate's slot
/// becomes empty again.
pub open spec fn spec_deauthorize_funder(p: PoolModel, caller: u64, candidate: u64) -> Result<
    PoolModel,
    ErrorCode,
> {
    if caller != p.authority {
        Err(ErrorCode::Unauthorized)
    } else if candidate == p.authority {
        Err(ErrorCode::CannotModifyPoolAuthorityAsFunder)
    } else if candidate == EMPTY_FUNDER {
        Err(ErrorCode::FunderNotFound)
    } else if spec_first_slot(p.funders, candidate) >= 0 {
        Ok(
            PoolModel {
                funders: p.funders.update(spec_first_slot(p.funders, candidate), EMPTY_FUNDER),
                ..p
            },
        )
    } else {
        Err(ErrorCode::FunderNotFound)
    }
}

/// Overwrites `candidate`'s slot with the empty marker. On an error
/// nothing changes.
pub fn deauthorize_funder(pool: &mut Pool, caller: u64, funder_to_remove: u64) -> (r: Result<
    (),
    ErrorCode,
>)
    ensures
        match spec_deauthorize_funder(old(pool)@, caller, funder_to_remove) {
            Ok(p1) => r is Ok && final(pool)@ == p1,
            Err(e) => r == Err::<(), ErrorCode>(e) && *final(pool) == *old(pool),
        },
{
    if caller != pool.authority {
        return Err(ErrorCode::Unauthorized);
    }
    if funder_to_remove == pool.authority {
        return Err(ErrorCode::CannotModifyPoolAuthorityAsFunder);
    }
    if funder_to_remove == EMPTY_FUNDER {
        return Err(ErrorCode::FunderNotFound);
    }
    match find_slot(&pool.funders, funder_to_remove) {
        Some(idx) => {
            pool.funders[idx] = EMPTY_FUNDER;
            Ok(())
        },
        None => Err(ErrorCode::FunderNotFound),
    }
}

} // verus!
