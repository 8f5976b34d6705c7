//! The guard stage: what must hold before a deposit is priced at all.

use crate::error::DepositError;
use vstd::prelude::*;

verus! {

/// The first of the three guards that a request fails, taken in the order
/// lock, deadline, amounts; `None` where it passes all of them.
pub open spec fn guard_rejection(
    locked: bool,
    expiration: i64,
    now: i64,
    lp_amount: u64,
    max_x: u64,
    max_y: u64,
) -> Option<DepositError> {
    if locked {
        Some(DepositError::PoolLocked)
    } else if expiration <= now {
        Some(DepositError::OfferExpired)
    } else if lp_amount == 0 || max_x == 0 || max_y == 0 {
        Some(DepositError::ZeroAmount)
    } else {
        None
    }
}

/// Checks that the pool is open, that the offer's deadline lies strictly
/// after `now`, and that the share amount and both caps are positive.
pub fn validate(
    locked: bool,
    expiration: i64,
    now: i64,
    lp_amount: u64,
    max_x: u64,
    max_y: u64,
) -> (r: Result<(), DepositError>)
    ensures
        r is Ok <==> !locked && now < expiration && lp_amount > 0 && max_x > 0 && max_y > 0,
        r == Err::<(), DepositError>(DepositError::PoolLocked) <==> locked,
        r == Err::<(), DepositError>(DepositError::OfferExpired) <==> !locked && expiration <= now,
        r == Err::<(), DepositError>(DepositError::ZeroAmount) <==> !locked && now < expiration
            && (lp_amount == 0 || max_x == 0 || max_y == 0),
        r is Ok <==> guard_rejection(locked, expiration, now, lp_amount, max_x, max_y) is None,
        r matches Err(e) ==> guard_rejection(locked, expiration, now, lp_amount, max_x, max_y)
            == Some(e),
{
    if locked {
        return Err(DepositError::PoolLocked);
    }
    if expiration <= now {
        return Err(DepositError::OfferExpired);
    }
    if lp_amount == 0 || max_x == 0 || max_y == 0 {
        return Err(DepositError::ZeroAmount);
    }
    Ok(())
}

} // verus!
