//! The bound check: the quoted amounts against the provider's caps.

use crate::error::DepositError;
use vstd::prelude::*;

verus! {

/// Holds the quoted amounts against the provider's caps: both must be
/// within bounds, or the deposit is off as a whole.
pub fn enforce_slippage(required_x: u64, required_y: u64, max_x: u64, max_y: u64) -> (r: Result<
    (),
    DepositError,
>)
    ensures
        r is Ok <==> required_x <= max_x && required_y <= max_y,
        r is Err ==> r == Err::<(), DepositError>(DepositError::SlippageExceeded),
{
    if required_x > max_x || required_y > max_y {
        Err(DepositError::SlippageExceeded)
    } else {
        Ok(())
    }
}

} // verus!
