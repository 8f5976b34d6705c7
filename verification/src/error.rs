//! Reasons for which a deposit is rejected.

use vstd::prelude::*;

verus! {

/// Why the curve could not price a deposit.
#[derive(Clone, Copy, Debug, PartialEq, Eq, Structural)]
pub enum CurveError {
    /// The pool is not empty, yet a reserve or the share supply is zero.
    InconsistentReserves,
    /// A required amount is larger than any balance can be.
    AmountNotRepresentable,
}

/// Why a deposit was rejected. A rejected deposit settles nothing.
#[derive(Clone, Copy, Debug, PartialEq, Eq, Structural)]
pub enum DepositError {
    /// The pool is frozen by its administrator.
    PoolLocked,
    /// The offer's deadline is not in the future.
    OfferExpired,
    /// The requested share amount or one of the two caps is zero.
    ZeroAmount,
    /// The curve could not price the deposit.
    CurveError(CurveError),
    /// An intermediate product left the widened integer domain.
    ArithmeticOverflow,
    /// A required amount is above the provider's cap.
    SlippageExceeded,
}

impl DepositError {
    /// Whether a provider may meet this rejection by submitting again:
    /// with a fresh deadline or with other caps.
    pub open spec fn is_retryable_spec(self) -> bool {
        self == DepositError::OfferExpired || self == DepositError::SlippageExceeded
    }

    /// Whether a provider may meet this rejection by submitting again.
    pub fn is_retryable(&self) -> (r: bool)
        ensures
            r == self.is_retryable_spec(),
    {
        match self {
            DepositError::OfferExpired => true,
            DepositError::SlippageExceeded => true,
            _ => false,
        }
    }
}

} // verus!
