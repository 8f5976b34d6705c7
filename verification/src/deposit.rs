//! The deposit itself: guard, quote, bound check, in that order.

use crate::error::{CurveError, DepositError};
use crate::guard::{guard_rejection, validate};
use crate::quote::{
    in_proportion, keeps_ratio, proportional_quote, quote_from_lp_amount, required_amount,
    DEPOSIT_PRECISION,
};
use crate::slippage::enforce_slippage;
use vstd::prelude::*;

verus! {

/// What a deposit reads of a pool, taken at one point in time: the lock and
/// the three balances. A deposit never changes it.
#[derive(Clone, Copy, Debug, PartialEq, Eq, Structural)]
pub struct Deposit {
    /// Whether the administrator has frozen the pool.
    pub locked: bool,
    /// The pool's balance of the first asset.
    pub reserve_x: u64,
    /// The pool's balance of the second asset.
    pub reserve_y: u64,
    /// The pool shares outstanding.
    pub lp_supply: u64,
}

/// What an approved deposit settles: the two amounts that go from the
/// provider to the pool, and the shares that are minted to the provider.
#[derive(Clone, Copy, Debug, PartialEq, Eq, Structural)]
pub struct Settlement {
    /// The amount of the first asset to move into the pool.
    pub required_x: u64,
    /// The amount of the second asset to move into the pool.
    pub required_y: u64,
    /// The shares to mint: the amount that was asked for.
    pub lp_amount: u64,
}

impl Deposit {
    /// The pool holds nothing and has issued nothing: the next deposit
    /// sets its price.
    pub open spec fn is_empty_spec(&self) -> bool {
        self.lp_supply == 0 && self.reserve_x == 0 && self.reserve_y == 0
    }

    /// The pool holds both assets and has issued shares.
    pub open spec fn is_seeded_spec(&self) -> bool {
        self.lp_supply > 0 && self.reserve_x > 0 && self.reserve_y > 0
    }

    /// Whether `x` and `y` pay for `lp_amount` new shares of this pool in
    /// proportion: each is the fair price in its asset, and together they
    /// keep the pool's ratio.
    pub open spec fn pays_in_proportion(&self, lp_amount: u64, x: u64, y: u64) -> bool {
        &&& in_proportion(self.reserve_x as int, x as int, lp_amount as int, self.lp_supply as int)
        &&& in_proportion(self.reserve_y as int, y as int, lp_amount as int, self.lp_supply as int)
        &&& keeps_ratio(self.reserve_x as int, self.reserve_y as int, x as int, y as int)
    }

    /// What this pool's first reserve requires for `lp_amount` new shares:
    /// the proportional amount, rounded up.
    pub open spec fn required_x(&self, lp_amount: u64) -> int {
        required_amount(self.reserve_x as int, lp_amount as int, self.lp_supply as int)
    }

    /// What this pool's second reserve requires for `lp_amount` new shares:
    /// the proportional amount, rounded up.
    pub open spec fn required_y(&self, lp_amount: u64) -> int {
        required_amount(self.reserve_y as int, lp_amount as int, self.lp_supply as int)
    }

    /// The quote stage. An empty pool takes the provider's caps as they
    /// are; any other pool is quoted in proportion, which refuses one that
    /// is not seeded.
    pub open spec fn required_amounts(&self, lp_amount: u64, max_x: u64, max_y: u64) -> Result<
        (u64, u64),
        DepositError,
    > {
        if self.is_empty_spec() {
            Ok((max_x, max_y))
        } else {
            proportional_quote(self.reserve_x, self.reserve_y, self.lp_supply, lp_amount)
        }
    }

    /// The whole deposit: the first guard that fails rejects it, then a
    /// quote that fails, then an amount above its cap.
    pub open spec fn outcome(
        &self,
        amount: u64,
        max_x: u64,
        max_y: u64,
        expiration: i64,
        now: i64,
    ) -> Result<Settlement, DepositError> {
        match guard_rejection(self.locked, expiration, now, amount, max_x, max_y) {
            Some(e) => Err(e),
            None => match self.required_amounts(amount, max_x, max_y) {
                Err(e) => Err(e),
                Ok((x, y)) => if x > max_x || y > max_y {
                    Err(DepositError::SlippageExceeded)
                } else {
                    Ok(Settlement { required_x: x, required_y: y, lp_amount: amount })
                },
            },
        }
    }

    /// Whether the pool holds nothing and has issued nothing.
    #[verifier::when_used_as_spec(is_empty_spec)]
    pub fn is_empty(&self) -> (r: bool)
        ensures
            r == self.is_empty_spec(),
    {
        self.lp_supply == 0 && self.reserve_x == 0 && self.reserve_y == 0
    }

    /// Whether the pool holds both assets and has issued shares.
    #[verifier::when_used_as_spec(is_seeded_spec)]
    pub fn is_seeded(&self) -> (r: bool)
        ensures
            r == self.is_seeded_spec(),
    {
        self.lp_supply > 0 && self.reserve_x > 0 && self.reserve_y > 0
    }

    /// Quotes what the pool requires for `lp_amount` new shares: the caps
    /// themselves from an empty pool, the proportional amounts from any
    /// other.
    pub fn quote(&self, lp_amount: u64, max_x: u64, max_y: u64) -> (r: Result<
        (u64, u64),
        DepositError,
    >)
        ensures
            r == self.required_amounts(lp_amount, max_x, max_y),
            self.is_empty() ==> r == Ok::<(u64, u64), DepositError>((max_x, max_y)),
            !self.is_empty() && !self.is_seeded() ==> r == Err::<(u64, u64), DepositError>(
                DepositError::CurveError(CurveError::InconsistentReserves),
            ),
            self.is_seeded() ==> (r is Ok <==> self.required_x(lp_amount) <= u64::MAX
                && self.required_y(lp_amount) <= u64::MAX),
            self.is_seeded() ==> (r matches Ok((x, y)) ==> x == self.required_x(lp_amount) && y
                == self.required_y(lp_amount)),
            self.is_seeded() ==> (r is Err ==> r == Err::<(u64, u64), DepositError>(
                DepositError::CurveError(CurveError::AmountNotRepresentable),
            )),
            !self.is_empty() ==> (r matches Ok((x, y)) ==> self.pays_in_proportion(lp_amount, x, y)),
            self.is_seeded() && lp_amount <= self.lp_supply ==> (r matches Ok((x, y)) && x
                <= self.reserve_x && y <= self.reserve_y),
    {
        if self.is_empty() {
            Ok((max_x, max_y))
        } else {
            quote_from_lp_amount(
                self.reserve_x,
                self.reserve_y,
                self.lp_supply,
                lp_amount,
                DEPOSIT_PRECISION,
            )
        }
    }

    /// Authorises a deposit of `amount` new shares against this snapshot,
    /// for a provider who pays at most `max_x` and `max_y` and whose offer
    /// stands until `expiration`, at the time `now`.
    ///
    /// The guards come first and in a fixed order, so a locked pool answers
    /// `PoolLocked` whatever else is wrong, and an expired offer to an open
    /// pool answers `OfferExpired`. An empty pool then takes both caps as
    /// they are. A seeded pool takes its reserves' proportional parts,
    /// rounded up, and the deposit fails as a whole if one of them is above
    /// its cap.
    pub fn deposit(&self, amount: u64, max_x: u64, max_y: u64, expiration: i64, now: i64) -> (r:
        Result<Settlement, DepositError>)
        ensures
            r == self.outcome(amount, max_x, max_y, expiration, now),
            // the guards, in their order
            self.locked ==> r == Err::<Settlement, DepositError>(DepositError::PoolLocked),
            !self.locked && expiration <= now ==> r == Err::<Settlement, DepositError>(
                DepositError::OfferExpired,
            ),
            amount == 0 || max_x == 0 || max_y == 0 ==> r is Err,
            !self.locked && now < expiration && (amount == 0 || max_x == 0 || max_y == 0) ==> r
                == Err::<Settlement, DepositError>(DepositError::ZeroAmount),
            // the first deposit sets the price
            guard_rejection(self.locked, expiration, now, amount, max_x, max_y) is None
                && self.is_empty() ==> r == Ok::<Settlement, DepositError>(
                Settlement { required_x: max_x, required_y: max_y, lp_amount: amount },
            ),
            // a pool that is neither empty nor seeded is not priced
            guard_rejection(self.locked, expiration, now, amount, max_x, max_y) is None
                && !self.is_empty() && !self.is_seeded() ==> r == Err::<Settlement, DepositError>(
                DepositError::CurveError(CurveError::InconsistentReserves),
            ),
            // no quote above a cap is settled
            guard_rejection(self.locked, expiration, now, amount, max_x, max_y) is None ==> (
            self.required_amounts(amount, max_x, max_y) matches Ok((x, y)) ==> (x > max_x || y
                > max_y) ==> r == Err::<Settlement, DepositError>(DepositError::SlippageExceeded)),
            r matches Ok(s) ==> s.lp_amount == amount && s.required_x <= max_x && s.required_y
                <= max_y,
            r matches Ok(s) ==> self.required_amounts(amount, max_x, max_y) == Ok::<
                (u64, u64),
                DepositError,
            >((s.required_x, s.required_y)),
            // a seeded pool settles exactly when both proportional amounts,
            // rounded up, are within the caps, and settles those amounts
            guard_rejection(self.locked, expiration, now, amount, max_x, max_y) is None
                && self.is_seeded() ==> (r is Ok <==> self.required_x(amount) <= max_x
                && self.required_y(amount) <= max_y),
            guard_rejection(self.locked, expiration, now, amount, max_x, max_y) is None
                && self.is_seeded() ==> (r matches Ok(s) ==> s.required_x == self.required_x(amount)
                && s.required_y == self.required_y(amount)),
            // an amount that is a balance and above its cap is slippage; one
            // that is no balance is not representable
            guard_rejection(self.locked, expiration, now, amount, max_x, max_y) is None
                && self.is_seeded() && self.required_x(amount) <= u64::MAX && self.required_y(
                amount,
            ) <= u64::MAX && (self.required_x(amount) > max_x || self.required_y(amount) > max_y)
                ==> r == Err::<Settlement, DepositError>(DepositError::SlippageExceeded),
            guard_rejection(self.locked, expiration, now, amount, max_x, max_y) is None
                && self.is_seeded() && (self.required_x(amount) > u64::MAX || self.required_y(
                amount,
            ) > u64::MAX) ==> r == Err::<Settlement, DepositError>(
                DepositError::CurveError(CurveError::AmountNotRepresentable),
            ),
            // a seeded pool prices any request up to its whole supply, and
            // never above its reserves
            guard_rejection(self.locked, expiration, now, amount, max_x, max_y) is None
                && self.is_seeded() && amount <= self.lp_supply && self.reserve_x <= max_x
                && self.reserve_y <= max_y ==> r is Ok,
            // a seeded pool is paid in proportion, rounded up
            r matches Ok(s) ==> !self.is_empty() ==> self.is_seeded() && self.pays_in_proportion(
                amount,
                s.required_x,
                s.required_y,
            ),
            // no deposit fails on overflow: the widened products always fit
            r != Err::<Settlement, DepositError>(DepositError::ArithmeticOverflow),
    {
        match validate(self.locked, expiration, now, amount, max_x, max_y) {
            Err(e) => {
                return Err(e);
            },
            Ok(_) => {},
        }
        let (x, y) = match self.quote(amount, max_x, max_y) {
            Err(e) => {
                return Err(e);
            },
            Ok(amounts) => amounts,
        };
        match enforce_slippage(x, y, max_x, max_y) {
            Err(e) => Err(e),
            Ok(_) => Ok(Settlement { required_x: x, required_y: y, lp_amount: amount }),
        }
    }
}

} // verus!
