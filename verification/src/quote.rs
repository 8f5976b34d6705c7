//! The proportional quote: what a seeded pool requires for new shares.
//!
//! New shares are paid for with the part of each reserve that they are of
//! the supply: `reserve * lp_amount / lp_supply`, rounded up to the next
//! whole unit. The product is taken once, in `u128`, and rounded once, so
//! that rounding is paid by the provider, by less than one unit of each
//! asset, and the pool is never left short. The arithmetic is this crate's
//! own; no curve crate is linked.

use crate::error::{CurveError, DepositError};
use crate::math::{
    ceil_div, lemma_ceil_div_bounds, lemma_ceil_div_exact, lemma_ceil_div_monotonic,
    lemma_ceil_div_unique, mul_div_ceil,
};
use vstd::arithmetic::div_mod::{
    lemma_div_is_ordered, lemma_div_multiples_vanish, lemma_fundamental_div_mod,
};
use vstd::prelude::*;

verus! {

/// The number of fractional decimal digits that deposits name as the
/// curve's resolution.
pub const DEPOSIT_PRECISION: u32 = 6;

/// What a reserve requires for `lp_amount` new shares beside `lp_supply`
/// outstanding ones: the proportional amount, rounded up.
pub open spec fn required_amount(reserve: int, lp_amount: int, lp_supply: int) -> int {
    ceil_div(reserve * lp_amount, lp_supply)
}

/// The proportional quote. A zero among reserves and supply is refused
/// first, then an amount that is larger than a balance can be.
pub open spec fn proportional_quote(
    reserve_x: u64,
    reserve_y: u64,
    lp_supply: u64,
    lp_amount: u64,
) -> Result<(u64, u64), DepositError> {
    let x = required_amount(reserve_x as int, lp_amount as int, lp_supply as int);
    let y = required_amount(reserve_y as int, lp_amount as int, lp_supply as int);
    if reserve_x == 0 || reserve_y == 0 || lp_supply == 0 {
        Err(DepositError::CurveError(CurveError::InconsistentReserves))
    } else if x > u64::MAX || y > u64::MAX {
        Err(DepositError::CurveError(CurveError::AmountNotRepresentable))
    } else {
        Ok((x as u64, y as u64))
    }
}

/// Whether `required` is the fair price in one asset for `lp_amount` new
/// shares: as a part of the reserve it is not below the requested part of
/// the supply, so not below the proportional amount rounded down; and it is
/// above that part by less than one base unit of the asset.
pub open spec fn in_proportion(reserve: int, required: int, lp_amount: int, lp_supply: int) -> bool {
    &&& reserve * lp_amount <= required * lp_supply
    &&& (reserve * lp_amount) / lp_supply <= required
    &&& required * lp_supply < reserve * lp_amount + lp_supply
}

/// Whether `x` and `y` are required in the proportion in which the pool
/// holds the two assets, up to rounding: the parts `x / reserve_x` and
/// `y / reserve_y` differ by less than one base unit of either asset, that
/// is by less than `1 / reserve_x` one way and `1 / reserve_y` the other.
pub open spec fn keeps_ratio(reserve_x: int, reserve_y: int, x: int, y: int) -> bool {
    -reserve_x < x * reserve_y - y * reserve_x < reserve_y
}

/// Rounding never favours the provider, and costs them less than one unit:
/// the required amount is in proportion.
pub proof fn lemma_required_amount_in_proportion(reserve: int, lp_amount: int, lp_supply: int)
    requires
        lp_supply > 0,
    ensures
        in_proportion(
            reserve,
            required_amount(reserve, lp_amount, lp_supply),
            lp_amount,
            lp_supply,
        ),
{
    let x = required_amount(reserve, lp_amount, lp_supply);
    lemma_ceil_div_bounds(reserve * lp_amount, lp_supply);
    lemma_div_is_ordered(reserve * lp_amount, x * lp_supply, lp_supply);
    lemma_div_multiples_vanish(x, lp_supply);
    assert(lp_supply * x == x * lp_supply) by (nonlinear_arith);
}

/// No other amount is in proportion: the two bounds leave room for one
/// integer only.
pub proof fn lemma_in_proportion_is_required_amount(
    reserve: int,
    required: int,
    lp_amount: int,
    lp_supply: int,
)
    requires
        lp_supply > 0,
        in_proportion(reserve, required, lp_amount, lp_supply),
    ensures
        required == required_amount(reserve, lp_amount, lp_supply),
{
    lemma_ceil_div_unique(reserve * lp_amount, lp_supply, required);
}

/// Where the supply divides the product, nothing is rounded: the required
/// amount is the proportional amount.
pub proof fn lemma_required_amount_exact(reserve: int, lp_amount: int, lp_supply: int)
    requires
        lp_supply > 0,
        (reserve * lp_amount) % lp_supply == 0,
    ensures
        required_amount(reserve, lp_amount, lp_supply) * lp_supply == reserve * lp_amount,
        required_amount(reserve, lp_amount, lp_supply) == (reserve * lp_amount) / lp_supply,
{
    let q = (reserve * lp_amount) / lp_supply;
    lemma_fundamental_div_mod(reserve * lp_amount, lp_supply);
    assert(q * lp_supply == lp_supply * q) by (nonlinear_arith);
    lemma_ceil_div_unique(reserve * lp_amount, lp_supply, q);
}

/// The pool's ratio is kept: both assets are required in the proportion in
/// which the pool holds them, up to rounding.
pub proof fn lemma_required_amounts_keep_ratio(
    reserve_x: int,
    reserve_y: int,
    lp_amount: int,
    lp_supply: int,
)
    requires
        reserve_x > 0,
        reserve_y > 0,
        lp_supply > 0,
    ensures
        keeps_ratio(
            reserve_x,
            reserve_y,
            required_amount(reserve_x, lp_amount, lp_supply),
            required_amount(reserve_y, lp_amount, lp_supply),
        ),
{
    let x = required_amount(reserve_x, lp_amount, lp_supply);
    let y = required_amount(reserve_y, lp_amount, lp_supply);
    lemma_ceil_div_bounds(reserve_x * lp_amount, lp_supply);
    lemma_ceil_div_bounds(reserve_y * lp_amount, lp_supply);
    assert(x * reserve_y - y * reserve_x < reserve_y) by (nonlinear_arith)
        requires
            reserve_x > 0,
            reserve_y > 0,
            lp_supply > 0,
            x * lp_supply < reserve_x * lp_amount + lp_supply,
            reserve_y * lp_amount <= y * lp_supply,
    ;
    assert(y * reserve_x - x * reserve_y < reserve_x) by (nonlinear_arith)
        requires
            reserve_x > 0,
            reserve_y > 0,
            lp_supply > 0,
            y * lp_supply < reserve_y * lp_amount + lp_supply,
            reserve_x * lp_amount <= x * lp_supply,
    ;
}

/// When a quote is owed. A seeded pool quotes any request of at most `k`
/// times its supply, provided that `k` times each reserve is still a
/// balance. The amounts are then at most `k` times the reserves.
pub proof fn lemma_quote_succeeds_within_bounds(
    reserve_x: u64,
    reserve_y: u64,
    lp_supply: u64,
    lp_amount: u64,
    k: int,
)
    requires
        reserve_x > 0,
        reserve_y > 0,
        lp_supply > 0,
        lp_amount <= k * lp_supply,
        k * reserve_x <= u64::MAX,
        k * reserve_y <= u64::MAX,
    ensures
        proportional_quote(reserve_x, reserve_y, lp_supply, lp_amount) matches Ok((x, y)) && x
            <= k * reserve_x && y <= k * reserve_y,
{
    lemma_required_amount_at_most(reserve_x as int, lp_amount as int, lp_supply as int, k);
    lemma_required_amount_at_most(reserve_y as int, lp_amount as int, lp_supply as int, k);
}

/// At most `k` times the supply requires at most `k` times the reserve,
/// and no less than nothing.
proof fn lemma_required_amount_at_most(reserve: int, lp_amount: int, lp_supply: int, k: int)
    requires
        reserve >= 0,
        lp_supply > 0,
        0 <= lp_amount <= k * lp_supply,
    ensures
        0 <= required_amount(reserve, lp_amount, lp_supply) <= k * reserve,
{
    assert(0 <= reserve * lp_amount <= (k * reserve) * lp_supply) by (nonlinear_arith)
        requires
            reserve >= 0,
            lp_supply > 0,
            0 <= lp_amount <= k * lp_supply,
    ;
    lemma_ceil_div_monotonic(0, reserve * lp_amount, lp_supply);
    lemma_ceil_div_monotonic(reserve * lp_amount, (k * reserve) * lp_supply, lp_supply);
    lemma_ceil_div_exact(0, lp_supply);
    lemma_ceil_div_exact(k * reserve, lp_supply);
}

/// Quotes the amounts of both assets that a seeded pool requires for
/// `lp_amount` new shares: of each reserve the part that the new shares are
/// of the supply, rounded up once to a whole unit.
///
/// `precision` is the number of fractional decimal digits that the caller
/// names as the curve's resolution. The amounts are whole base units, so
/// the quote is the same at every precision.
///
/// The products are taken with a checked multiplication in `u128`, which
/// would answer `ArithmeticOverflow`; two 64-bit factors never overflow it,
/// so the quote has two ways to fail and no third.
#[allow(unused_variables)]
pub fn quote_from_lp_amount(
    reserve_x: u64,
    reserve_y: u64,
    lp_supply: u64,
    lp_amount: u64,
    precision: u32,
) -> (r: Result<(u64, u64), DepositError>)
    ensures
        r == proportional_quote(reserve_x, reserve_y, lp_supply, lp_amount),
        r is Ok <==> reserve_x > 0 && reserve_y > 0 && lp_supply > 0 && required_amount(
            reserve_x as int,
            lp_amount as int,
            lp_supply as int,
        ) <= u64::MAX && required_amount(reserve_y as int, lp_amount as int, lp_supply as int)
            <= u64::MAX,
        r matches Ok((x, y)) ==> x == required_amount(
            reserve_x as int,
            lp_amount as int,
            lp_supply as int,
        ) && y == required_amount(reserve_y as int, lp_amount as int, lp_supply as int),
        r matches Ok((x, _)) ==> in_proportion(
            reserve_x as int,
            x as int,
            lp_amount as int,
            lp_supply as int,
        ),
        r matches Ok((_, y)) ==> in_proportion(
            reserve_y as int,
            y as int,
            lp_amount as int,
            lp_supply as int,
        ),
        r matches Ok((x, y)) ==> keeps_ratio(reserve_x as int, reserve_y as int, x as int, y as int),
        reserve_x > 0 && reserve_y > 0 && lp_supply > 0 && lp_amount <= lp_supply ==> (r matches Ok(
            (x, y),
        ) && x <= reserve_x && y <= reserve_y),
        r != Err::<(u64, u64), DepositError>(DepositError::ArithmeticOverflow),
{
    if reserve_x == 0 || reserve_y == 0 || lp_supply == 0 {
        return Err(DepositError::CurveError(CurveError::InconsistentReserves));
    }
    proof {
        assert(reserve_x * lp_amount <= u128::MAX && reserve_y * lp_amount <= u128::MAX)
            by (nonlinear_arith)
            requires
                0 <= reserve_x <= u64::MAX,
                0 <= reserve_y <= u64::MAX,
                0 <= lp_amount <= u64::MAX,
        ;
        lemma_required_amount_in_proportion(reserve_x as int, lp_amount as int, lp_supply as int);
        lemma_required_amount_in_proportion(reserve_y as int, lp_amount as int, lp_supply as int);
        lemma_required_amounts_keep_ratio(
            reserve_x as int,
            reserve_y as int,
            lp_amount as int,
            lp_supply as int,
        );
        if lp_amount <= lp_supply {
            lemma_quote_succeeds_within_bounds(reserve_x, reserve_y, lp_supply, lp_amount, 1);
        }
    }
    let (x, y) = match (
        mul_div_ceil(reserve_x as u128, lp_amount as u128, lp_supply as u128),
        mul_div_ceil(reserve_y as u128, lp_amount as u128, lp_supply as u128),
    ) {
        (Some(x), Some(y)) => (x, y),
        _ => {
            return Err(DepositError::ArithmeticOverflow);
        },
    };
    if x > u64::MAX as u128 || y > u64::MAX as u128 {
        return Err(DepositError::CurveError(CurveError::AmountNotRepresentable));
    }
    Ok((x as u64, y as u64))
}

} // verus!
