//! Widened arithmetic: a product in `u128`, divided and rounded up.
//!
//! Amounts are `u64`. Their products are taken in `u128`, where a product
//! that does not fit is reported, never wrapped, and a quotient is rounded
//! up to the next whole unit.

use vstd::arithmetic::div_mod::{
    lemma_fundamental_div_mod, lemma_fundamental_div_mod_converse, lemma_mod_bound,
};
use vstd::prelude::*;

verus! {

/// The least integer that is not below the fraction `n / d`, for `d > 0`.
pub open spec fn ceil_div(n: int, d: int) -> int {
    (n + d - 1) / d
}

/// `ceil_div(n, d)` is not below the fraction `n / d`, and less than one
/// above it.
pub proof fn lemma_ceil_div_bounds(n: int, d: int)
    requires
        d > 0,
    ensures
        n <= ceil_div(n, d) * d < n + d,
{
    let m = n + d - 1;
    lemma_fundamental_div_mod(m, d);
    lemma_mod_bound(m, d);
    assert(d * (m / d) == (m / d) * d) by (nonlinear_arith);
}

/// Any integer `c` with `n <= c * d < n + d` is `ceil_div(n, d)`.
pub proof fn lemma_ceil_div_unique(n: int, d: int, c: int)
    requires
        d > 0,
        n <= c * d < n + d,
    ensures
        ceil_div(n, d) == c,
{
    let m = n + d - 1;
    lemma_fundamental_div_mod_converse(m, d, c, m - c * d);
}

/// Rounding up keeps the order of numerators.
pub proof fn lemma_ceil_div_monotonic(n1: int, n2: int, d: int)
    requires
        d > 0,
        n1 <= n2,
    ensures
        ceil_div(n1, d) <= ceil_div(n2, d),
{
    lemma_ceil_div_bounds(n1, d);
    lemma_ceil_div_bounds(n2, d);
    let c1 = ceil_div(n1, d);
    let c2 = ceil_div(n2, d);
    assert(c1 <= c2) by (nonlinear_arith)
        requires
            d > 0,
            c1 * d < n1 + d,
            n1 <= n2,
            n2 <= c2 * d,
    ;
}

/// A numerator that the denominator divides is divided exactly.
pub proof fn lemma_ceil_div_exact(q: int, d: int)
    requires
        d > 0,
    ensures
        ceil_div(q * d, d) == q,
{
    lemma_ceil_div_unique(q * d, d, q);
}

/// `n / d` rounded up to the next integer.
pub fn ceil_div_u128(n: u128, d: u128) -> (c: u128)
    requires
        d > 0,
    ensures
        c == ceil_div(n as int, d as int),
{
    let q: u128 = n / d;
    let r: u128 = n % d;
    proof {
        lemma_fundamental_div_mod(n as int, d as int);
        assert(d * q == q * d) by (nonlinear_arith);
    }
    if r == 0 {
        proof {
            lemma_ceil_div_unique(n as int, d as int, q as int);
        }
        q
    } else {
        proof {
            assert((q + 1) * d == q * d + d) by (nonlinear_arith);
            lemma_ceil_div_unique(n as int, d as int, q + 1);
            assert(q < u128::MAX) by (nonlinear_arith)
                requires
                    d >= 2,
                    q * d <= u128::MAX,
            ;
        }
        q + 1
    }
}

/// `a * b / d` rounded up to the next integer, or `None` where the product
/// does not fit in `u128`.
pub fn mul_div_ceil(a: u128, b: u128, d: u128) -> (r: Option<u128>)
    requires
        d > 0,
    ensures
        a * b <= u128::MAX ==> (r matches Some(v) && v == ceil_div(a * b, d as int)),
        a * b > u128::MAX ==> r is None,
{
    match a.checked_mul(b) {
        Some(product) => Some(ceil_div_u128(product, d)),
        None => None,
    }
}

} // verus!
