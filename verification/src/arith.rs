//! Saturating arithmetic on canvas coordinates.
//!
//! A coordinate is an `i64`. Sums, differences and products that leave the
//! range of `i64` stick to the nearest bound instead of wrapping.

use vstd::prelude::*;

verus! {

/// The `i64` nearest to `v`.
pub open spec fn clamp(v: int) -> i64 {
    if v < i64::MIN {
        i64::MIN
    } else if v > i64::MAX {
        i64::MAX
    } else {
        v as i64
    }
}

/// `a + b`, held to the range of `i64`.
pub fn sat_add(a: i64, b: i64) -> (r: i64)
    ensures
        r == clamp(a + b),
{
    match a.checked_add(b) {
        Some(s) => s,
        None => if a < 0 {
            i64::MIN
        } else {
            i64::MAX
        },
    }
}

/// `a - b`, held to the range of `i64`.
pub fn sat_sub(a: i64, b: i64) -> (r: i64)
    ensures
        r == clamp(a - b),
{
    match a.checked_sub(b) {
        Some(s) => s,
        None => if a < 0 {
            i64::MIN
        } else {
            i64::MAX
        },
    }
}

/// `-a`, held to the range of `i64`.
pub fn sat_neg(a: i64) -> (r: i64)
    ensures
        r == clamp(-a),
{
    sat_sub(0, a)
}

/// `a * b`, held to the range of `i64`.
pub fn sat_mul(a: i64, b: i64) -> (r: i64)
    ensures
        r == clamp(a * b),
{
    match a.checked_mul(b) {
        Some(p) => p,
        None => {
            if (a < 0) == (b < 0) {
                assert(a * b >= 0) by (nonlinear_arith)
                    requires
                        (a < 0) == (b < 0),
                ;
                i64::MAX
            } else {
                assert(a * b <= 0) by (nonlinear_arith)
                    requires
                        (a < 0) != (b < 0),
                ;
                i64::MIN
            }
        },
    }
}

/// Half of `v`, rounded towards zero.
pub open spec fn half_of(v: i64) -> i64 {
    if v >= 0 {
        (v / 2) as i64
    } else {
        (-((-v) / 2)) as i64
    }
}

/// Half of `v`, rounded towards zero.
pub fn half(v: i64) -> (r: i64)
    ensures
        r == half_of(v),
{
    v / 2
}

} // verus!
