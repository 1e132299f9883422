//! Fixed-point scalars.
//!
//! A scalar is an `i64` that counts billionths: `UNIT` stands for one whole,
//! `UNIT / 2` for a half. Specifications widen scalars to `int`, so sums and
//! products of scalars are exact there.

use vstd::prelude::*;

verus! {

/// How many steps of the grid make one whole.
pub const UNIT: i64 = 1_000_000_000;

/// The absolute value of a scalar, as a mathematical integer.
pub open spec fn magnitude(v: int) -> int {
    if v < 0 {
        -v
    } else {
        v
    }
}

/// The value nearest to `v` that an `i64` can hold.
pub open spec fn saturated(v: int) -> int {
    if v < i64::MIN {
        i64::MIN as int
    } else if v > i64::MAX {
        i64::MAX as int
    } else {
        v
    }
}

/// The absolute value of a scalar, widened so that the most negative `i64`
/// has one too.
pub fn abs_wide(v: i64) -> (r: i128)
    ensures
        r == magnitude(v as int),
{
    let w: i128 = v as i128;
    if w < 0 {
        -w
    } else {
        w
    }
}

/// Narrows a wide sum back to a scalar, stopping at the ends of the range.
pub fn saturate(v: i128) -> (r: i64)
    ensures
        r == saturated(v as int),
{
    if v < i64::MIN as i128 {
        i64::MIN
    } else if v > i64::MAX as i128 {
        i64::MAX
    } else {
        v as i64
    }
}

} // verus!
