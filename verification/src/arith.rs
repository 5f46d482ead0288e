//! Integer helpers: truncating division, unit conversion and saturation.

use vstd::prelude::*;

verus! {

/// Number of fine coordinate units in one surface pixel.
pub const UNITS_PER_PIXEL: i64 = 1000;

/// The quotient of `a` by `b` rounded toward zero, for `b != 0`.
pub open spec fn quotient(a: int, b: int) -> int
    recommends
        b != 0,
{
    if a >= 0 {
        if b > 0 {
            a / b
        } else {
            -(a / (-b))
        }
    } else {
        if b > 0 {
            -((-a) / b)
        } else {
            (-a) / (-b)
        }
    }
}

/// `v` limited to the closed interval from `lo` to `hi`.
pub open spec fn clamp(v: int, lo: int, hi: int) -> int {
    if v < lo {
        lo
    } else if v > hi {
        hi
    } else {
        v
    }
}

/// The whole pixel that holds the fine coordinate `units`, counted toward zero.
pub open spec fn pixel_of(units: int) -> int {
    quotient(units, UNITS_PER_PIXEL as int)
}

/// The magnitude of a truncated quotient never exceeds that of the dividend.
pub proof fn lemma_quotient_bounded(a: int, b: int)
    requires
        b != 0,
    ensures
        a >= 0 ==> -a <= quotient(a, b) <= a,
        a <= 0 ==> a <= quotient(a, b) <= -a,
{
    let p: int = if a >= 0 { a } else { -a };
    let d: int = if b > 0 { b } else { -b };
    assert(0 <= p / d <= p) by (nonlinear_arith)
        requires
            p >= 0,
            d > 0,
    ;
}

/// Divides rounding toward zero.
pub(crate) fn divide(a: i64, b: i64) -> (q: i64)
    requires
        b != 0,
        a > i64::MIN,
        b > i64::MIN,
    ensures
        q == quotient(a as int, b as int),
{
    if b > 0 {
        a / b
    } else {
        let d: i64 = -b;
        let q: i64 = a / d;
        proof {
            lemma_quotient_bounded(a as int, d as int);
        }
        -q
    }
}

/// Converts a fine coordinate to whole pixels, rounding toward zero.
pub fn to_pixel(units: i128) -> (p: i128)
    ensures
        p == pixel_of(units as int),
{
    units / (UNITS_PER_PIXEL as i128)
}

/// Narrows `v` to `i32`, stopping at the ends of its range.
pub fn saturate(v: i128) -> (r: i32)
    ensures
        r == clamp(v as int, i32::MIN as int, i32::MAX as int),
{
    if v < -0x8000_0000 {
        i32::MIN
    } else if v > 0x7fff_ffff {
        i32::MAX
    } else {
        v as i32
    }
}

} // verus!
