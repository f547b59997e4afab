//! Fixed-point trigonometry over angles in microdegrees.
//!
//! `sin_udeg` and `cos_udeg` evaluate degree-7 (sine) and degree-8
//! (cosine) Taylor polynomials in nanoradians after quadrant reduction;
//! the result is the sine scaled by 1_000_000_000 and clamped to that
//! unit range. `asin_udeg` inverts the same fixed-point sine by binary
//! search, so every executable function here returns exactly the value
//! of its spec-level counterpart.

use vstd::prelude::*;
use crate::fixed::{mul_div, tdiv};

verus! {

/// Scale of trigonometric values: this value stands for 1.0.
pub const UNIT: i64 = 1_000_000_000;

/// Nanoradians per microdegree, scaled by 1_000_000_000.
pub const NRAD_PER_UDEG_E9: i64 = 17_453_292_520;

/// Pi / 2 in nanoradians (rounded up, so reduced arguments stay below it).
pub const HALF_PI_NRAD: i64 = 1_570_796_327;

/// Pi / 4 in nanoradians.
pub const QUARTER_PI_NRAD: i64 = 785_398_163;

/// Largest magnitude (in microdegrees) accepted by `sin_udeg`: a
/// multiple of 360 degrees, so reduction is a single shift and modulus.
pub const SIN_ARG_MAX: i64 = 9_360_000_000_000_000;

/// Clamp a scaled trigonometric value into [-1.0, 1.0].
pub open spec fn clamp_unit(s: int) -> int {
    if s > 1_000_000_000 {
        1_000_000_000
    } else if s < -1_000_000_000 {
        -1_000_000_000
    } else {
        s
    }
}

/// Taylor polynomial for sine, argument in nanoradians within [0, pi/4].
pub open spec fn spec_sin_poly(x: int) -> int {
    let x2 = tdiv(x * x, 1_000_000_000);
    let x3 = tdiv(x2 * x, 1_000_000_000);
    let x5 = tdiv(x3 * x2, 1_000_000_000);
    let x7 = tdiv(x5 * x2, 1_000_000_000);
    x - tdiv(x3, 6) + tdiv(x5, 120) - tdiv(x7, 5040)
}

/// Taylor polynomial for cosine, argument in nanoradians within [0, pi/4 + 1].
pub open spec fn spec_cos_poly(y: int) -> int {
    let y2 = tdiv(y * y, 1_000_000_000);
    let y4 = tdiv(y2 * y2, 1_000_000_000);
    let y6 = tdiv(y4 * y2, 1_000_000_000);
    let y8 = tdiv(y6 * y2, 1_000_000_000);
    1_000_000_000 - tdiv(y2, 2) + tdiv(y4, 24) - tdiv(y6, 720) + tdiv(y8, 40320)
}

/// Sine of an angle in the first quadrant (microdegrees in [0, 90e6]),
/// clamped to the unit range.
pub open spec fn spec_sin_quadrant(x: int) -> int {
    let xr = tdiv(x * 17_453_292_520, 1_000_000_000);
    if xr <= 785_398_163 {
        clamp_unit(spec_sin_poly(xr))
    } else {
        clamp_unit(spec_cos_poly(1_570_796_327 - xr))
    }
}

/// Sine of an angle already reduced to [0, 360e6) microdegrees.
pub open spec fn spec_sin_reduced(r: int) -> int {
    if r < 90_000_000 {
        spec_sin_quadrant(r)
    } else if r < 180_000_000 {
        spec_sin_quadrant(180_000_000 - r)
    } else if r < 270_000_000 {
        -spec_sin_quadrant(r - 180_000_000)
    } else {
        -spec_sin_quadrant(360_000_000 - r)
    }
}

/// Fixed-point sine of an angle in microdegrees, scaled by 1e9.
/// Opaque: callers reason through the executable `sin_udeg`, which
/// returns exactly this value.
#[verifier::opaque]
pub open spec fn spec_sin_udeg(a: int) -> int {
    spec_sin_reduced((a + 9_360_000_000_000_000) % 360_000_000)
}

/// Fixed-point cosine of an angle in microdegrees, scaled by 1e9.
pub open spec fn spec_cos_udeg(a: int) -> int {
    spec_sin_udeg(a + 90_000_000)
}

fn sin_poly(x: i64) -> (r: i64)
    requires
        0 <= x <= 790_000_000,
    ensures
        r as int == spec_sin_poly(x as int),
{
    let x2 = mul_div(x, x, 1_000_000_000, Ghost(1_000_000_000), Ghost(1_000_000_000));
    let x3 = mul_div(x2, x, 1_000_000_000, Ghost(1_000_000_000), Ghost(1_000_000_000));
    let x5 = mul_div(x3, x2, 1_000_000_000, Ghost(1_000_000_000), Ghost(1_000_000_000));
    let x7 = mul_div(x5, x2, 1_000_000_000, Ghost(1_000_000_000), Ghost(1_000_000_000));
    let t3 = mul_div(x3, 1, 6, Ghost(1_000_000_000), Ghost(1));
    let t5 = mul_div(x5, 1, 120, Ghost(1_000_000_000), Ghost(1));
    let t7 = mul_div(x7, 1, 5040, Ghost(1_000_000_000), Ghost(1));
    x - t3 + t5 - t7
}

fn cos_poly(y: i64) -> (r: i64)
    requires
        0 <= y <= 790_000_000,
    ensures
        r as int == spec_cos_poly(y as int),
{
    let y2 = mul_div(y, y, 1_000_000_000, Ghost(1_000_000_000), Ghost(1_000_000_000));
    let y4 = mul_div(y2, y2, 1_000_000_000, Ghost(1_000_000_000), Ghost(1_000_000_000));
    let y6 = mul_div(y4, y2, 1_000_000_000, Ghost(1_000_000_000), Ghost(1_000_000_000));
    let y8 = mul_div(y6, y2, 1_000_000_000, Ghost(1_000_000_000), Ghost(1_000_000_000));
    let t2 = mul_div(y2, 1, 2, Ghost(1_000_000_000), Ghost(1));
    let t4 = mul_div(y4, 1, 24, Ghost(1_000_000_000), Ghost(1));
    let t6 = mul_div(y6, 1, 720, Ghost(1_000_000_000), Ghost(1));
    let t8 = mul_div(y8, 1, 40320, Ghost(1_000_000_000), Ghost(1));
    1_000_000_000 - t2 + t4 - t6 + t8
}

fn sin_quadrant(x: i64) -> (r: i64)
    requires
        0 <= x <= 90_000_000,
    ensures
        r as int == spec_sin_quadrant(x as int),
        -1_000_000_000 <= r <= 1_000_000_000,
{
    let xr = mul_div(x, NRAD_PER_UDEG_E9, 1_000_000_000, Ghost(90_000_000), Ghost(17_453_292_520));
    let s = if xr <= QUARTER_PI_NRAD {
        sin_poly(xr)
    } else {
        cos_poly(HALF_PI_NRAD - xr)
    };
    if s > UNIT {
        UNIT
    } else if s < -UNIT {
        -UNIT
    } else {
        s
    }
}

/// Fixed-point sine: angle in microdegrees, result scaled by 1e9 and
/// within [-1e9, 1e9]. Returns exactly `spec_sin_udeg`.
pub fn sin_udeg(a: i64) -> (r: i64)
    requires
        -SIN_ARG_MAX <= a <= SIN_ARG_MAX,
    ensures
        r as int == spec_sin_udeg(a as int),
        -1_000_000_000 <= r <= 1_000_000_000,
{
    proof {
        reveal(spec_sin_udeg);
    }
    let m: i64 = (((a + SIN_ARG_MAX) as u64) % 360_000_000u64) as i64;
    if m < 90_000_000 {
        sin_quadrant(m)
    } else if m < 180_000_000 {
        sin_quadrant(180_000_000 - m)
    } else if m < 270_000_000 {
        -sin_quadrant(m - 180_000_000)
    } else {
        -sin_quadrant(360_000_000 - m)
    }
}

/// Fixed-point cosine: angle in microdegrees, result scaled by 1e9 and
/// within [-1e9, 1e9]. Returns exactly `spec_cos_udeg`.
pub fn cos_udeg(a: i64) -> (r: i64)
    requires
        -SIN_ARG_MAX + 90_000_000 <= a <= SIN_ARG_MAX - 90_000_000,
    ensures
        r as int == spec_cos_udeg(a as int),
        -1_000_000_000 <= r <= 1_000_000_000,
{
    sin_udeg(a + 90_000_000)
}

/// Binary search for the largest angle whose fixed-point sine does not
/// exceed `v`, over a closed range of microdegrees.
pub open spec fn asin_search(lo: int, hi: int, v: int) -> int
    decreases hi - lo,
{
    if hi - lo <= 1 {
        lo
    } else {
        let mid = lo + (hi - lo) / 2;
        if spec_sin_udeg(mid) <= v {
            asin_search(mid, hi, v)
        } else {
            asin_search(lo, mid, v)
        }
    }
}

/// Fixed-point arcsine in microdegrees of a sine value scaled by 1e9.
/// Opaque: callers reason through the executable `asin_udeg`.
#[verifier::opaque]
pub open spec fn spec_asin_udeg(v: int) -> int {
    asin_search(-90_000_000, 90_000_000, v)
}

/// Fixed-point arccosine in microdegrees of a cosine value scaled by 1e9.
pub open spec fn spec_acos_udeg(v: int) -> int {
    90_000_000 - spec_asin_udeg(v)
}

/// Arcsine by binary search against the fixed-point sine. The result is
/// in microdegrees within [-90e6, 90e6] and equals `spec_asin_udeg`.
pub fn asin_udeg(v: i64) -> (r: i64)
    requires
        -1_000_000_000 <= v <= 1_000_000_000,
    ensures
        r as int == spec_asin_udeg(v as int),
        -90_000_000 <= r <= 90_000_000,
{
    proof {
        reveal(spec_asin_udeg);
    }
    let mut lo: i64 = -90_000_000;
    let mut hi: i64 = 90_000_000;
    while hi - lo > 1
        invariant
            -90_000_000 <= lo < hi <= 90_000_000,
            asin_search(lo as int, hi as int, v as int) == spec_asin_udeg(v as int),
        decreases hi - lo,
    {
        let mid: i64 = lo + (((hi - lo) as u64) / 2) as i64;
        let s = sin_udeg(mid);
        if s <= v {
            lo = mid;
        } else {
            hi = mid;
        }
    }
    lo
}

/// Arccosine in microdegrees: result within [0, 180e6], equal to
/// `spec_acos_udeg`.
pub fn acos_udeg(v: i64) -> (r: i64)
    requires
        -1_000_000_000 <= v <= 1_000_000_000,
    ensures
        r as int == spec_acos_udeg(v as int),
        0 <= r <= 180_000_000,
{
    90_000_000 - asin_udeg(v)
}

} // verus!
