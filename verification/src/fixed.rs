//! Fixed-point arithmetic helpers.
//!
//! Positions and extents are `i64` values in thousandths of a world unit
//! ("milli-units"); durations are milliseconds in `u64`; speeds are
//! milli-units per second. The helpers here give the exact integer
//! semantics that the simulation's contracts are stated over: saturating
//! addition and subtraction for positions, and a sign-magnitude
//! multiply-then-divide used for scaling direction vectors.

use vstd::prelude::*;

verus! {

/// Milli-units per world unit; also the magnitude of a unit axis vector.
pub const AXIS_UNIT: u64 = 1000;

/// Upper bound on a timer duration in milliseconds (about 31,000 years);
/// keeps timer arithmetic far away from `u64` overflow.
pub const DUR_MAX: u64 = 1_000_000_000_000_000;

/// Upper bound on a single frame's elapsed time in milliseconds.
pub const DELTA_MAX: u64 = 1_000_000;

/// Upper bound on a speed in milli-units per second.
pub const SPEED_MAX: u64 = 1_000_000_000;

/// Upper bound on a tower body size in milli-units.
pub const SIZE_MAX: u64 = 1_000_000_000;

pub open spec fn abs_i(a: int) -> int {
    if a >= 0 {
        a
    } else {
        -a
    }
}

/// Sum of `a` and `b`, clamped to the `i64` range.
pub open spec fn sat_add(a: int, b: int) -> int {
    if a + b > i64::MAX {
        i64::MAX as int
    } else if a + b < i64::MIN {
        i64::MIN as int
    } else {
        a + b
    }
}

/// Difference of `a` and `b`, clamped to the `i64` range.
pub open spec fn sat_sub(a: int, b: int) -> int {
    if a - b > i64::MAX {
        i64::MAX as int
    } else if a - b < i64::MIN {
        i64::MIN as int
    } else {
        a - b
    }
}

/// `a * m / d` with the quotient taken on the magnitude of `a` and the sign
/// of `a` restored afterwards (round toward zero).
pub open spec fn mul_div(a: int, m: int, d: int) -> int
    recommends
        m >= 0,
        d > 0,
{
    if a >= 0 {
        (a * m) / d
    } else {
        -((-a * m) / d)
    }
}

pub fn sat_add_i64(a: i64, b: i64) -> (r: i64)
    ensures
        r as int == sat_add(a as int, b as int),
{
    if b >= 0 {
        if a <= i64::MAX - b {
            a + b
        } else {
            i64::MAX
        }
    } else {
        if a >= i64::MIN - b {
            a + b
        } else {
            i64::MIN
        }
    }
}

pub fn sat_sub_i64(a: i64, b: i64) -> (r: i64)
    ensures
        r as int == sat_sub(a as int, b as int),
{
    if b >= 0 {
        if a >= i64::MIN + b {
            a - b
        } else {
            i64::MIN
        }
    } else {
        if a <= i64::MAX + b {
            a - b
        } else {
            i64::MAX
        }
    }
}

/// Upper bound on the scale factor `scale_axis` accepts; large enough for
/// both a muzzle offset (half a body size plus clearance) and a per-frame
/// displacement (`SPEED_MAX * DELTA_MAX`).
pub const SCALE_MAX: u64 = 1_000_000_000_000_000;

/// Scale one component of a unit axis vector: `a * m / d`, rounded toward
/// zero, with the sign of `a`.
pub fn scale_axis(a: i64, m: u64, d: u64) -> (r: i64)
    requires
        -(AXIS_UNIT as int) <= a <= AXIS_UNIT as int,
        m <= SCALE_MAX,
        d > 0,
    ensures
        r as int == mul_div(a as int, m as int, d as int),
{
    proof {
        assert(abs_i(a as int) * m <= 1_000_000_000_000_000_000) by (nonlinear_arith)
            requires
                abs_i(a as int) <= 1000,
                0 <= abs_i(a as int),
                m <= 1_000_000_000_000_000,
        ;
        vstd::arithmetic::div_mod::lemma_div_nonincreasing(abs_i(a as int) * m, d as int);
    }
    mul_div_i64(a, m, d)
}

/// Scale a signed component: magnitude goes through `* m / d` in `u64`,
/// the sign of `a` is restored on the result.
pub fn mul_div_i64(a: i64, m: u64, d: u64) -> (r: i64)
    requires
        d > 0,
        a > i64::MIN,
        abs_i(a as int) * m <= u64::MAX,
        abs_i(a as int) * m / (d as int) <= i64::MAX,
    ensures
        r as int == mul_div(a as int, m as int, d as int),
{
    if a >= 0 {
        let prod: u64 = (a as u64) * m;
        let q: u64 = prod / d;
        q as i64
    } else {
        let prod: u64 = ((-a) as u64) * m;
        let q: u64 = prod / d;
        -(q as i64)
    }
}

} // verus!
