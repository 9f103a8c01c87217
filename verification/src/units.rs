//! Unit conventions and saturating fixed-point arithmetic.
//!
//! Positions and half-extents are measured in micro-units (one unit is
//! `1_000_000` micro-units), velocities in milli-units per second (one unit
//! per second is `1_000` milli-units per second), and elapsed time in
//! milliseconds. With these scales `velocity * elapsed` is exactly a
//! displacement in micro-units, so integration needs no division and no
//! rounding. Out-of-range intermediate results saturate at the `i64` bounds;
//! every operation is total.

use vstd::prelude::*;

verus! {

/// Micro-units per world unit: the scale of positions and half-extents.
pub const MICROS_PER_UNIT: i64 = 1_000_000;

/// Milli-units per second per world unit per second: the scale of velocities.
pub const VEL_MILLIS_PER_UNIT: i64 = 1_000;

/// Downward acceleration applied to gravity-affected bodies, expressed as the
/// change of velocity (milli-units per second) per millisecond of elapsed
/// time. `-10` here is exactly `-10` units per second squared.
pub const GRAVITY_ACCEL_PER_MS: i64 = -10;

/// Lower clamp bound for the player's vertical velocity: `-100` units/s.
pub const MIN_Y_VELOCITY: i64 = -100_000;

/// Upper clamp bound for the player's vertical velocity: `100` units/s.
pub const MAX_Y_VELOCITY: i64 = 100_000;

/// Vertical velocity assigned to the player by a successful jump: `5` units/s.
pub const JUMP_IMPULSE: i64 = 5_000;

/// Clips a mathematical integer to the representable `i64` range.
pub open spec fn clip_to_i64(x: int) -> int {
    if x > i64::MAX as int {
        i64::MAX as int
    } else if x < i64::MIN as int {
        i64::MIN as int
    } else {
        x
    }
}

/// Clamps a mathematical integer into the closed interval `[lo, hi]`.
pub open spec fn spec_clamp(x: int, lo: int, hi: int) -> int {
    if x < lo {
        lo
    } else if x > hi {
        hi
    } else {
        x
    }
}

/// Saturating addition on `i64`.
pub fn sat_add_i64(a: i64, b: i64) -> (r: i64)
    ensures
        r as int == clip_to_i64(a + b),
{
    let wide: i128 = a as i128 + b as i128;
    if wide > i64::MAX as i128 {
        i64::MAX
    } else if wide < i64::MIN as i128 {
        i64::MIN
    } else {
        wide as i64
    }
}

/// Saturating multiplication on `i64`.
pub fn sat_mul_i64(a: i64, b: i64) -> (r: i64)
    ensures
        r as int == clip_to_i64(a * b),
{
    proof {
        assert(i128::MIN <= a * b <= i128::MAX) by (nonlinear_arith)
            requires
                i64::MIN <= a <= i64::MAX,
                i64::MIN <= b <= i64::MAX,
        ;
    }
    let wide: i128 = (a as i128) * (b as i128);
    if wide > i64::MAX as i128 {
        i64::MAX
    } else if wide < i64::MIN as i128 {
        i64::MIN
    } else {
        wide as i64
    }
}

/// Clamps `x` into `[lo, hi]`; total for `lo <= hi`.
pub fn clamp_i64(x: i64, lo: i64, hi: i64) -> (r: i64)
    requires
        lo <= hi,
    ensures
        r as int == spec_clamp(x as int, lo as int, hi as int),
{
    if x < lo {
        lo
    } else if x > hi {
        hi
    } else {
        x
    }
}

} // verus!
