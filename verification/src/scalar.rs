//! Fixed-point conventions shared by the whole simulation.
//!
//! A world coordinate is an `i64` number of milliunits (one thousandth of a
//! world unit, so the 1200x650-unit screen spans 1_200_000 x 650_000
//! milliunits). A velocity is in milliunits per second, a duration in
//! milliseconds. Integrating a velocity over a frame therefore multiplies
//! by the frame time and divides by [`SCALE`].

use vstd::prelude::*;

verus! {

/// Milliunits per world unit, and milliseconds per second.
pub const SCALE: i64 = 1000;

/// Largest magnitude a position or velocity component may reach. Writes
/// that integrate velocities or accelerations saturate here, so that the
/// simulation state stays bounded however many frames run.
pub const COORD_LIMIT: i64 = 1_000_000_000_000;

/// Upper bound on movement tuning values (speed, jump force, minimum jump
/// velocity, in milliunits per second) and on box sizes (in milliunits).
pub const TUNING_LIMIT: i64 = 1_000_000_000;

/// Upper bound on the jump hold time limit, in milliseconds.
pub const HOLD_LIMIT: i64 = 10_000;

/// Longest frame the simulation accepts, in milliseconds.
pub const DT_LIMIT: i64 = 1000;

/// Division truncating toward zero, as the hardware divides: the two
/// operands are made nonnegative, divided, and the sign restored.
pub open spec fn tdiv(a: int, b: int) -> int {
    if a >= 0 {
        a / b
    } else {
        -((-a) / b)
    }
}

/// A coordinate write saturated to the simulation's bounds.
pub open spec fn sat(v: int) -> int {
    if v > COORD_LIMIT as int {
        COORD_LIMIT as int
    } else if v < -(COORD_LIMIT as int) {
        -(COORD_LIMIT as int)
    } else {
        v
    }
}

/// A rectangle-corner write saturated to twice the coordinate bound, the
/// range rectangle corners may span.
pub open spec fn sat_wide(v: int) -> int {
    if v > 2 * (COORD_LIMIT as int) {
        2 * (COORD_LIMIT as int)
    } else if v < -2 * (COORD_LIMIT as int) {
        -2 * (COORD_LIMIT as int)
    } else {
        v
    }
}

/// Milliunits to whole units, rounding to the nearest and ties away from
/// zero.
pub open spec fn round_px(v: int) -> int {
    if v >= 0 {
        (v + 500) / (SCALE as int)
    } else {
        -(((-v) + 500) / (SCALE as int))
    }
}

/// Scaling a product back down by a positive divisor, truncating toward
/// zero as [`tdiv`] says.
pub fn scale_down(v: i64, d: i64) -> (r: i64)
    requires
        1 <= d,
        -0x4000_0000_0000_0000 <= v <= 0x4000_0000_0000_0000,
    ensures
        r == tdiv(v as int, d as int),
        v >= 0 ==> 0 <= r <= v,
        v < 0 ==> v <= r <= 0,
{
    if v >= 0 {
        v / d
    } else {
        -((-v) / d)
    }
}

/// A coordinate write saturated to `[-COORD_LIMIT, COORD_LIMIT]`.
pub fn sat_coord(v: i64) -> (r: i64)
    ensures
        r == sat(v as int),
{
    if v > COORD_LIMIT {
        COORD_LIMIT
    } else if v < -COORD_LIMIT {
        -COORD_LIMIT
    } else {
        v
    }
}

/// A rectangle-corner write saturated to `[-2 * COORD_LIMIT, 2 * COORD_LIMIT]`.
pub fn sat_wide_coord(v: i64) -> (r: i64)
    ensures
        r == sat_wide(v as int),
{
    if v > 2 * COORD_LIMIT {
        2 * COORD_LIMIT
    } else if v < -2 * COORD_LIMIT {
        -2 * COORD_LIMIT
    } else {
        v
    }
}

/// The executable form of [`round_px`].
pub fn round_to_px(v: i64) -> (r: i64)
    requires
        -8_000_000_000_000 <= v <= 8_000_000_000_000,
    ensures
        r == round_px(v as int),
        -8_000_000_001 <= r <= 8_000_000_001,
{
    proof {
        vstd::arithmetic::div_mod::lemma_div_multiples_vanish_fancy(
            8_000_000_000,
            500,
            SCALE as int,
        );
        if v >= 0 {
            vstd::arithmetic::div_mod::lemma_div_is_ordered(v + 500, 8_000_000_000_500, SCALE as int);
            vstd::arithmetic::div_mod::lemma_div_pos_is_pos(v + 500, SCALE as int);
        } else {
            vstd::arithmetic::div_mod::lemma_div_is_ordered((-v) + 500, 8_000_000_000_500, SCALE as int);
            vstd::arithmetic::div_mod::lemma_div_pos_is_pos((-v) + 500, SCALE as int);
        }
    }
    if v >= 0 {
        (v + 500) / SCALE
    } else {
        -(((-v) + 500) / SCALE)
    }
}

} // verus!
