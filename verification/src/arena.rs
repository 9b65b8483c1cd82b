//! The fixed geometry of the playing field, and the units it is measured in.
//!
//! Time is counted in whole units of a tenth of a microsecond, `SECOND` of
//! them to the second. Lengths are whole numbers of a very small unit,
//! chosen so that motion needs no rounding: a body moving at one pixel per
//! second along a direction component of `DIR_ONE` covers exactly `DIR_ONE`
//! units of length in one unit of time.

use vstd::prelude::*;

verus! {

/// The length of a unit direction: a direction component `c` stands for
/// the real number `c / DIR_ONE`.
pub const DIR_ONE: i64 = 16_777_216;

/// The number of time units in one second.
pub const SECOND: u64 = 10_000_000;

/// The number of length units in one pixel: `SECOND` times `DIR_ONE`.
pub const PIXEL: i64 = 167_772_160_000_000;

/// Distance between a paddle's centre line and the wall behind it.
pub const GAP_BETWEEN_PADDLE_WALL: i64 = 30 * PIXEL;

/// Width of a paddle.
pub const PADDLE_SCALE_X: i64 = 20 * PIXEL;

/// Height of a paddle.
pub const PADDLE_SCALE_Y: i64 = 100 * PIXEL;

/// Speed of a paddle, in pixels per second.
pub const PADDLE_SPEED: i64 = 450;

/// Width of the field.
pub const WW: i64 = 1280 * PIXEL;

/// Height of the field.
pub const WH: i64 = 720 * PIXEL;

/// Speed of the ball, in pixels per second.
pub const BALL_SPEED: i64 = 400;

/// Radius of the ball.
pub const BALL_RADIUS: i64 = 10 * PIXEL;

/// The farthest a paddle's centre may be from the middle line.
pub const PADDLE_LIMIT: i64 = 310 * PIXEL;

/// The height, above and below the middle line, at which the ball turns.
pub const WALL_LIMIT: i64 = 355 * PIXEL;

/// The distance from the centre at which the ball has reached a goal.
pub const GOAL_LIMIT: i64 = 630 * PIXEL;

/// The distance of each paddle's centre from the centre of the field.
pub const PADDLE_OFFSET: i64 = 610 * PIXEL;

/// `v`, or the nearer end of `lo..=hi` when `v` lies outside.
pub open spec fn clamp(v: int, lo: int, hi: int) -> int {
    if v <= lo {
        lo
    } else if v >= hi {
        hi
    } else {
        v
    }
}

/// The coordinate nearest to `v` that a position can hold.
pub open spec fn saturate(v: int) -> int {
    clamp(v, i64::MIN as int, i64::MAX as int)
}

/// Brings the result of a wide sum back to a coordinate.
pub fn saturated(v: i128) -> (r: i64)
    ensures
        r == saturate(v as int),
{
    if v <= i64::MIN as i128 {
        i64::MIN
    } else if v >= i64::MAX as i128 {
        i64::MAX
    } else {
        v as i64
    }
}

/// How the four limits follow from the dimensions of the field, the paddles
/// and the ball.
pub proof fn lemma_limits()
    ensures
        PIXEL == SECOND * DIR_ONE,
        PADDLE_LIMIT == WH / 2 - PADDLE_SCALE_Y / 2,
        WALL_LIMIT == WH / 2 - BALL_RADIUS / 2,
        GOAL_LIMIT == WW / 2 - BALL_RADIUS,
        PADDLE_OFFSET == WW / 2 - GAP_BETWEEN_PADDLE_WALL,
{
}

} // verus!
