//! Fixed-point geometry: coordinates, the game's dimensional constants,
//! clamping, and the axis-aligned overlap test used for paddle contact.
//!
//! Every coordinate is an `i64` count of millipixels (thousandths of a
//! pixel), so that the per-tick motion of paddles and ball is exact
//! integer arithmetic.

use vstd::prelude::*;

verus! {

/// Millipixels per pixel: the fixed-point scale of every coordinate.
pub const MPX_PER_PX: i64 = 1000;

/// Paddle width, in millipixels (20 pixels).
pub const PADDLE_W_MPX: i64 = 20_000;

/// Paddle height, in millipixels (100 pixels).
pub const PADDLE_H_MPX: i64 = 100_000;

/// Half the paddle width.
pub const PADDLE_HALF_W_MPX: i64 = 10_000;

/// Half the paddle height.
pub const PADDLE_HALF_H_MPX: i64 = 50_000;

/// Ball bounding-box side, in millipixels (30 pixels).
pub const BALL_SIZE_MPX: i64 = 30_000;

/// Half the ball size: the distance from the ball's centre to its edge.
pub const BALL_HALF_MPX: i64 = 15_000;

/// Paddle speed, in pixels per second.
pub const PLAYER_SPEED_PX: i64 = 600;

/// Nominal ball speed, in pixels per second, applied to the unit
/// direction vector.
pub const BALL_SPEED_PX: i64 = 10;

/// Simulation ticks per second.
pub const TICKS_PER_S: u64 = 60;

/// Length of one simulation tick, in microseconds (1/60 s, rounded).
pub const TICK_MICROS: u64 = 16_667;

/// Vertical distance a paddle moves in one tick while its key is held:
/// `PLAYER_SPEED_PX / TICKS_PER_S` pixels, in millipixels.
pub const PADDLE_STEP_MPX: i64 = 10_000;

/// A unit diagonal's component in thousandths of a unit:
/// `1/sqrt(2)` rounded to three decimals.
pub const DIAG_MILLI: i64 = 707;

/// Distance the ball moves along each axis in one tick:
/// `(DIAG_MILLI / 1000) * BALL_SPEED_PX / TICKS_PER_S` pixels,
/// truncated to whole millipixels.
pub const BALL_STEP_MPX: i64 = 117;

/// Largest screen dimension accepted, in millipixels (a million pixels).
pub const MAX_DIM_MPX: i64 = 1_000_000_000;

/// Bound on every coordinate a well-formed state may hold; wide enough
/// that one tick of motion can never overflow an `i64`.
pub const MAX_COORD_MPX: i64 = 2_000_000_000;

/// A point or vector in millipixel coordinates. `x` grows rightward,
/// `y` grows downward, as on the screen.
#[derive(Clone, Copy, Debug, PartialEq, Eq, Structural)]
pub struct Vec2 {
    pub x: i64,
    pub y: i64,
}

/// `v` lies within the coordinate range every state keeps.
pub open spec fn in_coord_range(v: int) -> bool {
    -(MAX_COORD_MPX as int) <= v <= MAX_COORD_MPX as int
}

/// Both coordinates of `p` lie within the coordinate range.
pub open spec fn vec_in_range(p: Vec2) -> bool {
    in_coord_range(p.x as int) && in_coord_range(p.y as int)
}

/// Clamp of `v` into `[lo, hi]`.
pub open spec fn spec_clamp(v: int, lo: int, hi: int) -> int {
    if v < lo {
        lo
    } else if v > hi {
        hi
    } else {
        v
    }
}

/// Absolute value.
pub open spec fn spec_abs(v: int) -> int {
    if v < 0 {
        -v
    } else {
        v
    }
}

/// The ball's box (centre `(bx, by)`, half-size `BALL_HALF_MPX`) and a
/// paddle's box (centre `(px, py)`, half-sizes `PADDLE_HALF_W_MPX` and
/// `PADDLE_HALF_H_MPX`) overlap with positive area.
pub open spec fn spec_overlap(bx: int, by: int, px: int, py: int) -> bool {
    &&& spec_abs(bx - px) < BALL_HALF_MPX as int + PADDLE_HALF_W_MPX as int
    &&& spec_abs(by - py) < BALL_HALF_MPX as int + PADDLE_HALF_H_MPX as int
}

/// Clamp `v` into `[lo, hi]`.
pub fn clamp_mpx(v: i64, lo: i64, hi: i64) -> (r: i64)
    requires
        lo <= hi,
    ensures
        r as int == spec_clamp(v as int, lo as int, hi as int),
        lo <= r <= hi,
{
    if v < lo {
        lo
    } else if v > hi {
        hi
    } else {
        v
    }
}

/// Clamping a second time onto the same range changes nothing: one
/// application already lands in `[lo, hi]`, where the clamp is the
/// identity.
pub proof fn lemma_clamp_idempotent(v: int, lo: int, hi: int)
    requires
        lo <= hi,
    ensures
        spec_clamp(spec_clamp(v, lo, hi), lo, hi) == spec_clamp(v, lo, hi),
{
}

/// Axis-aligned overlap between the ball's box centred at `ball` and a
/// paddle's box centred at `paddle`.
pub fn boxes_overlap(ball: Vec2, paddle: Vec2) -> (r: bool)
    requires
        vec_in_range(ball),
        vec_in_range(paddle),
    ensures
        r == spec_overlap(ball.x as int, ball.y as int, paddle.x as int, paddle.y as int),
{
    let dx = if ball.x >= paddle.x {
        ball.x - paddle.x
    } else {
        paddle.x - ball.x
    };
    let dy = if ball.y >= paddle.y {
        ball.y - paddle.y
    } else {
        paddle.y - ball.y
    };
    dx < BALL_HALF_MPX + PADDLE_HALF_W_MPX && dy < BALL_HALF_MPX + PADDLE_HALF_H_MPX
}

/// Half of a non-negative coordinate, truncated.
pub fn half_of(v: i64) -> (r: i64)
    requires
        0 <= v,
    ensures
        r as int == v as int / 2,
{
    ((v as u64) / 2) as i64
}

} // verus!
