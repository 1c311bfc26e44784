//! The player's motion: horizontal steps from movement commands and the
//! closed-form jump arc shared by the player and the trail particles.
use vstd::prelude::*;
use crate::commands::Movement;

verus! {

/// Horizontal speed on one axis, in millimetres per millisecond.
pub const SPEED: u64 = 10;

/// Speed on each axis when moving diagonally, in thousandths of a
/// millimetre per millisecond: `SPEED` divided by the square root of two.
pub const DIAGONAL_SPEED_MILLI: u64 = 7071;

/// Half the width of the tunnel, in millimetres: the lateral coordinate
/// stays within plus or minus this.
pub const TUNNEL_HALF_WIDTH: i64 = 1500;

/// How long a jump lasts, in milliseconds.
pub const JUMP_DURATION: u64 = 300;

/// Height at the top of a jump, in millimetres.
pub const JUMP_HEIGHT: u64 = 1500;

/// Largest duration and apex that `arc_height` takes.
pub const ARC_LIMIT: u64 = 1_000_000;

/// Height after `age` of an arc lasting `duration` with apex `apex`:
/// `apex - k * (age - duration / 2)^2` with `k = apex / (duration / 2)^2`,
/// written over a common denominator and rounded down.
pub open spec fn arc(age: int, duration: int, apex: int) -> int {
    (apex * (4 * age * (duration - age))) / (duration * duration)
}

/// Height of the jump arc at `age` into it.
pub fn arc_height(age: u64, duration: u64, apex: u64) -> (r: u64)
    requires
        0 < duration <= ARC_LIMIT,
        apex <= ARC_LIMIT,
        age <= duration,
    ensures
        r == arc(age as int, duration as int, apex as int),
        r <= apex,
{
    let ghost a = age as int;
    let ghost d = duration as int;
    let ghost h = apex as int;
    assert(0 <= 4 * a * (d - a) <= d * d) by (nonlinear_arith)
        requires
            0 <= a <= d,
    ;
    assert(h * (4 * a * (d - a)) <= h * (d * d)) by (nonlinear_arith)
        requires
            0 <= h,
            4 * a * (d - a) <= d * d,
    ;
    assert(0 < d * d <= 1_000_000 * 1_000_000) by (nonlinear_arith)
        requires
            0 < d <= 1_000_000,
    ;
    assert(h * (d * d) <= 1_000_000 * (1_000_000 * 1_000_000)) by (nonlinear_arith)
        requires
            0 <= h <= 1_000_000,
            0 < d <= 1_000_000,
    ;
    assert(0 <= h * (4 * a * (d - a))) by (nonlinear_arith)
        requires
            0 <= h,
            0 <= 4 * a * (d - a),
    ;
    let spread: u64 = 4 * age * (duration - age);
    let numerator: u64 = apex * spread;
    let square: u64 = duration * duration;
    let r = numerator / square;
    assert(r <= h) by (nonlinear_arith)
        requires
            r == (h * (4 * a * (d - a))) / (d * d),
            h * (4 * a * (d - a)) <= h * (d * d),
            0 < d * d,
    ;
    r
}

/// The jump arc starts and ends on the ground and reaches its apex halfway,
/// for every even duration (the midpoint is then a whole number of steps)
/// and every apex height.
pub proof fn jump_arc_symmetry(duration: int, apex: int)
    requires
        duration > 0,
        duration % 2 == 0,
        apex >= 0,
    ensures
        arc(0, duration, apex) == 0,
        arc(duration, duration, apex) == 0,
        arc(duration / 2, duration, apex) == apex,
{
    let d = duration;
    let m = d / 2;
    assert(d == 2 * m);
    assert(4 * m * (d - m) == d * d) by (nonlinear_arith)
        requires
            d == 2 * m,
    ;
    assert(apex * (d * d) / (d * d) == apex) by (nonlinear_arith)
        requires
            d > 0,
    ;
    assert(4 * 0 * (d - 0) == 0) by (nonlinear_arith);
    assert(4 * d * (d - d) == 0) by (nonlinear_arith);
    assert(apex * 0 == 0) by (nonlinear_arith);
    assert(0int / (d * d) == 0) by (nonlinear_arith)
        requires
            d > 0,
    ;
}

/// Distance covered on one axis in `dt` milliseconds, slowed by the square
/// root of two on a diagonal.
pub open spec fn axis_step(dt: int, diagonal: bool) -> int {
    if diagonal {
        dt * DIAGONAL_SPEED_MILLI / 1000
    } else {
        dt * SPEED
    }
}

/// A step signed by the direction of a movement command.
pub open spec fn signed_step(m: Movement, step: int) -> int {
    match m {
        Movement::Neutral => 0,
        Movement::Positive => step,
        Movement::Negative => -step,
    }
}

/// Forward and lateral displacement for one frame of `dt` milliseconds.
/// Pushing left moves toward negative lateral coordinates.
pub open spec fn displacement(forward: Movement, left: Movement, dt: int) -> (int, int) {
    let diagonal = forward != Movement::Neutral && left != Movement::Neutral;
    let step = axis_step(dt, diagonal);
    (signed_step(forward, step), -signed_step(left, step))
}

/// Largest frame length that `frame_displacement` takes.
pub const MAX_FRAME: u64 = 1_125_899_906_842_624;

/// Forward and lateral displacement for one frame of `dt` milliseconds.
pub fn frame_displacement(forward: Movement, left: Movement, dt: u64) -> (r: (i64, i64))
    requires
        dt <= MAX_FRAME,
    ensures
        (r.0 as int, r.1 as int) == displacement(forward, left, dt as int),
        -(SPEED * dt) <= r.0 <= SPEED * dt,
        -(SPEED * dt) <= r.1 <= SPEED * dt,
{
    let diagonal = forward != Movement::Neutral && left != Movement::Neutral;
    let step: u64 = if diagonal {
        dt * DIAGONAL_SPEED_MILLI / 1000
    } else {
        dt * SPEED
    };
    assert(step <= dt * SPEED) by (nonlinear_arith)
        requires
            step == dt * 7071 / 1000 || step == dt * 10,
            dt >= 0,
    ;
    let dx: i64 = match forward {
        Movement::Neutral => 0,
        Movement::Positive => step as i64,
        Movement::Negative => -(step as i64),
    };
    let dz: i64 = match left {
        Movement::Neutral => 0,
        Movement::Positive => -(step as i64),
        Movement::Negative => step as i64,
    };
    (dx, dz)
}

/// Where a coordinate ends after a step: the forward coordinate never goes
/// below the start line.
pub open spec fn forward_after(x: int, dx: int) -> int {
    if x + dx < 0 {
        0
    } else {
        x + dx
    }
}

/// Where the lateral coordinate ends after a step: inside the tunnel.
pub open spec fn lateral_after(z: int, dz: int) -> int {
    if z + dz < -TUNNEL_HALF_WIDTH {
        -TUNNEL_HALF_WIDTH as int
    } else if z + dz > TUNNEL_HALF_WIDTH {
        TUNNEL_HALF_WIDTH as int
    } else {
        z + dz
    }
}

/// The lateral coordinate never leaves the tunnel, and a push that would
/// carry the player past a wall leaves it exactly at that wall.
pub proof fn lane_clamp(z: int, dz: int)
    ensures
        -TUNNEL_HALF_WIDTH <= lateral_after(z, dz) <= TUNNEL_HALF_WIDTH,
        z + dz >= TUNNEL_HALF_WIDTH ==> lateral_after(z, dz) == TUNNEL_HALF_WIDTH,
        z + dz <= -TUNNEL_HALF_WIDTH ==> lateral_after(z, dz) == -TUNNEL_HALF_WIDTH,
{
}

} // verus!
