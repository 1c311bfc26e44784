//! Points in the game's 3D space and the player/obstacle contact test.
use vstd::prelude::*;

verus! {

/// Radius of an obstacle, in millimetres.
pub const OBSTACLE_RADIUS: i64 = 400;

/// Radius of the player, in millimetres.
pub const PLAYER_RADIUS: i64 = 500;

/// Distance below which the player touches an obstacle, in millimetres.
pub const CONTACT_DISTANCE: i64 = OBSTACLE_RADIUS + PLAYER_RADIUS;

/// A point: `x` is the forward axis, `y` the height, `z` the lateral axis.
#[derive(Clone, Copy, Debug, PartialEq, Eq, Structural)]
pub struct Point {
    pub x: i64,
    pub y: i64,
    pub z: i64,
}

impl Point {
    pub fn new(x: i64, y: i64, z: i64) -> (r: Point)
        ensures
            r == (Point { x, y, z }),
    {
        Point { x, y, z }
    }
}

/// Squared Euclidean distance between two points.
pub open spec fn squared_distance(p: Point, q: Point) -> int {
    (p.x - q.x) * (p.x - q.x) + (p.y - q.y) * (p.y - q.y) + (p.z - q.z) * (p.z - q.z)
}

/// The player at `p` touches an obstacle at `q`.
pub open spec fn touches(p: Point, q: Point) -> bool {
    squared_distance(p, q) < CONTACT_DISTANCE * CONTACT_DISTANCE
}

proof fn lemma_square_at_least(d: int, r: int)
    requires
        0 <= r,
        d >= r || d <= -r,
    ensures
        d * d >= r * r,
{
    assert(d * d >= r * r) by (nonlinear_arith)
        requires
            0 <= r,
            d >= r || d <= -r,
    ;
}

/// Absolute difference of two coordinates, when it is below the contact
/// distance; `None` otherwise.
fn close_difference(a: i64, b: i64) -> (r: Option<i64>)
    ensures
        r.is_some() <==> -CONTACT_DISTANCE < a - b < CONTACT_DISTANCE,
        r.is_some() ==> r.unwrap() == a - b,
{
    let d: i128 = a as i128 - b as i128;
    if -(CONTACT_DISTANCE as i128) < d && d < CONTACT_DISTANCE as i128 {
        Some(d as i64)
    } else {
        None
    }
}

/// Whether the player standing at `player_pos` touches an obstacle standing
/// at `obstacle_pos`: their squared distance is below the square of the sum
/// of the two radii.
pub fn collides(player_pos: Point, obstacle_pos: Point) -> (r: bool)
    ensures
        r == touches(player_pos, obstacle_pos),
{
    let dx = close_difference(player_pos.x, obstacle_pos.x);
    let dy = close_difference(player_pos.y, obstacle_pos.y);
    let dz = close_difference(player_pos.z, obstacle_pos.z);
    proof {
        let p = player_pos;
        let q = obstacle_pos;
        let c = CONTACT_DISTANCE as int;
        assert(0 <= (p.x - q.x) * (p.x - q.x)) by (nonlinear_arith);
        assert(0 <= (p.y - q.y) * (p.y - q.y)) by (nonlinear_arith);
        assert(0 <= (p.z - q.z) * (p.z - q.z)) by (nonlinear_arith);
        if dx.is_none() {
            lemma_square_at_least(p.x - q.x, c);
        }
        if dy.is_none() {
            lemma_square_at_least(p.y - q.y, c);
        }
        if dz.is_none() {
            lemma_square_at_least(p.z - q.z, c);
        }
    }
    match (dx, dy, dz) {
        (Some(a), Some(b), Some(c)) => {
            assert(a * a < 810000 && b * b < 810000 && c * c < 810000) by (nonlinear_arith)
                requires
                    -900 < a < 900,
                    -900 < b < 900,
                    -900 < c < 900,
            ;
            a * a + b * b + c * c < CONTACT_DISTANCE * CONTACT_DISTANCE
        },
        _ => false,
    }
}

/// A player standing exactly where an obstacle stands touches it, and one
/// farther away than the sum of the two radii does not.
pub proof fn contact_law(p: Point, q: Point)
    ensures
        touches(p, p),
        squared_distance(p, q) > CONTACT_DISTANCE * CONTACT_DISTANCE ==> !touches(p, q),
{
}

} // verus!
