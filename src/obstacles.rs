//! Obstacles: static ones and ones that sweep across the tunnel, and the
//! seeded generator that lays them out along the forward axis.
use vstd::prelude::*;
use crate::geometry::Point;

verus! {

/// Length of the sweep of a moving obstacle, in millimetres.
pub const PATH_LENGTH: i64 = 6000;

/// Speed of a moving obstacle, in millimetres per millisecond.
pub const OBSTACLE_SPEED: u64 = 3;

/// Largest magnitude of a coordinate given to an obstacle constructor.
pub const COORD_LIMIT: i64 = 36_028_797_018_963_968;

/// A multiple of `PATH_LENGTH` that makes any sum of three coordinates
/// within `COORD_LIMIT` non-negative.
const PHASE_SHIFT: i64 = 211_106_232_532_992_000;

/// How an obstacle's position depends on time.
#[derive(Clone, Copy, Debug, PartialEq, Eq, Structural)]
pub enum Position {
    Static { pos: Point },
    /// Sweeps laterally from `initial_pos`; `salt` is the phase offset in
    /// millimetres along the sweep.
    Moving { initial_pos: Point, salt: i64, moving_right: bool },
}

#[derive(Clone, Copy, Debug, PartialEq, Eq, Structural)]
pub struct Obstacle {
    pub alive: bool,
    pub position: Position,
}

/// Display hint for an obstacle.
#[derive(Clone, Copy, Debug, PartialEq, Eq, Structural)]
pub enum ObstacleColor {
    Orange,
    Brown,
}

pub open spec fn within(p: Point, limit: int) -> bool {
    -limit <= p.x <= limit && -limit <= p.y <= limit && -limit <= p.z <= limit
}

/// Phase offset of a moving obstacle spawned at `(x, y, z)`.
pub open spec fn salt_of(x: int, y: int, z: int) -> int {
    (x + y + z) % (PATH_LENGTH as int)
}

/// Offset along the sweep at time `ts`.
pub open spec fn phase(ts: int, salt: int) -> int {
    (ts * OBSTACLE_SPEED + salt) % (PATH_LENGTH as int)
}

/// Where an obstacle is at time `ts`.
pub open spec fn position_at(o: Obstacle, ts: int) -> Point {
    match o.position {
        Position::Static { pos } => pos,
        Position::Moving { initial_pos, salt, moving_right } => {
            let offset = phase(ts, salt as int);
            let z = if moving_right {
                initial_pos.z + offset
            } else {
                initial_pos.z + PATH_LENGTH - offset
            };
            Point { x: initial_pos.x, y: initial_pos.y, z: z as i64 }
        },
    }
}

impl Obstacle {
    /// Coordinates small enough for every computation on the obstacle.
    pub open spec fn wf(&self) -> bool {
        match self.position {
            Position::Static { pos } => within(pos, 2 * COORD_LIMIT),
            Position::Moving { initial_pos, salt, .. } => within(initial_pos, COORD_LIMIT as int)
                && 0 <= salt < PATH_LENGTH,
        }
    }

    /// A live obstacle standing still at `(x, y, z)`.
    pub fn new(x: i64, y: i64, z: i64) -> (r: Obstacle)
        requires
            within(Point { x, y, z }, COORD_LIMIT as int),
        ensures
            r == (Obstacle { alive: true, position: Position::Static { pos: Point { x, y, z } } }),
            r.wf(),
    {
        Obstacle { alive: true, position: Position::Static { pos: Point::new(x, y, z) } }
    }

    /// A live obstacle sweeping laterally from `(x, y, z)`, phase-shifted by
    /// its own coordinates.
    pub fn new_moving(x: i64, y: i64, z: i64, moving_right: bool) -> (r: Obstacle)
        requires
            within(Point { x, y, z }, COORD_LIMIT as int),
        ensures
            r == (Obstacle {
                alive: true,
                position: Position::Moving {
                    initial_pos: Point { x, y, z },
                    salt: salt_of(x as int, y as int, z as int) as i64,
                    moving_right,
                },
            }),
            r.wf(),
    {
        let shifted: i64 = x + y + z + PHASE_SHIFT;
        let salt = (shifted as u64 % PATH_LENGTH as u64) as i64;
        proof {
            let k = PHASE_SHIFT / PATH_LENGTH;
            assert(PHASE_SHIFT == PATH_LENGTH * k);
            vstd::arithmetic::div_mod::lemma_mod_multiples_vanish(
                k as int,
                x + y + z,
                PATH_LENGTH as int,
            );
        }
        Obstacle {
            alive: true,
            position: Position::Moving { initial_pos: Point::new(x, y, z), salt, moving_right },
        }
    }

    /// Where the obstacle is at time `ts` (milliseconds).
    pub fn get_pos(&self, ts: u64) -> (r: Point)
        requires
            self.wf(),
        ensures
            r == position_at(*self, ts as int),
            within(r, 2 * COORD_LIMIT),
    {
        match self.position {
            Position::Static { pos } => pos,
            Position::Moving { initial_pos, salt, moving_right } => {
                let cycle: u64 = (PATH_LENGTH as u64) / OBSTACLE_SPEED;
                let offset: u64 = ((ts % cycle) * OBSTACLE_SPEED + salt as u64) % (
                PATH_LENGTH as u64);
                proof {
                    let q = ts as int / 2000;
                    let r = ts as int % 2000;
                    assert(ts == 2000 * q + r);
                    assert(ts * 3 + salt == 6000 * q + (r * 3 + salt));
                    vstd::arithmetic::div_mod::lemma_mod_multiples_vanish(
                        q,
                        r * 3 + salt,
                        6000,
                    );
                }
                let z = if moving_right {
                    initial_pos.z + offset as i64
                } else {
                    initial_pos.z + PATH_LENGTH - offset as i64
                };
                Point::new(initial_pos.x, initial_pos.y, z)
            },
        }
    }

    /// Orange while alive, brown once killed.
    pub fn get_color(&self) -> (r: ObstacleColor)
        ensures
            r == (if self.alive {
                ObstacleColor::Orange
            } else {
                ObstacleColor::Brown
            }),
    {
        if self.alive {
            ObstacleColor::Orange
        } else {
            ObstacleColor::Brown
        }
    }

    /// Kills the obstacle at time `ts`: it stops where it stands.
    pub fn kill(&mut self, ts: u64)
        requires
            old(self).wf(),
        ensures
            !final(self).alive,
            final(self).position == (Position::Static { pos: position_at(*old(self), ts as int) }),
            final(self).wf(),
    {
        let pos = self.get_pos(ts);
        self.alive = false;
        self.position = Position::Static { pos };
    }

    pub fn is_alive(&self) -> (r: bool)
        ensures
            r == self.alive,
    {
        self.alive
    }
}

/// Killing an obstacle twice, at any two times, leaves it where the first
/// kill stopped it.
pub proof fn kill_is_idempotent(o: Obstacle, first: int, second: int)
    ensures
        ({
            let once = Obstacle {
                alive: false,
                position: Position::Static { pos: position_at(o, first) },
            };
            let twice = Obstacle {
                alive: false,
                position: Position::Static { pos: position_at(once, second) },
            };
            twice == once
        }),
{
}

} // verus!
