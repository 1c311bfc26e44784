//! The seeded obstacle generator. At each forward depth it either places a
//! single moving obstacle or rolls each of the four lanes for a static one,
//! until the level's obstacle count is reached.
use vstd::prelude::*;
use crate::geometry::Point;
use crate::obstacles::{Obstacle, Position, COORD_LIMIT, salt_of, within};

verus! {

/// Obstacles on level 0; each level adds one.
pub const BASE_COUNT: u64 = 15;

/// Forward depth of the first row, in millimetres.
pub const FIRST_DEPTH: i64 = 3000;

/// Distance between rows, in millimetres.
pub const ROW_SPACING: i64 = 1000;

/// Number of lanes.
pub const LANES: u8 = 4;

/// Lateral coordinate where moving obstacles start, in millimetres.
pub const MOVING_START: i64 = -1500;

/// Draws made at most by `generate_obstacles` before it gives up.
pub const MAX_DRAWS: u64 = 1_099_511_627_776;

/// Draws are uniform over `0..ROLL_RANGE`.
pub const ROLL_RANGE: u32 = 99;

/// Which draw the generator expects next.
#[derive(Clone, Copy, Debug, PartialEq, Eq, Structural)]
pub enum Stage {
    /// Whether this row holds a moving obstacle.
    Moving,
    /// The direction of the moving obstacle of this row.
    Direction,
    /// Whether lane `index` of this row holds a static obstacle.
    Lane { index: u8 },
}

/// The generator's state as a mathematical value.
pub struct Layout {
    pub obstacles: Seq<Obstacle>,
    pub depth: int,
    pub stage: Stage,
}

/// Number of obstacles on a level.
pub open spec fn obstacle_count(level: int) -> int {
    BASE_COUNT + level
}

/// Percentage chance that a row holds a moving obstacle.
pub open spec fn moving_chance(level: int) -> int {
    if 2 * level < 90 {
        2 * level
    } else {
        90
    }
}

/// Percentage chance that a lane of a row holds a static obstacle.
pub open spec fn static_chance(level: int) -> int {
    if 15 + level < 80 {
        15 + level
    } else {
        80
    }
}

/// Lateral coordinate of a lane, in millimetres: -1500, -500, 500, 1500.
pub open spec fn lane_offset(index: int) -> int {
    index * 1000 - 1500
}

pub open spec fn initial_layout() -> Layout {
    Layout { obstacles: Seq::empty(), depth: FIRST_DEPTH as int, stage: Stage::Moving }
}

pub open spec fn static_at(depth: int, z: int) -> Obstacle {
    Obstacle { alive: true, position: Position::Static { pos: Point { x: depth as i64, y: 0, z: z as i64 } } }
}

pub open spec fn moving_at(depth: int, moving_right: bool) -> Obstacle {
    Obstacle {
        alive: true,
        position: Position::Moving {
            initial_pos: Point { x: depth as i64, y: 0, z: MOVING_START },
            salt: salt_of(depth, 0, MOVING_START as int) as i64,
            moving_right,
        },
    }
}

/// The generator's state after one more draw `roll`.
pub open spec fn next_layout(level: int, l: Layout, roll: int) -> Layout {
    match l.stage {
        Stage::Moving => if roll < moving_chance(level) {
            Layout { obstacles: l.obstacles, depth: l.depth, stage: Stage::Direction }
        } else {
            Layout { obstacles: l.obstacles, depth: l.depth, stage: Stage::Lane { index: 0 } }
        },
        Stage::Direction => Layout {
            obstacles: l.obstacles.push(moving_at(l.depth, roll < 50)),
            depth: l.depth + ROW_SPACING,
            stage: Stage::Moving,
        },
        Stage::Lane { index } => {
            let obstacles = if roll < static_chance(level) {
                l.obstacles.push(static_at(l.depth, lane_offset(index as int)))
            } else {
                l.obstacles
            };
            if index + 1 >= LANES {
                Layout { obstacles, depth: l.depth + ROW_SPACING, stage: Stage::Moving }
            } else {
                Layout { obstacles, depth: l.depth, stage: Stage::Lane { index: (index + 1) as u8 } }
            }
        },
    }
}

/// The generator's state after the draws `rolls`, taken in order; draws
/// that come once the level's count is reached change nothing.
pub open spec fn layout_after(level: int, rolls: Seq<u32>) -> Layout
    decreases rolls.len(),
{
    if rolls.len() == 0 {
        initial_layout()
    } else {
        let before = layout_after(level, rolls.drop_last());
        if before.obstacles.len() >= obstacle_count(level) {
            before
        } else {
            next_layout(level, before, rolls.last() as int)
        }
    }
}

/// Forward depth of an obstacle.
pub open spec fn depth_of(o: Obstacle) -> int {
    match o.position {
        Position::Static { pos } => pos.x as int,
        Position::Moving { initial_pos, .. } => initial_pos.x as int,
    }
}

/// An obstacle as the generator places it: alive, on the floor, at a lane
/// (static) or at the start of its sweep (moving).
pub open spec fn generated_shape(o: Obstacle) -> bool {
    &&& o.alive
    &&& o.wf()
    &&& match o.position {
        Position::Static { pos } => within(pos, COORD_LIMIT as int) && pos.y == 0 && exists|i: int|
            0 <= i < LANES && pos.z == lane_offset(i),
        Position::Moving { initial_pos, .. } => initial_pos.y == 0 && initial_pos.z == MOVING_START,
    }
}

/// A sequence of generated obstacles: each at depth at least `FIRST_DEPTH`
/// and at most `depth`, in non-decreasing depth order.
pub open spec fn well_laid(obstacles: Seq<Obstacle>, depth: int) -> bool {
    &&& forall|i: int| 0 <= i < obstacles.len() ==> generated_shape(#[trigger] obstacles[i])
    &&& forall|i: int|
        0 <= i < obstacles.len() ==> FIRST_DEPTH <= depth_of(#[trigger] obstacles[i]) <= depth
    &&& forall|i: int, j: int|
        0 <= i <= j < obstacles.len() ==> depth_of(#[trigger] obstacles[i]) <= depth_of(
            #[trigger] obstacles[j],
        )
}

pub open spec fn layout_ok(l: Layout) -> bool {
    &&& FIRST_DEPTH <= l.depth
    &&& well_laid(l.obstacles, l.depth)
    &&& match l.stage {
        Stage::Lane { index } => index < LANES,
        _ => true,
    }
}

/// The generator's state; `feed` advances it by one draw.
pub struct ObstacleGenerator {
    pub level: u32,
    pub depth: i64,
    pub stage: Stage,
    pub obstacles: Vec<Obstacle>,
}

impl ObstacleGenerator {
    pub open spec fn layout(&self) -> Layout {
        Layout { obstacles: self.obstacles@, depth: self.depth as int, stage: self.stage }
    }

    pub fn new(level: u32) -> (r: ObstacleGenerator)
        ensures
            r.level == level,
            r.layout() == initial_layout(),
            layout_ok(r.layout()),
    {
        ObstacleGenerator { level, depth: FIRST_DEPTH, stage: Stage::Moving, obstacles: Vec::new() }
    }

    /// Whether the level's obstacle count is reached.
    pub fn is_complete(&self) -> (r: bool)
        ensures
            r == (self.obstacles.len() >= obstacle_count(self.level as int)),
    {
        self.obstacles.len() as u64 >= BASE_COUNT + self.level as u64
    }

    /// Advances the generator by one draw `roll`, uniform over `0..ROLL_RANGE`.
    pub fn feed(&mut self, roll: u32)
        requires
            layout_ok(old(self).layout()),
            old(self).depth + ROW_SPACING <= COORD_LIMIT,
        ensures
            final(self).level == old(self).level,
            final(self).layout() == next_layout(old(self).level as int, old(self).layout(), roll as int),
            layout_ok(final(self).layout()),
            final(self).depth <= old(self).depth + ROW_SPACING,
            final(self).obstacles.len() <= old(self).obstacles.len() + 1,
    {
        let level = self.level as u64;
        let ghost before = self.obstacles@;
        match self.stage {
            Stage::Moving => {
                let chance: u64 = if 2 * level < 90 {
                    2 * level
                } else {
                    90
                };
                if (roll as u64) < chance {
                    self.stage = Stage::Direction;
                } else {
                    self.stage = Stage::Lane { index: 0 };
                }
            },
            Stage::Direction => {
                let o = Obstacle::new_moving(self.depth, 0, MOVING_START, roll < 50);
                self.obstacles.push(o);
                self.depth = self.depth + ROW_SPACING;
                self.stage = Stage::Moving;
                assert(self.obstacles@ == before.push(o));
                assert(generated_shape(o));
            },
            Stage::Lane { index } => {
                let chance: u64 = if 15 + level < 80 {
                    15 + level
                } else {
                    80
                };
                if (roll as u64) < chance {
                    let z: i64 = index as i64 * 1000 - 1500;
                    let o = Obstacle::new(self.depth, 0, z);
                    self.obstacles.push(o);
                    assert(self.obstacles@ == before.push(o));
                    assert(generated_shape(o)) by {
                        assert(0 <= index as int && index < LANES && o.position->pos.z
                            == lane_offset(index as int));
                    }
                }
                if index + 1 >= LANES {
                    self.depth = self.depth + ROW_SPACING;
                    self.stage = Stage::Moving;
                } else {
                    self.stage = Stage::Lane { index: index + 1 };
                }
            },
        }
    }
}

/// `obstacles` is what the generator builds on `level` from some sequence of
/// at most `MAX_DRAWS` draws below `ROLL_RANGE`, and holds the level's full
/// count unless all those draws were made.
pub open spec fn drawn_layout(level: int, obstacles: Seq<Obstacle>) -> bool {
    exists|rolls: Seq<u32>|
        {
            &&& rolls.len() <= MAX_DRAWS
            &&& forall|i: int| 0 <= i < rolls.len() ==> #[trigger] rolls[i] < ROLL_RANGE
            &&& obstacles == layout_after(level, rolls).obstacles
            &&& (obstacles.len() == obstacle_count(level) || rolls.len() == MAX_DRAWS)
        }
}

/// Relies on macroquad::rand::srand (quad_rand): reseeds the process-wide
/// pseudo-random generator that `percentage_roll` draws from.
#[verifier::external_body]
fn reseed(seed: u64) {
    macroquad::rand::srand(seed)
}

/// Relies on macroquad::rand::gen_range (quad_rand) over `u32` from 0 to 99:
/// it scales a 32-bit draw by 99 / 2^32 and rounds down, so the value is
/// below 99.
#[verifier::external_body]
fn percentage_roll() -> (r: u32)
    ensures
        r < ROLL_RANGE,
{
    macroquad::rand::gen_range(0u32, 99u32)
}

/// Lays out the obstacles of `level` from the pseudo-random stream seeded
/// with `seed`. The result is what the generator builds from the draws it
/// made; it holds the level's full count unless `MAX_DRAWS` draws were not
/// enough, and is laid out by non-decreasing depth from `FIRST_DEPTH` on.
pub fn generate_obstacles(level: u32, seed: u64) -> (r: Vec<Obstacle>)
    ensures
        drawn_layout(level as int, r@),
        r.len() <= obstacle_count(level as int),
        well_laid(r@, FIRST_DEPTH + ROW_SPACING * MAX_DRAWS),
{
    reseed(seed);
    let mut generator = ObstacleGenerator::new(level);
    let mut drawn: u64 = 0;
    let ghost mut rolls: Seq<u32> = Seq::empty();
    while !generator.is_complete() && drawn < MAX_DRAWS
        invariant
            generator.level == level,
            generator.layout() == layout_after(level as int, rolls),
            layout_ok(generator.layout()),
            rolls.len() == drawn,
            drawn <= MAX_DRAWS,
            forall|i: int| 0 <= i < rolls.len() ==> #[trigger] rolls[i] < ROLL_RANGE,
            generator.depth <= FIRST_DEPTH + ROW_SPACING * drawn,
            generator.obstacles.len() <= obstacle_count(level as int),
        decreases MAX_DRAWS - drawn,
    {
        let roll = percentage_roll();
        proof {
            let previous = rolls;
            rolls = rolls.push(roll);
            assert(rolls.drop_last() == previous);
        }
        generator.feed(roll);
        drawn = drawn + 1;
    }
    proof {
        let obstacles = generator.obstacles@;
        assert forall|i: int| 0 <= i < obstacles.len() implies FIRST_DEPTH <= depth_of(
            #[trigger] obstacles[i],
        ) <= FIRST_DEPTH + ROW_SPACING * MAX_DRAWS by {}
        assert(obstacles == layout_after(level as int, rolls).obstacles);
    }
    generator.obstacles
}

} // verus!
