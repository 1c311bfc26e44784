//! The world: the player, the obstacles, the health and resource meters and
//! the particle trail, advanced one frame at a time.
use vstd::prelude::*;
use crate::commands::{Commands, Movement};
use crate::generator::{drawn_layout, generate_obstacles};
use crate::geometry::{CONTACT_DISTANCE, Point, collides, contact_law, squared_distance, touches};
use crate::kinematics::{
    JUMP_DURATION,
    JUMP_HEIGHT,
    SPEED,
    TUNNEL_HALF_WIDTH,
    arc,
    arc_height,
    displacement,
    forward_after,
    frame_displacement,
    lateral_after,
};
use crate::obstacles::{Obstacle, position_at};

verus! {

/// A full health or resource meter.
pub const FULL: u64 = 1000;

/// The resource meter of a new game.
pub const START_PISS: u64 = 300;

/// Resource spent per frame while it is being used.
pub const PISS_PER_FRAME: u64 = 10;

/// Resource gained when a level is completed.
pub const PISS_REFILL: u64 = 100;

/// Health lost per millisecond of contact with an obstacle.
pub const PAIN_PER_MS: u64 = 1;

/// Horizontal drift of a trail particle, in millimetres per millisecond.
pub const DRIFT_SPEED: u64 = 10;

/// Latest timestamp the world takes, in milliseconds (about 35 000 years).
pub const MAX_TIMESTAMP: u64 = 1_125_899_906_842_624;

/// How far past the last obstacle the player must run to end a level.
pub const LEVEL_END_MARGIN: i64 = 10_000;

/// A trail particle: where it was spawned, when, and where it is now.
#[derive(Clone, Copy, Debug, PartialEq, Eq, Structural)]
pub struct Particle {
    pub position: Point,
    pub origin: Point,
    pub started: u64,
}

pub struct World {
    pub player_pos: Point,
    /// When the last jump started; `None` before the first jump.
    pub jump_started: Option<u64>,
    pub obstacles: Vec<Obstacle>,
    pub previous_frame_ts: u64,
    pub now_ts: u64,
    pub colliding: bool,
    pub pissing: bool,
    pub health: u64,
    pub piss: u64,
    pub level: u32,
    pub game_start: u64,
    pub game_end: Option<u64>,
    pub piss_particles: Vec<Particle>,
}

/// `a - b`, or zero when `b` is larger.
pub open spec fn saturating_sub(a: int, b: int) -> int {
    if a > b {
        a - b
    } else {
        0
    }
}

/// The time of a frame stamped `ts` after a frame at `now`: timestamps never
/// go back.
pub open spec fn frame_time(now: u64, ts: u64) -> u64 {
    if ts > now {
        ts
    } else {
        now
    }
}

/// A jump started at `started` is still in the air at `ts`.
pub open spec fn in_jump(started: Option<u64>, ts: int) -> bool {
    match started {
        Some(t) => ts - t < JUMP_DURATION,
        None => false,
    }
}

/// Height of the player at `ts` for a jump started at `started`.
pub open spec fn jump_height(started: Option<u64>, ts: int) -> int {
    match started {
        Some(t) => if ts - t < JUMP_DURATION {
            arc(ts - t, JUMP_DURATION as int, JUMP_HEIGHT as int)
        } else {
            0
        },
        None => 0,
    }
}

/// The player at `p` touches one of `obstacles` as they stand at `ts`.
pub open spec fn touches_any(p: Point, obstacles: Seq<Obstacle>, ts: int) -> bool {
    exists|i: int| 0 <= i < obstacles.len() && touches(p, position_at(#[trigger] obstacles[i], ts))
}

/// A particle spawned within the world's reach.
pub open spec fn particle_ok(p: Particle, now: u64) -> bool {
    &&& p.started <= now
    &&& 0 <= p.origin.x <= SPEED * MAX_TIMESTAMP
    &&& 0 <= p.origin.y <= JUMP_HEIGHT
    &&& -TUNNEL_HALF_WIDTH <= p.origin.z <= TUNNEL_HALF_WIDTH
}

/// A particle at `ts`: it follows the jump arc for its age and drifts
/// forward at `DRIFT_SPEED`.
pub open spec fn moved(p: Particle, ts: int) -> Particle {
    let age = ts - p.started;
    Particle {
        position: Point {
            x: (p.origin.x + DRIFT_SPEED * age) as i64,
            y: arc(age, JUMP_DURATION as int, JUMP_HEIGHT as int) as i64,
            z: p.origin.z,
        },
        origin: p.origin,
        started: p.started,
    }
}

/// The trail at `ts`: particles whose arc has ended are gone, the others
/// are moved, in their order.
pub open spec fn trail_at(ps: Seq<Particle>, ts: int) -> Seq<Particle>
    decreases ps.len(),
{
    if ps.len() == 0 {
        Seq::empty()
    } else {
        let rest = trail_at(ps.drop_last(), ts);
        let p = ps.last();
        if ts - p.started < JUMP_DURATION {
            rest.push(moved(p, ts))
        } else {
            rest
        }
    }
}

/// The particle spawned at the player's position at `ts`.
pub open spec fn spawned(pos: Point, ts: u64) -> Particle {
    Particle { position: pos, origin: pos, started: ts }
}

/// Moves every particle of `particles` to time `ts` and drops those whose
/// arc has ended.
fn advance_trail(particles: &Vec<Particle>, ts: u64) -> (r: Vec<Particle>)
    requires
        ts <= MAX_TIMESTAMP,
        forall|i: int| 0 <= i < particles.len() ==> particle_ok(#[trigger] particles[i], ts),
    ensures
        r@ == trail_at(particles@, ts as int),
        forall|i: int| 0 <= i < r.len() ==> particle_ok(#[trigger] r[i], ts),
{
    let mut out: Vec<Particle> = Vec::new();
    let mut i: usize = 0;
    while i < particles.len()
        invariant
            i <= particles.len(),
            ts <= MAX_TIMESTAMP,
            forall|k: int| 0 <= k < particles.len() ==> particle_ok(#[trigger] particles[k], ts),
            out@ == trail_at(particles@.subrange(0, i as int), ts as int),
            forall|k: int| 0 <= k < out.len() ==> particle_ok(#[trigger] out[k], ts),
        decreases particles.len() - i,
    {
        let p = particles[i];
        let age = ts - p.started;
        assert(particles@.subrange(0, i as int + 1).drop_last() == particles@.subrange(0, i as int));
        if age < JUMP_DURATION {
            let height = arc_height(age, JUMP_DURATION, JUMP_HEIGHT);
            let position = Point::new(p.origin.x + (DRIFT_SPEED * age) as i64, height as i64, p.origin.z);
            let q = Particle { position, origin: p.origin, started: p.started };
            out.push(q);
        }
        i = i + 1;
    }
    assert(particles@.subrange(0, particles.len() as int) == particles@);
    out
}

/// Whether the player at `pos` touches one of `obstacles` as they stand at
/// `ts`; the first obstacle found decides.
fn touches_obstacles(pos: Point, obstacles: &Vec<Obstacle>, ts: u64) -> (r: bool)
    requires
        forall|i: int| 0 <= i < obstacles.len() ==> (#[trigger] obstacles[i]).wf(),
    ensures
        r == touches_any(pos, obstacles@, ts as int),
{
    let mut i: usize = 0;
    while i < obstacles.len()
        invariant
            i <= obstacles.len(),
            forall|k: int| 0 <= k < obstacles.len() ==> (#[trigger] obstacles[k]).wf(),
            forall|k: int|
                0 <= k < i ==> !touches(pos, position_at(#[trigger] obstacles[k], ts as int)),
        decreases obstacles.len() - i,
    {
        let obstacle_pos = obstacles[i].get_pos(ts);
        if collides(pos, obstacle_pos) {
            return true;
        }
        i = i + 1;
    }
    false
}

impl World {
    /// The world's invariant: meters within a full meter, the game over
    /// exactly when health is gone, the player inside the tunnel and the
    /// clock going forward.
    pub open spec fn wf(&self) -> bool {
        &&& self.previous_frame_ts <= self.now_ts <= MAX_TIMESTAMP
        &&& self.game_start <= self.now_ts
        &&& self.health <= FULL
        &&& self.piss <= FULL
        &&& (self.game_end.is_some() <==> self.health == 0)
        &&& (self.game_end matches Some(t) ==> self.game_start <= t)
        &&& 0 <= self.player_pos.x <= SPEED * self.now_ts
        &&& 0 <= self.player_pos.y <= JUMP_HEIGHT
        &&& -TUNNEL_HALF_WIDTH <= self.player_pos.z <= TUNNEL_HALF_WIDTH
        &&& (self.jump_started matches Some(t) ==> t <= self.now_ts)
        &&& forall|i: int| 0 <= i < self.obstacles.len() ==> (#[trigger] self.obstacles[i]).wf()
        &&& forall|i: int|
            0 <= i < self.piss_particles.len() ==> particle_ok(
                #[trigger] self.piss_particles[i],
                self.now_ts,
            )
    }

    fn update_time(&mut self, commands: &Commands)
        requires
            old(self).wf(),
        ensures
            final(self).previous_frame_ts == old(self).now_ts,
            final(self).now_ts == frame_time(old(self).now_ts, commands.ts_now),
            final(self).player_pos == old(self).player_pos,
            final(self).jump_started == old(self).jump_started,
            final(self).obstacles == old(self).obstacles,
            final(self).health == old(self).health,
            final(self).piss == old(self).piss,
            final(self).level == old(self).level,
            final(self).game_start == old(self).game_start,
            final(self).game_end == old(self).game_end,
            final(self).piss_particles == old(self).piss_particles,
    {
        self.previous_frame_ts = self.now_ts;
        if commands.ts_now > self.now_ts {
            self.now_ts = commands.ts_now;
        }
    }

    fn update_player_position(&mut self, commands: &Commands)
        requires
            old(self).previous_frame_ts <= old(self).now_ts <= MAX_TIMESTAMP,
            0 <= old(self).player_pos.x <= SPEED * old(self).previous_frame_ts,
            -TUNNEL_HALF_WIDTH <= old(self).player_pos.z <= TUNNEL_HALF_WIDTH,
        ensures
            ({
                let d = displacement(
                    commands.forward_movement,
                    commands.left_movement,
                    old(self).now_ts - old(self).previous_frame_ts,
                );
                &&& final(self).player_pos.x == forward_after(old(self).player_pos.x as int, d.0)
                &&& final(self).player_pos.z == lateral_after(old(self).player_pos.z as int, d.1)
            }),
            final(self).player_pos.y == old(self).player_pos.y,
            0 <= final(self).player_pos.x <= SPEED * old(self).now_ts,
            -TUNNEL_HALF_WIDTH <= final(self).player_pos.z <= TUNNEL_HALF_WIDTH,
            final(self).previous_frame_ts == old(self).previous_frame_ts,
            final(self).now_ts == old(self).now_ts,
            final(self).jump_started == old(self).jump_started,
            final(self).obstacles == old(self).obstacles,
            final(self).health == old(self).health,
            final(self).piss == old(self).piss,
            final(self).level == old(self).level,
            final(self).game_start == old(self).game_start,
            final(self).game_end == old(self).game_end,
            final(self).piss_particles == old(self).piss_particles,
    {
        let dt = self.now_ts - self.previous_frame_ts;
        assert(MAX_TIMESTAMP <= crate::kinematics::MAX_FRAME);
        let (dx, dz) = frame_displacement(commands.forward_movement, commands.left_movement, dt);
        assert(SPEED * self.previous_frame_ts + SPEED * dt == SPEED * self.now_ts);
        let x = self.player_pos.x + dx;
        self.player_pos.x = if x < 0 {
            0
        } else {
            x
        };
        let z = self.player_pos.z + dz;
        self.player_pos.z = if z < -TUNNEL_HALF_WIDTH {
            -TUNNEL_HALF_WIDTH
        } else if z > TUNNEL_HALF_WIDTH {
            TUNNEL_HALF_WIDTH
        } else {
            z
        };
    }

    fn update_jumped(&mut self, commands: &Commands)
        requires
            old(self).jump_started matches Some(t) ==> t <= old(self).now_ts,
        ensures
            final(self).jump_started == (if commands.jump && !in_jump(
                old(self).jump_started,
                old(self).now_ts as int,
            ) {
                Some(old(self).now_ts)
            } else {
                old(self).jump_started
            }),
            final(self).player_pos.y == jump_height(old(self).jump_started, old(self).now_ts as int),
            0 <= final(self).player_pos.y <= JUMP_HEIGHT,
            final(self).player_pos.x == old(self).player_pos.x,
            final(self).player_pos.z == old(self).player_pos.z,
            final(self).previous_frame_ts == old(self).previous_frame_ts,
            final(self).now_ts == old(self).now_ts,
            final(self).obstacles == old(self).obstacles,
            final(self).health == old(self).health,
            final(self).piss == old(self).piss,
            final(self).level == old(self).level,
            final(self).game_start == old(self).game_start,
            final(self).game_end == old(self).game_end,
            final(self).piss_particles == old(self).piss_particles,
    {
        let mut height: u64 = 0;
        let mut jumping = false;
        if let Some(started) = self.jump_started {
            let jump_time = self.now_ts - started;
            if jump_time < JUMP_DURATION {
                jumping = true;
                height = arc_height(jump_time, JUMP_DURATION, JUMP_HEIGHT);
            }
        }
        if commands.jump && !jumping {
            self.jump_started = Some(self.now_ts);
        }
        self.player_pos.y = height as i64;
    }

    fn update_collision(&mut self)
        requires
            forall|i: int| 0 <= i < old(self).obstacles.len() ==> (#[trigger] old(
                self,
            ).obstacles[i]).wf(),
        ensures
            final(self).colliding == touches_any(
                old(self).player_pos,
                old(self).obstacles@,
                old(self).previous_frame_ts as int,
            ),
            final(self).player_pos == old(self).player_pos,
            final(self).jump_started == old(self).jump_started,
            final(self).previous_frame_ts == old(self).previous_frame_ts,
            final(self).now_ts == old(self).now_ts,
            final(self).obstacles == old(self).obstacles,
            final(self).health == old(self).health,
            final(self).piss == old(self).piss,
            final(self).level == old(self).level,
            final(self).game_start == old(self).game_start,
            final(self).game_end == old(self).game_end,
            final(self).piss_particles == old(self).piss_particles,
    {
        self.colliding = touches_obstacles(self.player_pos, &self.obstacles, self.previous_frame_ts);
    }

    fn update_health(&mut self)
        requires
            old(self).previous_frame_ts <= old(self).now_ts,
            0 < old(self).health <= FULL,
            old(self).game_end.is_none(),
        ensures
            final(self).health == (if old(self).colliding {
                saturating_sub(
                    old(self).health as int,
                    PAIN_PER_MS * (old(self).now_ts - old(self).previous_frame_ts),
                )
            } else {
                old(self).health as int
            }),
            final(self).game_end == (if final(self).health == 0 {
                Some(old(self).now_ts)
            } else {
                None
            }),
            final(self).colliding == old(self).colliding,
            final(self).player_pos == old(self).player_pos,
            final(self).jump_started == old(self).jump_started,
            final(self).previous_frame_ts == old(self).previous_frame_ts,
            final(self).now_ts == old(self).now_ts,
            final(self).obstacles == old(self).obstacles,
            final(self).piss == old(self).piss,
            final(self).level == old(self).level,
            final(self).game_start == old(self).game_start,
            final(self).piss_particles == old(self).piss_particles,
    {
        if self.colliding {
            let pain = PAIN_PER_MS * (self.now_ts - self.previous_frame_ts);
            self.health = if self.health > pain {
                self.health - pain
            } else {
                0
            };
            if self.health == 0 {
                self.game_end = Some(self.now_ts);
            }
        }
    }

    fn update_pissing(&mut self, commands: &Commands)
        requires
            old(self).now_ts <= MAX_TIMESTAMP,
            old(self).piss <= FULL,
            0 <= old(self).player_pos.x <= SPEED * old(self).now_ts,
            0 <= old(self).player_pos.y <= JUMP_HEIGHT,
            -TUNNEL_HALF_WIDTH <= old(self).player_pos.z <= TUNNEL_HALF_WIDTH,
            forall|i: int|
                0 <= i < old(self).piss_particles.len() ==> particle_ok(
                    #[trigger] old(self).piss_particles[i],
                    old(self).now_ts,
                ),
        ensures
            final(self).pissing == (old(self).piss > 0 && commands.pissing),
            final(self).piss == (if final(self).pissing {
                saturating_sub(old(self).piss as int, PISS_PER_FRAME as int)
            } else {
                old(self).piss as int
            }),
            final(self).piss_particles@ == trail_at(
                if final(self).pissing {
                    old(self).piss_particles@.push(spawned(old(self).player_pos, old(self).now_ts))
                } else {
                    old(self).piss_particles@
                },
                old(self).now_ts as int,
            ),
            forall|i: int|
                0 <= i < final(self).piss_particles.len() ==> particle_ok(
                    #[trigger] final(self).piss_particles[i],
                    old(self).now_ts,
                ),
            final(self).colliding == old(self).colliding,
            final(self).player_pos == old(self).player_pos,
            final(self).jump_started == old(self).jump_started,
            final(self).previous_frame_ts == old(self).previous_frame_ts,
            final(self).now_ts == old(self).now_ts,
            final(self).obstacles == old(self).obstacles,
            final(self).health == old(self).health,
            final(self).level == old(self).level,
            final(self).game_start == old(self).game_start,
            final(self).game_end == old(self).game_end,
    {
        self.pissing = self.piss > 0 && commands.pissing;
        if self.pissing {
            self.piss = if self.piss > PISS_PER_FRAME {
                self.piss - PISS_PER_FRAME
            } else {
                0
            };
            let pos = self.player_pos;
            self.piss_particles.push(Particle { position: pos, origin: pos, started: self.now_ts });
            assert(SPEED * self.now_ts <= SPEED * MAX_TIMESTAMP);
        }
        self.piss_particles = advance_trail(&self.piss_particles, self.now_ts);
    }

    /// Advances the world by one frame. Once the game is over the world no
    /// longer changes. Otherwise, in order: the clock moves to the frame's
    /// time (never backwards), the player steps horizontally and follows
    /// its jump arc, contact is tested against the obstacles as they stood
    /// at the previous frame, contact drains health, and the resource meter
    /// and its trail are updated.
    pub fn update(&mut self, commands: Commands)
        requires
            old(self).wf(),
            commands.ts_now <= MAX_TIMESTAMP,
        ensures
            final(self).wf(),
            final(self).health <= FULL,
            final(self).piss <= FULL,
            -TUNNEL_HALF_WIDTH <= final(self).player_pos.z <= TUNNEL_HALF_WIDTH,
            old(self).health == 0 ==> *final(self) == *old(self),
            old(self).health > 0 ==> ({
                let w = *old(self);
                let ts = frame_time(w.now_ts, commands.ts_now);
                let d = displacement(
                    commands.forward_movement,
                    commands.left_movement,
                    ts - w.now_ts,
                );
                let pos = Point {
                    x: forward_after(w.player_pos.x as int, d.0) as i64,
                    y: jump_height(w.jump_started, ts as int) as i64,
                    z: lateral_after(w.player_pos.z as int, d.1) as i64,
                };
                let colliding = touches_any(pos, w.obstacles@, w.now_ts as int);
                let health = if colliding {
                    saturating_sub(w.health as int, PAIN_PER_MS * (ts - w.now_ts))
                } else {
                    w.health as int
                };
                let pissing = w.piss > 0 && commands.pissing;
                &&& final(self).previous_frame_ts == w.now_ts
                &&& final(self).now_ts == ts
                &&& final(self).player_pos == pos
                &&& final(self).jump_started == (if commands.jump && !in_jump(
                    w.jump_started,
                    ts as int,
                ) {
                    Some(ts)
                } else {
                    w.jump_started
                })
                &&& final(self).colliding == colliding
                &&& final(self).health == health
                &&& final(self).game_end == (if health == 0 {
                    Some(ts)
                } else {
                    None
                })
                &&& final(self).pissing == pissing
                &&& final(self).piss == (if pissing {
                    saturating_sub(w.piss as int, PISS_PER_FRAME as int)
                } else {
                    w.piss as int
                })
                &&& final(self).piss_particles@ == trail_at(
                    if pissing {
                        w.piss_particles@.push(spawned(pos, ts))
                    } else {
                        w.piss_particles@
                    },
                    ts as int,
                )
                &&& final(self).obstacles == w.obstacles
                &&& final(self).level == w.level
                &&& final(self).game_start == w.game_start
            }),
    {
        if self.health > 0 {
            self.update_time(&commands);
            self.update_player_position(&commands);
            self.update_jumped(&commands);
            self.update_collision();
            self.update_health();
            self.update_pissing(&commands);
        }
    }

    /// A fresh world on `level` at time `now`: full health, the starting
    /// resource meter, the player at the origin and obstacles laid out from
    /// `seed`.
    pub fn new(level: u32, seed: u64, now: u64) -> (r: World)
        requires
            now <= MAX_TIMESTAMP,
        ensures
            r.wf(),
            r.health == FULL,
            r.piss == START_PISS,
            r.player_pos == (Point { x: 0, y: 0, z: 0 }),
            r.jump_started.is_none(),
            drawn_layout(level as int, r.obstacles@),
            r.previous_frame_ts == now,
            r.now_ts == now,
            !r.colliding,
            !r.pissing,
            r.level == level,
            r.game_start == now,
            r.game_end.is_none(),
            r.piss_particles@.len() == 0,
    {
        let mut world = World {
            player_pos: Point::new(0, 0, 0),
            jump_started: None,
            obstacles: Vec::new(),
            previous_frame_ts: now,
            now_ts: now,
            colliding: false,
            pissing: false,
            health: FULL,
            piss: START_PISS,
            level,
            game_start: now,
            game_end: None,
            piss_particles: Vec::new(),
        };
        world.regenerate(seed);
        world
    }

    /// Lays out new obstacles for the current level from `seed` and puts
    /// the player back at the start; health, the resource meter, the clock
    /// and the level are kept.
    pub fn regenerate(&mut self, seed: u64)
        requires
            old(self).wf(),
        ensures
            final(self).wf(),
            drawn_layout(old(self).level as int, final(self).obstacles@),
            final(self).player_pos == (Point { x: 0, y: 0, z: 0 }),
            final(self).jump_started.is_none(),
            final(self).piss_particles@.len() == 0,
            final(self).previous_frame_ts == old(self).previous_frame_ts,
            final(self).now_ts == old(self).now_ts,
            final(self).colliding == old(self).colliding,
            final(self).pissing == old(self).pissing,
            final(self).health == old(self).health,
            final(self).piss == old(self).piss,
            final(self).level == old(self).level,
            final(self).game_start == old(self).game_start,
            final(self).game_end == old(self).game_end,
    {
        let obstacles = generate_obstacles(self.level, seed);
        self.obstacles = obstacles;
        self.player_pos = Point::new(0, 0, 0);
        self.jump_started = None;
        self.piss_particles = Vec::new();
    }

    /// Moves on to the next level: the resource meter is topped up by
    /// `PISS_REFILL` (up to a full meter) and new obstacles are laid out.
    pub fn advance_level(&mut self, seed: u64)
        requires
            old(self).wf(),
            old(self).level < u32::MAX,
        ensures
            final(self).wf(),
            final(self).level == old(self).level + 1,
            final(self).piss == (if old(self).piss + PISS_REFILL < FULL {
                old(self).piss + PISS_REFILL
            } else {
                FULL as int
            }),
            drawn_layout(final(self).level as int, final(self).obstacles@),
            final(self).player_pos == (Point { x: 0, y: 0, z: 0 }),
            final(self).jump_started.is_none(),
            final(self).piss_particles@.len() == 0,
            final(self).previous_frame_ts == old(self).previous_frame_ts,
            final(self).now_ts == old(self).now_ts,
            final(self).health == old(self).health,
            final(self).game_start == old(self).game_start,
            final(self).game_end == old(self).game_end,
    {
        self.level = self.level + 1;
        self.piss = if self.piss + PISS_REFILL < FULL {
            self.piss + PISS_REFILL
        } else {
            FULL
        };
        self.regenerate(seed);
    }

    /// The player has run `LEVEL_END_MARGIN` past the last obstacle, as it
    /// stood at the previous frame.
    pub fn level_finished(&self) -> (r: bool)
        requires
            self.wf(),
        ensures
            r == (self.obstacles.len() > 0 && self.player_pos.x > position_at(
                self.obstacles@.last(),
                self.previous_frame_ts as int,
            ).x + LEVEL_END_MARGIN),
    {
        let n = self.obstacles.len();
        if n == 0 {
            return false;
        }
        let last = self.obstacles[n - 1].get_pos(self.previous_frame_ts);
        self.player_pos.x > last.x + LEVEL_END_MARGIN
    }

    /// How long the game lasted, once it is over.
    pub fn game_duration(&self) -> (r: Option<u64>)
        requires
            self.wf(),
        ensures
            r == (match self.game_end {
                Some(end) => Some((end - self.game_start) as u64),
                None => None,
            }),
    {
        match self.game_end {
            Some(end) => Some(end - self.game_start),
            None => None,
        }
    }
}

/// A jump started at `t0` is on the ground at `t0`, at its apex halfway
/// through, and back on the ground once `JUMP_DURATION` has passed.
pub proof fn jump_timing(t0: u64)
    ensures
        jump_height(Some(t0), t0 as int) == 0,
        jump_height(Some(t0), t0 + JUMP_DURATION / 2) == JUMP_HEIGHT,
        jump_height(Some(t0), t0 + JUMP_DURATION) == 0,
{
    crate::kinematics::jump_arc_symmetry(JUMP_DURATION as int, JUMP_HEIGHT as int);
}

/// A player standing exactly where one of the obstacles stands touches the
/// obstacles; a player farther than the sum of the radii from every one of
/// them touches none.
pub proof fn collision_at_obstacles(p: Point, obstacles: Seq<Obstacle>, ts: int)
    ensures
        (exists|i: int| 0 <= i < obstacles.len() && p == position_at(#[trigger] obstacles[i], ts))
            ==> touches_any(p, obstacles, ts),
        (forall|i: int|
            0 <= i < obstacles.len() ==> squared_distance(p, position_at(#[trigger] obstacles[i], ts))
                > CONTACT_DISTANCE * CONTACT_DISTANCE) ==> !touches_any(p, obstacles, ts),
{
    if exists|i: int| 0 <= i < obstacles.len() && p == position_at(#[trigger] obstacles[i], ts) {
        let i = choose|i: int| 0 <= i < obstacles.len() && p == position_at(#[trigger] obstacles[i], ts);
        contact_law(p, p);
        assert(touches(p, position_at(obstacles[i], ts)));
    }
}

} // verus!
