use corporation_slayer::commands::{Commands, Movement};
use corporation_slayer::geometry::Point;
use corporation_slayer::obstacles::Obstacle;
use corporation_slayer::world::World;

const START: u64 = 1_700_000_000_000;

fn idle(ts: u64) -> Commands {
    Commands {
        should_quit: false,
        forward_movement: Movement::Neutral,
        left_movement: Movement::Neutral,
        jump: false,
        ts_now: ts,
        pissing: false,
    }
}

fn empty_world() -> World {
    let mut w = World::new(0, 99, START);
    w.obstacles = Vec::new();
    w
}

#[test]
fn new_world_starts_fresh() {
    let w = World::new(2, 5, START);
    assert_eq!(w.health, 1000);
    assert_eq!(w.piss, 300);
    assert_eq!(w.player_pos, Point::new(0, 0, 0));
    assert_eq!(w.obstacles.len(), 17);
    assert_eq!(w.game_end, None);
    assert_eq!(w.level, 2);
    assert!(w.piss_particles.is_empty());
}

#[test]
fn forward_and_lateral_steps() {
    let mut w = empty_world();
    let mut c = idle(START + 100);
    c.forward_movement = Movement::Positive;
    w.update(c);
    assert_eq!(w.player_pos, Point::new(1000, 0, 0));
    let mut c = idle(START + 200);
    c.forward_movement = Movement::Positive;
    c.left_movement = Movement::Negative;
    w.update(c);
    assert_eq!(w.player_pos, Point::new(1707, 0, 707));
    let mut c = idle(START + 2000);
    c.forward_movement = Movement::Negative;
    w.update(c);
    assert_eq!(w.player_pos.x, 0);
}

#[test]
fn lateral_pushes_stop_exactly_at_the_wall() {
    let mut w = empty_world();
    for k in 1..50u64 {
        let mut c = idle(START + 16 * k);
        c.left_movement = Movement::Positive;
        w.update(c);
        assert!(w.player_pos.z >= -1500);
    }
    assert_eq!(w.player_pos.z, -1500);
    for k in 50..100u64 {
        let mut c = idle(START + 16 * k);
        c.left_movement = Movement::Negative;
        w.update(c);
        assert!(w.player_pos.z <= 1500);
    }
    assert_eq!(w.player_pos.z, 1500);
}

#[test]
fn jump_follows_the_arc() {
    let mut w = empty_world();
    let t0 = START + 10;
    let mut c = idle(t0);
    c.jump = true;
    w.update(c);
    assert_eq!(w.jump_started, Some(t0));
    assert_eq!(w.player_pos.y, 0);
    let mut c = idle(t0 + 150);
    c.jump = true;
    w.update(c);
    assert_eq!(w.player_pos.y, 1500);
    assert_eq!(w.jump_started, Some(t0));
    w.update(idle(t0 + 225));
    assert_eq!(w.player_pos.y, 1125);
    w.update(idle(t0 + 300));
    assert_eq!(w.player_pos.y, 0);
}

#[test]
fn standing_on_an_obstacle_collides_and_hurts() {
    let mut w = empty_world();
    w.obstacles = vec![Obstacle::new(0, 0, 0)];
    w.update(idle(START + 100));
    assert!(w.colliding);
    assert_eq!(w.health, 900);
    w.obstacles = vec![Obstacle::new(901, 0, 0)];
    w.update(idle(START + 200));
    assert!(!w.colliding);
    assert_eq!(w.health, 900);
}

#[test]
fn health_runs_out_and_the_game_stops() {
    let mut w = empty_world();
    w.obstacles = vec![Obstacle::new(0, 0, 0)];
    w.update(idle(START + 600));
    assert_eq!(w.health, 400);
    w.update(idle(START + 1100));
    assert_eq!(w.health, 0);
    assert_eq!(w.game_end, Some(START + 1100));
    assert_eq!(w.game_duration(), Some(1100));
    let before_pos = w.player_pos;
    let mut c = idle(START + 1500);
    c.forward_movement = Movement::Positive;
    c.pissing = true;
    c.jump = true;
    w.update(c);
    assert_eq!(w.player_pos, before_pos);
    assert_eq!(w.health, 0);
    assert_eq!(w.now_ts, START + 1100);
    assert_eq!(w.game_end, Some(START + 1100));
    assert!(w.piss_particles.is_empty());
    assert_eq!(w.piss, 300);
}

#[test]
fn empty_meter_cannot_be_used() {
    let mut w = empty_world();
    w.piss = 0;
    let mut c = idle(START + 16);
    c.pissing = true;
    w.update(c);
    assert!(!w.pissing);
    assert_eq!(w.piss, 0);
    assert!(w.piss_particles.is_empty());
}

#[test]
fn using_the_meter_drains_it_and_spawns_particles() {
    let mut w = empty_world();
    let mut c = idle(START + 16);
    c.pissing = true;
    w.update(c);
    assert!(w.pissing);
    assert_eq!(w.piss, 290);
    assert_eq!(w.piss_particles.len(), 1);
    w.update(idle(START + 166));
    let p = w.piss_particles[0];
    assert_eq!(p.position, Point::new(1500, 1500, 0));
    w.update(idle(START + 316));
    assert!(w.piss_particles.is_empty());
    w.piss = 5;
    let mut c = idle(START + 332);
    c.pissing = true;
    w.update(c);
    assert_eq!(w.piss, 0);
}

#[test]
fn time_never_goes_back() {
    let mut w = empty_world();
    let mut c = idle(START - 500);
    c.forward_movement = Movement::Positive;
    w.update(c);
    assert_eq!(w.now_ts, START);
    assert_eq!(w.player_pos.x, 0);
}

#[test]
fn level_end_and_advance() {
    let mut w = empty_world();
    w.obstacles = vec![Obstacle::new(3000, 0, 1500)];
    assert!(!w.level_finished());
    w.player_pos = Point::new(13_001, 0, 0);
    assert!(w.level_finished());
    w.piss = 950;
    w.advance_level(3);
    assert_eq!(w.level, 1);
    assert_eq!(w.piss, 1000);
    assert_eq!(w.obstacles.len(), 16);
    assert_eq!(w.player_pos, Point::new(0, 0, 0));
    assert_eq!(w.health, 1000);
    w.advance_level(4);
    assert_eq!(w.piss, 1000);
    w.piss = 300;
    w.advance_level(4);
    assert_eq!(w.piss, 400);
}
