use corporation_slayer::generator::{generate_obstacles, ObstacleGenerator, Stage};
use corporation_slayer::geometry::Point;
use corporation_slayer::obstacles::{Obstacle, ObstacleColor, Position};

fn depth(o: &Obstacle) -> i64 {
    match o.position {
        Position::Static { pos } => pos.x,
        Position::Moving { initial_pos, .. } => initial_pos.x,
    }
}

#[test]
fn static_obstacle_stays_put() {
    let o = Obstacle::new(3000, 0, 500);
    assert!(o.is_alive());
    assert_eq!(o.get_pos(0), Point::new(3000, 0, 500));
    assert_eq!(o.get_pos(123_456), Point::new(3000, 0, 500));
    assert_eq!(o.get_color(), ObstacleColor::Orange);
}

#[test]
fn moving_obstacle_sweeps_with_its_salt() {
    let right = Obstacle::new_moving(3000, 0, -1500, true);
    let left = Obstacle::new_moving(3000, 0, -1500, false);
    match right.position {
        Position::Moving { salt, .. } => assert_eq!(salt, 1500),
        _ => panic!("expected a moving obstacle"),
    }
    assert_eq!(right.get_pos(0), Point::new(3000, 0, 0));
    assert_eq!(left.get_pos(0), Point::new(3000, 0, 3000));
    assert_eq!(right.get_pos(1000), Point::new(3000, 0, 3000));
    assert_eq!(right.get_pos(1500), Point::new(3000, 0, -1500));
    assert_eq!(right.get_pos(2000), Point::new(3000, 0, 0));
    let negative = Obstacle::new_moving(-7000, 0, 0, true);
    match negative.position {
        Position::Moving { salt, .. } => assert_eq!(salt, 5000),
        _ => panic!("expected a moving obstacle"),
    }
}

#[test]
fn kill_freezes_and_fades() {
    let mut o = Obstacle::new_moving(3000, 0, -1500, true);
    o.kill(1000);
    assert!(!o.is_alive());
    assert_eq!(o.get_color(), ObstacleColor::Brown);
    assert_eq!(o.get_pos(0), Point::new(3000, 0, 3000));
    assert_eq!(o.get_pos(1700), Point::new(3000, 0, 3000));
    o.kill(0);
    assert_eq!(o.get_pos(5), Point::new(3000, 0, 3000));
}

#[test]
fn level_zero_layout_has_the_base_count_in_depth_order() {
    let obstacles = generate_obstacles(0, 42);
    assert_eq!(obstacles.len(), 15);
    for o in &obstacles {
        assert!(depth(o) >= 3000);
        assert!(o.is_alive());
        match o.position {
            Position::Static { pos } => {
                assert!([-1500, -500, 500, 1500].contains(&pos.z));
                assert_eq!(pos.y, 0);
            }
            Position::Moving { .. } => panic!("level 0 has no moving obstacles"),
        }
    }
    for w in obstacles.windows(2) {
        assert!(depth(&w[0]) <= depth(&w[1]));
    }
}

#[test]
fn same_level_and_seed_give_the_same_layout() {
    for level in [0u32, 3, 30, 60] {
        let a = generate_obstacles(level, 1_700_000_000);
        let b = generate_obstacles(level, 1_700_000_000);
        assert_eq!(a, b);
        assert_eq!(a.len(), 15 + level as usize);
    }
}

#[test]
fn high_levels_place_moving_obstacles_at_the_rear_lane() {
    let obstacles = generate_obstacles(60, 7);
    assert_eq!(obstacles.len(), 75);
    let mut moving = 0;
    for o in &obstacles {
        if let Position::Moving { initial_pos, .. } = o.position {
            assert_eq!(initial_pos.z, -1500);
            moving += 1;
        }
    }
    assert!(moving > 0);
}

#[test]
fn generator_follows_each_draw() {
    let mut g = ObstacleGenerator::new(0);
    g.feed(98);
    assert_eq!(g.stage, Stage::Lane { index: 0 });
    g.feed(0);
    assert_eq!(g.obstacles, vec![Obstacle::new(3000, 0, -1500)]);
    g.feed(14);
    g.feed(15);
    g.feed(98);
    assert_eq!(g.obstacles, vec![Obstacle::new(3000, 0, -1500), Obstacle::new(3000, 0, -500)]);
    assert_eq!(g.depth, 4000);
    assert_eq!(g.stage, Stage::Moving);
    assert!(!g.is_complete());

    let mut g = ObstacleGenerator::new(10);
    g.feed(19);
    assert_eq!(g.stage, Stage::Direction);
    g.feed(49);
    assert_eq!(g.obstacles, vec![Obstacle::new_moving(3000, 0, -1500, true)]);
    assert_eq!(g.depth, 4000);
    g.feed(20);
    assert_eq!(g.stage, Stage::Lane { index: 0 });
    g.feed(24);
    g.feed(25);
    assert_eq!(g.obstacles.len(), 2);
    assert_eq!(g.obstacles[1], Obstacle::new(4000, 0, -1500));
}
