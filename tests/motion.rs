use corporation_slayer::commands::Movement;
use corporation_slayer::geometry::{collides, Point};
use corporation_slayer::kinematics::{arc_height, frame_displacement, JUMP_DURATION, JUMP_HEIGHT};

#[test]
fn jump_arc_is_symmetric() {
    assert_eq!(arc_height(0, JUMP_DURATION, JUMP_HEIGHT), 0);
    assert_eq!(arc_height(150, JUMP_DURATION, JUMP_HEIGHT), 1500);
    assert_eq!(arc_height(300, JUMP_DURATION, JUMP_HEIGHT), 0);
    assert_eq!(arc_height(75, JUMP_DURATION, JUMP_HEIGHT), 1125);
    assert_eq!(arc_height(225, JUMP_DURATION, JUMP_HEIGHT), 1125);
    assert_eq!(arc_height(5, 10, 7), 7);
}

#[test]
fn straight_and_diagonal_steps() {
    assert_eq!(frame_displacement(Movement::Positive, Movement::Neutral, 16), (160, 0));
    assert_eq!(frame_displacement(Movement::Neutral, Movement::Positive, 16), (0, -160));
    assert_eq!(frame_displacement(Movement::Negative, Movement::Negative, 16), (-113, 113));
    assert_eq!(frame_displacement(Movement::Positive, Movement::Positive, 1000), (7071, -7071));
    assert_eq!(frame_displacement(Movement::Neutral, Movement::Neutral, 1000), (0, 0));
}

#[test]
fn contact_at_the_same_point_and_beyond_the_radii() {
    let p = Point::new(1200, 300, -500);
    assert!(collides(p, p));
    assert!(collides(p, Point::new(1200 + 899, 300, -500)));
    assert!(!collides(p, Point::new(1200 + 900, 300, -500)));
    assert!(!collides(p, Point::new(1200 + 901, 300, -500)));
    assert!(collides(p, Point::new(1800, 300, -1100)));
    assert!(!collides(p, Point::new(1900, 300, -1200)));
    assert!(!collides(Point::new(i64::MAX, 0, 0), Point::new(i64::MIN, 0, 0)));
}
