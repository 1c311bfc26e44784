use corporation_slayer::commands::{
    combine_movement, eight_direction_movement, get_cancellable_movement, Movement,
};

#[test]
fn test_eight_direction_main() {
    let moving = eight_direction_movement(500, 200);
    assert_eq!(moving, Movement::Positive)
}

#[test]
fn test_eight_direction_secondary() {
    let moving = eight_direction_movement(300, 500);
    assert_eq!(moving, Movement::Positive)
}

#[test]
fn test_eight_direction_none() {
    let moving = eight_direction_movement(200, 500);
    assert_eq!(moving, Movement::Neutral)
}

#[test]
fn eight_direction_negative_and_extremes() {
    assert_eq!(eight_direction_movement(-500, 200), Movement::Negative);
    assert_eq!(eight_direction_movement(0, 0), Movement::Neutral);
    assert_eq!(eight_direction_movement(i64::MIN, i64::MAX), Movement::Negative);
    assert_eq!(eight_direction_movement(250, 500), Movement::Neutral);
    assert_eq!(eight_direction_movement(251, 500), Movement::Positive);
}

#[test]
fn from_value_gives_the_sign() {
    assert_eq!(Movement::from_value(0), Movement::Neutral);
    assert_eq!(Movement::from_value(7), Movement::Positive);
    assert_eq!(Movement::from_value(-7), Movement::Negative);
}

#[test]
fn opposing_keys_cancel() {
    assert_eq!(get_cancellable_movement(true, true), Movement::Neutral);
    assert_eq!(get_cancellable_movement(true, false), Movement::Positive);
    assert_eq!(get_cancellable_movement(false, true), Movement::Negative);
    assert_eq!(get_cancellable_movement(false, false), Movement::Neutral);
}

#[test]
fn keyboard_wins_over_stick() {
    let r = combine_movement(Movement::Positive, Movement::Neutral, Some((-900, 10)));
    assert_eq!(r, (Movement::Positive, Movement::Neutral));
    let r = combine_movement(Movement::Neutral, Movement::Neutral, Some((-900, 10)));
    assert_eq!(r, (Movement::Neutral, Movement::Negative));
    let r = combine_movement(Movement::Neutral, Movement::Neutral, Some((400, 600)));
    assert_eq!(r, (Movement::Positive, Movement::Positive));
    let r = combine_movement(Movement::Neutral, Movement::Neutral, None);
    assert_eq!(r, (Movement::Neutral, Movement::Neutral));
}
