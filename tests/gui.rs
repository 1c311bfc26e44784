use corporation_slayer::gui::{draw_gui, pressed_at, ButtonKind, ButtonShape, GuiState};

#[test]
fn draws_three_controls() {
    let state = GuiState { jump_pressed: true, piss_pressed: false, move_pressed: true };
    let views = draw_gui(&state);
    assert_eq!(views.len(), 3);
    assert_eq!(views[0].kind, ButtonKind::Jump);
    assert!(views[0].pressed);
    assert_eq!((views[0].x, views[0].y), (500, 500));
    assert_eq!(views[1].kind, ButtonKind::Piss);
    assert!(!views[1].pressed);
    assert_eq!((views[1].x, views[1].y), (500, 750));
    assert_eq!(views[2].shape, ButtonShape::Circle);
    assert!(views[2].pressed);
    assert_eq!(ButtonKind::Move.label(), "MOVE");
    assert_eq!(ButtonKind::Jump.label(), "JUMP");
}

#[test]
fn button_regions() {
    assert!(ButtonKind::Jump.contains(10, 10));
    assert!(!ButtonKind::Jump.contains(10, 600));
    assert!(ButtonKind::Piss.contains(10, 600));
    assert!(ButtonKind::Move.contains(-10, 600));
    assert!(!ButtonKind::Move.contains(10, 600));
}

#[test]
fn mouse_wins_then_first_touch() {
    let touches = vec![(-300, 200), (400, 100), (500, 300)];
    assert_eq!(pressed_at(ButtonKind::Jump, true, (100, 100), &touches), Some((100, 100)));
    assert_eq!(pressed_at(ButtonKind::Jump, false, (100, 100), &touches), Some((400, 100)));
    assert_eq!(pressed_at(ButtonKind::Move, true, (100, 100), &touches), Some((-300, 200)));
    assert_eq!(pressed_at(ButtonKind::Piss, false, (100, 100), &touches), None);
}
