//! The on-screen controls: which screen regions act as the jump, resource
//! and movement buttons, and what to draw for them. Screen coordinates are
//! in thousandths, from -1000 to 1000 on each axis, with `y` pointing down.
use vstd::prelude::*;

verus! {

/// One of the on-screen controls.
#[derive(Clone, Copy, Debug, PartialEq, Eq, Structural)]
pub enum ButtonKind {
    Jump,
    Piss,
    Move,
}

#[derive(Clone, Copy, Debug, PartialEq, Eq, Structural)]
pub enum ButtonShape {
    Rectangle,
    Circle,
}

/// Whether each control was pressed in the last frame.
#[derive(Clone, Copy, Debug, PartialEq, Eq, Structural)]
pub struct GuiState {
    pub jump_pressed: bool,
    pub piss_pressed: bool,
    pub move_pressed: bool,
}

/// A control to draw. `x` and `y` place a rectangle's corner in thousandths
/// of the screen's width and height from its top left; a circle sits in the
/// bottom left corner.
#[derive(Clone, Copy, Debug, PartialEq, Eq, Structural)]
pub struct ButtonView {
    pub kind: ButtonKind,
    pub shape: ButtonShape,
    pub x: u64,
    pub y: u64,
    pub pressed: bool,
}

/// The screen region of a control.
pub open spec fn in_region(kind: ButtonKind, x: int, y: int) -> bool {
    match kind {
        ButtonKind::Jump => x > 0 && y > 0 && y < 500,
        ButtonKind::Piss => x > 0 && y > 500,
        ButtonKind::Move => x < 0 && y > 0,
    }
}

impl ButtonKind {
    /// The text on the control.
    pub fn label(&self) -> (r: &'static str)
        ensures
            r@ == (match *self {
                ButtonKind::Jump => "JUMP"@,
                ButtonKind::Piss => "PISS"@,
                ButtonKind::Move => "MOVE"@,
            }),
    {
        proof {
            reveal_strlit("JUMP");
            reveal_strlit("PISS");
            reveal_strlit("MOVE");
        }
        match self {
            ButtonKind::Jump => "JUMP",
            ButtonKind::Piss => "PISS",
            ButtonKind::Move => "MOVE",
        }
    }

    /// Whether the screen point `(x, y)` lies on the control.
    pub fn contains(&self, x: i64, y: i64) -> (r: bool)
        ensures
            r == in_region(*self, x as int, y as int),
    {
        match self {
            ButtonKind::Jump => x > 0 && y > 0 && y < 500,
            ButtonKind::Piss => x > 0 && y > 500,
            ButtonKind::Move => x < 0 && y > 0,
        }
    }
}

/// Where the control is pressed: the mouse, when its button is down on the
/// control, wins; else the first touch on the control.
pub fn pressed_at(kind: ButtonKind, mouse_down: bool, mouse: (i64, i64), touches: &Vec<(i64, i64)>) -> (r: Option<(i64, i64)>)
    ensures
        mouse_down && in_region(kind, mouse.0 as int, mouse.1 as int) ==> r == Some(mouse),
        !(mouse_down && in_region(kind, mouse.0 as int, mouse.1 as int)) ==> match r {
            Some(p) => exists|i: int| 0 <= i < touches.len() && touches[i] == p && in_region(kind, p.0 as int, p.1 as int)
                && forall|k: int| 0 <= k < i ==> !in_region(kind, #[trigger] touches[k].0 as int, touches[k].1 as int),
            None => forall|k: int| 0 <= k < touches.len() ==> !in_region(kind, #[trigger] touches[k].0 as int, touches[k].1 as int),
        },
{
    if mouse_down && kind.contains(mouse.0, mouse.1) {
        return Some(mouse);
    }
    let mut i: usize = 0;
    while i < touches.len()
        invariant
            i <= touches.len(),
            !(mouse_down && in_region(kind, mouse.0 as int, mouse.1 as int)),
            forall|k: int| 0 <= k < i ==> !in_region(kind, #[trigger] touches[k].0 as int, touches[k].1 as int),
        decreases touches.len() - i,
    {
        let t = touches[i];
        if kind.contains(t.0, t.1) {
            return Some(t);
        }
        i = i + 1;
    }
    None
}

/// The controls to draw, each shown pressed when it was pressed in the
/// last frame: jump and the resource button as rectangles on the right,
/// movement as a circle on the bottom left.
pub fn draw_gui(state: &GuiState) -> (r: Vec<ButtonView>)
    ensures
        r@ == seq![
            ButtonView { kind: ButtonKind::Jump, shape: ButtonShape::Rectangle, x: 500, y: 500, pressed: state.jump_pressed },
            ButtonView { kind: ButtonKind::Piss, shape: ButtonShape::Rectangle, x: 500, y: 750, pressed: state.piss_pressed },
            ButtonView { kind: ButtonKind::Move, shape: ButtonShape::Circle, x: 0, y: 1000, pressed: state.move_pressed },
        ],
{
    let mut r: Vec<ButtonView> = Vec::new();
    r.push(ButtonView { kind: ButtonKind::Jump, shape: ButtonShape::Rectangle, x: 500, y: 500, pressed: state.jump_pressed });
    r.push(ButtonView { kind: ButtonKind::Piss, shape: ButtonShape::Rectangle, x: 500, y: 750, pressed: state.piss_pressed });
    r.push(ButtonView { kind: ButtonKind::Move, shape: ButtonShape::Circle, x: 0, y: 1000, pressed: state.move_pressed });
    assert(r@ == seq![
        ButtonView { kind: ButtonKind::Jump, shape: ButtonShape::Rectangle, x: 500, y: 500, pressed: state.jump_pressed },
        ButtonView { kind: ButtonKind::Piss, shape: ButtonShape::Rectangle, x: 500, y: 750, pressed: state.piss_pressed },
        ButtonView { kind: ButtonKind::Move, shape: ButtonShape::Circle, x: 0, y: 1000, pressed: state.move_pressed },
    ]);
    r
}

} // verus!
