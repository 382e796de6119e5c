use vstd::prelude::*;

verus! {

/// The pointer button an input event names.
#[derive(Clone, Copy, Debug, PartialEq, Eq, Structural)]
pub enum MouseButton {
    Left,
    Right,
    Middle,
}

/// Whether a button or key went down or came up.
#[derive(Clone, Copy, Debug, PartialEq, Eq, Structural)]
pub enum ButtonState {
    Pressed,
    Released,
}

/// The keys the controller recognizes; everything else is `Other`.
#[derive(Clone, Copy, Debug, PartialEq, Eq, Structural)]
pub enum Key {
    W,
    A,
    S,
    D,
    LShift,
    LControl,
    Other,
}

/// A discrete translation step along the camera's own basis: forward and
/// back along the view direction, left and right across it, up and down on
/// the world's vertical axis.
#[derive(Clone, Copy, Debug, PartialEq, Eq, Structural)]
pub enum MoveDir {
    Forward,
    Back,
    Left,
    Right,
    Up,
    Down,
}

/// What the shell is to do with the camera's view state in response to one
/// event: rotate by the pending drag delta, zoom by the pending wheel delta,
/// or take one unit step in a direction.
#[derive(Clone, Copy, Debug, PartialEq, Eq, Structural)]
pub enum CameraAction {
    Rotate,
    Zoom,
    Translate(MoveDir),
}

/// One input event, as the controller sees it. Drag and wheel deltas are
/// view-state arithmetic and stay with the shell; the controller decides
/// only what kind of motion an event triggers.
#[derive(Clone, Copy, Debug, PartialEq, Eq, Structural)]
pub enum CameraEvent {
    MouseClick { state: ButtonState, button: MouseButton },
    MouseMotion,
    MouseWheel,
    Key { state: ButtonState, kind: Key },
}

/// The camera controller's state: whether a drag currently orbits the view.
#[derive(Clone, Copy, Debug, PartialEq, Eq, Structural)]
pub struct Controller {
    pub rotating: bool,
}

/// The translation step a key press triggers, if any.
pub open spec fn spec_key_action(kind: Key) -> Option<CameraAction> {
    match kind {
        Key::W => Some(CameraAction::Translate(MoveDir::Forward)),
        Key::S => Some(CameraAction::Translate(MoveDir::Back)),
        Key::A => Some(CameraAction::Translate(MoveDir::Left)),
        Key::D => Some(CameraAction::Translate(MoveDir::Right)),
        Key::LShift => Some(CameraAction::Translate(MoveDir::Up)),
        Key::LControl => Some(CameraAction::Translate(MoveDir::Down)),
        Key::Other => None,
    }
}

/// The controller's step function: the state after one event, and the action
/// that event triggers. A click leaves orbit mode set exactly when the left
/// button went down; motion rotates only while orbiting; the wheel always
/// zooms; a key press triggers its translation step, a release nothing.
pub open spec fn spec_step(c: Controller, e: CameraEvent) -> (Controller, Option<CameraAction>) {
    match e {
        CameraEvent::MouseClick { state, button } => (
            Controller { rotating: button is Left && state is Pressed },
            None,
        ),
        CameraEvent::MouseMotion => (
            c,
            if c.rotating {
                Some(CameraAction::Rotate)
            } else {
                None
            },
        ),
        CameraEvent::MouseWheel => (c, Some(CameraAction::Zoom)),
        CameraEvent::Key { state, kind } => (
            c,
            if state is Pressed {
                spec_key_action(kind)
            } else {
                None
            },
        ),
    }
}

impl Controller {
    /// A fresh controller: not orbiting.
    pub fn new() -> (c: Controller)
        ensures
            c == (Controller { rotating: false }),
    {
        Controller { rotating: false }
    }

    /// Advances the controller by one event and returns the action the shell
    /// is to apply to the view state, exactly as `spec_step` lays it down.
    pub fn handle_event(&mut self, event: &CameraEvent) -> (action: Option<CameraAction>)
        ensures
            (*final(self), action) == spec_step(*old(self), *event),
    {
        match *event {
            CameraEvent::MouseClick { state, button } => {
                self.rotating = button == MouseButton::Left && state == ButtonState::Pressed;
                None
            },
            CameraEvent::MouseMotion => {
                if self.rotating {
                    Some(CameraAction::Rotate)
                } else {
                    None
                }
            },
            CameraEvent::MouseWheel => Some(CameraAction::Zoom),
            CameraEvent::Key { state, kind } => {
                if state == ButtonState::Pressed {
                    match kind {
                        Key::W => Some(CameraAction::Translate(MoveDir::Forward)),
                        Key::S => Some(CameraAction::Translate(MoveDir::Back)),
                        Key::A => Some(CameraAction::Translate(MoveDir::Left)),
                        Key::D => Some(CameraAction::Translate(MoveDir::Right)),
                        Key::LShift => Some(CameraAction::Translate(MoveDir::Up)),
                        Key::LControl => Some(CameraAction::Translate(MoveDir::Down)),
                        Key::Other => None,
                    }
                } else {
                    None
                }
            },
        }
    }
}

} // verus!
