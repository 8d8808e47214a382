use vstd::prelude::*;

verus! {

/// A mouse button, as the window system reports it.
#[derive(Clone, Copy, Debug, PartialEq, Eq, Structural)]
pub enum MouseButtonKind {
    Left,
    Right,
    Middle,
    Other(u16),
}

/// Whether a button went down or came up.
#[derive(Clone, Copy, Debug, PartialEq, Eq, Structural)]
pub enum ButtonState {
    Pressed,
    Released,
}

/// One change of a mouse button's state.
#[derive(Clone, Copy, Debug, PartialEq, Eq, Structural)]
pub struct ButtonEvent {
    pub button: MouseButtonKind,
    pub state: ButtonState,
}

/// A press of the left button: the event that puts the ball under the cursor.
pub open spec fn grabs(e: ButtonEvent) -> bool {
    e.button is Left && e.state is Pressed
}

impl ButtonEvent {
    /// Whether this event puts the ball under the cursor.
    pub fn is_grab(&self) -> (r: bool)
        ensures
            r == grabs(*self),
    {
        match (self.button, self.state) {
            (MouseButtonKind::Left, ButtonState::Pressed) => true,
            _ => false,
        }
    }
}

} // verus!
