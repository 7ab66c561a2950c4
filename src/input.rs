use vstd::prelude::*;

verus! {

/// A button of the keypad.
#[derive(Clone, Copy, Debug, PartialEq, Eq, Structural)]
pub enum Key {
    Up,
    Down,
    Left,
    Right,
    /// The accept button.
    A,
    /// The cancel button.
    B,
    X,
    Y,
    L,
    R,
    Start,
    Select,
    Menu,
}

/// An input event from the keypad.
#[derive(Clone, Copy, Debug, PartialEq, Eq, Structural)]
pub enum KeyEvent {
    Pressed(Key),
    Released(Key),
    Autorepeat(Key),
}

impl KeyEvent {
    /// The key was pressed or is held down and repeating.
    pub open spec fn pressed_or_repeated(self, k: Key) -> bool {
        self == KeyEvent::Pressed(k) || self == KeyEvent::Autorepeat(k)
    }
}

} // verus!
