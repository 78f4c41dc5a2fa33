//! The closed vocabulary of raw input events delivered by the host.

use vstd::prelude::*;

verus! {

/// A keyboard key, as delivered by the windowing backend.
///
/// Printable characters arrive as `Char`; the remaining variants are the
/// control and modifier keys the session reacts to.
#[derive(Clone, Copy, Debug, PartialEq, Eq, Structural)]
pub enum Key {
    Char(char),
    Escape,
    Backspace,
    Return,
    Space,
    Shift,
    Ctrl,
    Alt,
    Tab,
    Plus,
    Equals,
    Minus,
    Underscore,
    F10,
}

/// A mouse button.  Buttons other than left and right are delivered but
/// never acted on.
#[derive(Clone, Copy, Debug, PartialEq, Eq, Structural)]
pub enum MouseButton {
    Left,
    Right,
    Middle,
}

} // verus!
