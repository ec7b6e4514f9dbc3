//! What the mouse can report.
use vstd::prelude::*;

verus! {

/// A button of the mouse.
#[derive(Debug, Clone, Copy, PartialEq, Eq, Structural)]
pub enum Button {
    /// The primary button.
    Left,
    Right,
    Middle,
    /// Any other button, by its number.
    Other(u8),
}

/// Something that happened to the mouse.
#[derive(Debug, Clone, Copy, PartialEq, Eq, Structural)]
pub enum Event {
    /// The cursor moved to this position.
    CursorMoved { x: i32, y: i32 },
    /// A button went down.
    ButtonPressed(Button),
    /// A button came up.
    ButtonReleased(Button),
    /// The wheel turned by this many lines.
    WheelScrolled { lines: i32 },
}

} // verus!
