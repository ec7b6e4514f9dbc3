//! The input that a widget is told of.
use vstd::prelude::*;
use crate::mouse;

verus! {

/// A piece of user input.
#[derive(Debug, Clone, Copy, PartialEq, Eq, Structural)]
pub enum Event {
    /// The mouse did something.
    Mouse(mouse::Event),
    /// A key went down (`pressed`) or came up.
    Keyboard { key_code: u32, pressed: bool },
}

impl Event {
    /// Whether the event is a press of the primary button of the mouse.
    pub open spec fn spec_is_primary_press(&self) -> bool {
        *self == Event::Mouse(mouse::Event::ButtonPressed(mouse::Button::Left))
    }

    #[verifier::when_used_as_spec(spec_is_primary_press)]
    pub fn is_primary_press(&self) -> (primary: bool)
        ensures
            primary == self.spec_is_primary_press(),
    {
        match self {
            Event::Mouse(mouse::Event::ButtonPressed(mouse::Button::Left)) => true,
            _ => false,
        }
    }
}

} // verus!
