//! The menu that a pick list opens.
use vstd::prelude::*;
use crate::geometry::Point;
use crate::renderer::Renderer;

verus! {

/// What the menu remembers between frames. Only the menu reads and writes it.
#[derive(Debug, Clone, Copy, PartialEq, Eq, Structural)]
pub struct State {
    /// How far the list of options is scrolled, in pixels.
    pub scroll_offset: u32,
}

impl Default for State {
    fn default() -> (state: State)
        ensures
            state.scroll_offset == 0,
    {
        State { scroll_offset: 0 }
    }
}

/// The menu of an open pick list, for one frame.
///
/// It borrows from the state of the pick list what the two of them share.
/// While the menu lives, it alone moves the highlight (`hovered_option`) and
/// it alone puts a chosen value into the mailbox (`pending_selection`), where
/// the pick list finds it when it next handles an event. A value put there
/// takes the place of one that was not yet collected.
#[verifier::reject_recursive_types(T)]
#[verifier::reject_recursive_types(R)]
pub struct Menu<'a, T, R: Renderer> {
    pub state: &'a mut State,
    pub options: &'a [T],
    pub hovered_option: &'a mut Option<usize>,
    pub pending_selection: &'a mut Option<T>,
    /// The top-left corner of the pick list.
    pub position: Point,
    /// The height of the pick list: the menu opens this far below `position`.
    pub target_height: u32,
    pub width: u16,
    pub padding: u16,
    /// The text size; `None` leaves it to the renderer.
    pub text_size: Option<u16>,
    pub font: R::Font,
    pub style: R::MenuStyle,
}

} // verus!
