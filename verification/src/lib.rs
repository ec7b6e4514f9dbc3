//! A pick list: a control that shows one value out of a fixed list of options
//! and, when pressed, opens a menu from which another can be chosen.
//!
//! The application keeps a [`State`] for each pick list. For every frame it
//! builds a [`PickList`] on that state, has it sized ([`PickList::layout`]),
//! hands it the input ([`PickList::on_event`]), asks it for its menu
//! ([`PickList::overlay`]) and has it drawn ([`PickList::draw`]). A value that
//! the user chooses in the menu reaches the application as one message, made
//! by the callback that the pick list was built with.
pub mod event;
pub mod geometry;
pub mod hasher;
pub mod laws;
pub mod layout;
pub mod length;
pub mod menu;
pub mod mouse;
pub mod renderer;
pub mod sizing;
pub mod widget;

pub use event::Event;
pub use geometry::{Point, Rectangle, Size};
pub use hasher::Hasher;
pub use layout::{Layout, Limits, Node};
pub use length::Length;
pub use menu::Menu;
pub use renderer::Renderer;
pub use widget::{PickList, State};
