//! What a pick list asks of the backend that draws it.
use vstd::prelude::*;
use crate::geometry::{Point, Rectangle, Size};

verus! {

/// The backend of a pick list: it measures labels, draws the closed control
/// and says how the menu is to look.
///
/// The pick list is written against this trait alone. Its contracts say which
/// arguments each of these methods is called with, and hold for whatever the
/// methods return.
pub trait Renderer {
    /// The padding of a pick list that was given none.
    const DEFAULT_PADDING: u16;

    /// The text size of a pick list that was given none.
    const DEFAULT_SIZE: u16;

    /// A handle to a font.
    type Font: Default + Copy;

    /// What says how a pick list looks.
    type Style: Default;

    /// What says how the menu of a pick list looks.
    type MenuStyle;

    /// What drawing produces.
    type Output;

    /// The width and the height, in whole pixels, that `content` takes at
    /// text size `size` in `font` where `bounds` is the room for it.
    fn measure(&self, content: &str, size: u16, font: Self::Font, bounds: Size) -> (u32, u32);

    /// The look of the menu that goes with a pick list that looks like `style`.
    fn menu_style(style: &Self::Style) -> Self::MenuStyle;

    /// Draws a pick list that covers `bounds` and shows `selected`, or its
    /// placeholder where there is none.
    fn draw(
        &mut self,
        bounds: Rectangle,
        cursor_position: Point,
        selected: Option<String>,
        padding: u16,
        text_size: u16,
        font: Self::Font,
        style: &Self::Style,
    ) -> Self::Output;
}

/// Whether `value` is one that `D::default()` may return.
pub open spec fn is_default<D: Default>(value: D) -> bool {
    call_ensures(D::default, (), value)
}

/// Whether `width` is a width that `renderer` may measure for `label` at text
/// size `size` in `font`, with no bound on the room for it.
pub open spec fn measures<R: Renderer>(
    renderer: &R,
    label: Seq<char>,
    size: u16,
    font: R::Font,
    width: u32,
) -> bool {
    exists|content: &str, height: u32|
        content@ == label && #[trigger] call_ensures(
            R::measure,
            (renderer, content, size, font, Size::spec_unbounded()),
            (width, height),
        )
}

/// Whether `widths` holds, label by label, a width that `renderer` may
/// measure for it (see [`measures`]).
pub open spec fn measures_each<R: Renderer>(
    renderer: &R,
    labels: Seq<Seq<char>>,
    size: u16,
    font: R::Font,
    widths: Seq<u32>,
) -> bool {
    &&& widths.len() == labels.len()
    &&& forall|i: int|
        0 <= i < labels.len() ==> measures(renderer, labels[i], size, font, #[trigger] widths[i])
}

} // verus!
