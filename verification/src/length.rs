//! The width policy of a widget.
use vstd::prelude::*;

verus! {

/// How a widget wants to be sized along one axis.
#[derive(Debug, Clone, Copy, PartialEq, Eq, Structural)]
pub enum Length {
    /// Take all the space that is on offer.
    Fill,
    /// Take no more space than the content needs.
    Shrink,
    /// Take exactly this many pixels.
    Fixed(u16),
}

} // verus!
