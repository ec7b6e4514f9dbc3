//! The bounds within which a widget is sized, and the result of sizing it.
use vstd::prelude::*;
use crate::geometry::{saturate, Point, Rectangle, Size};
use crate::length::Length;

verus! {

/// `value` raised to `low` after it was lowered to `high`: where the two bounds
/// cross, `low` wins.
pub open spec fn clamp(value: u32, low: u32, high: u32) -> u32 {
    let capped = if value > high {
        high
    } else {
        value
    };
    if capped < low {
        low
    } else {
        capped
    }
}

/// The least and the greatest size that a widget may take.
#[derive(Debug, Clone, Copy, PartialEq, Eq, Structural)]
pub struct Limits {
    pub min: Size,
    pub max: Size,
}

impl Limits {
    /// The limits for a widget that wants its width to be `width`.
    ///
    /// `Shrink` leaves the limits as they are. `Fill` raises the least width
    /// to the greatest. `Fixed` sets both to the wanted width, held between
    /// the two as they were.
    pub open spec fn spec_width(self, width: Length) -> Limits {
        match width {
            Length::Shrink => self,
            Length::Fill => Limits { min: Size { width: self.max.width, ..self.min }, ..self },
            Length::Fixed(units) => {
                let fixed = clamp(units as u32, self.min.width, self.max.width);
                Limits {
                    min: Size { width: fixed, ..self.min },
                    max: Size { width: fixed, ..self.max },
                }
            },
        }
    }

    /// The limits for a widget that wants its height to be `height`; see
    /// [`Limits::spec_width`].
    pub open spec fn spec_height(self, height: Length) -> Limits {
        match height {
            Length::Shrink => self,
            Length::Fill => Limits { min: Size { height: self.max.height, ..self.min }, ..self },
            Length::Fixed(units) => {
                let fixed = clamp(units as u32, self.min.height, self.max.height);
                Limits {
                    min: Size { height: fixed, ..self.min },
                    max: Size { height: fixed, ..self.max },
                }
            },
        }
    }

    /// The limits for what remains inside a border of `padding` pixels on each
    /// of the four sides.
    pub open spec fn spec_pad(self, padding: u16) -> Limits {
        Limits {
            min: Size {
                width: saturate(self.min.width - 2 * padding),
                height: saturate(self.min.height - 2 * padding),
            },
            max: Size {
                width: saturate(self.max.width - 2 * padding),
                height: saturate(self.max.height - 2 * padding),
            },
        }
    }

    /// The size within the limits that is nearest to `intrinsic`.
    pub open spec fn spec_resolve(&self, intrinsic: Size) -> Size {
        Size {
            width: clamp(intrinsic.width, self.min.width, self.max.width),
            height: clamp(intrinsic.height, self.min.height, self.max.height),
        }
    }

    pub fn new(min: Size, max: Size) -> (limits: Limits)
        ensures
            limits == (Limits { min, max }),
    {
        Limits { min, max }
    }

    #[verifier::when_used_as_spec(spec_width)]
    pub fn width(self, width: Length) -> (limits: Limits)
        ensures
            limits == self.spec_width(width),
    {
        match width {
            Length::Shrink => self,
            Length::Fill => Limits {
                min: Size { width: self.max.width, height: self.min.height },
                max: self.max,
            },
            Length::Fixed(units) => {
                let fixed: u32 = clamp_to(units as u32, self.min.width, self.max.width);
                Limits {
                    min: Size { width: fixed, height: self.min.height },
                    max: Size { width: fixed, height: self.max.height },
                }
            },
        }
    }

    #[verifier::when_used_as_spec(spec_height)]
    pub fn height(self, height: Length) -> (limits: Limits)
        ensures
            limits == self.spec_height(height),
    {
        match height {
            Length::Shrink => self,
            Length::Fill => Limits {
                min: Size { width: self.min.width, height: self.max.height },
                max: self.max,
            },
            Length::Fixed(units) => {
                let fixed: u32 = clamp_to(units as u32, self.min.height, self.max.height);
                Limits {
                    min: Size { width: self.min.width, height: fixed },
                    max: Size { width: self.max.width, height: fixed },
                }
            },
        }
    }

    #[verifier::when_used_as_spec(spec_pad)]
    pub fn pad(self, padding: u16) -> (limits: Limits)
        ensures
            limits == self.spec_pad(padding),
    {
        let twice: u32 = 2 * (padding as u32);
        Limits {
            min: Size {
                width: self.min.width.saturating_sub(twice),
                height: self.min.height.saturating_sub(twice),
            },
            max: Size {
                width: self.max.width.saturating_sub(twice),
                height: self.max.height.saturating_sub(twice),
            },
        }
    }

    #[verifier::when_used_as_spec(spec_resolve)]
    pub fn resolve(&self, intrinsic: Size) -> (size: Size)
        ensures
            size == self.spec_resolve(intrinsic),
    {
        Size {
            width: clamp_to(intrinsic.width, self.min.width, self.max.width),
            height: clamp_to(intrinsic.height, self.min.height, self.max.height),
        }
    }
}

/// Computes [`clamp`].
pub fn clamp_to(value: u32, low: u32, high: u32) -> (clamped: u32)
    ensures
        clamped == clamp(value, low, high),
{
    let capped: u32 = if value > high {
        high
    } else {
        value
    };
    if capped < low {
        low
    } else {
        capped
    }
}

/// The size that a widget was given.
#[derive(Debug, Clone, Copy, PartialEq, Eq, Structural)]
pub struct Node {
    pub size: Size,
}

impl Node {
    pub fn new(size: Size) -> (node: Node)
        ensures
            node.size == size,
    {
        Node { size }
    }
}

/// A sized widget put in its place on the screen.
#[derive(Debug, Clone, Copy, PartialEq, Eq, Structural)]
pub struct Layout {
    pub position: Point,
    pub size: Size,
}

impl Layout {
    /// The rectangle that the widget covers.
    pub open spec fn spec_bounds(&self) -> Rectangle {
        Rectangle {
            x: self.position.x,
            y: self.position.y,
            width: self.size.width,
            height: self.size.height,
        }
    }

    /// Puts `node` at `position`.
    pub fn new(position: Point, node: &Node) -> (layout: Layout)
        ensures
            layout == (Layout { position, size: node.size }),
    {
        Layout { position, size: node.size }
    }

    #[verifier::when_used_as_spec(spec_bounds)]
    pub fn bounds(&self) -> (bounds: Rectangle)
        ensures
            bounds == self.spec_bounds(),
    {
        Rectangle {
            x: self.position.x,
            y: self.position.y,
            width: self.size.width,
            height: self.size.height,
        }
    }

    /// The top-left corner of the widget.
    pub fn position(&self) -> (position: Point)
        ensures
            position == self.position,
    {
        self.position
    }
}

} // verus!
