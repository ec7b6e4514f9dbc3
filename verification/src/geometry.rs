//! Points, sizes and rectangles in whole pixels.
use vstd::prelude::*;

verus! {

/// The number of pixels nearest to `n` that a `u32` can hold.
pub open spec fn saturate(n: int) -> u32 {
    if n < 0 {
        0
    } else if n > u32::MAX {
        u32::MAX
    } else {
        n as u32
    }
}

/// The number of pixels nearest to `pixels` that a `u16` can hold.
pub open spec fn clip(pixels: u32) -> u16 {
    if pixels > u16::MAX {
        u16::MAX
    } else {
        pixels as u16
    }
}

/// Computes [`clip`].
pub fn clip_to(pixels: u32) -> (clipped: u16)
    ensures
        clipped == clip(pixels),
{
    if pixels > u16::MAX as u32 {
        u16::MAX
    } else {
        pixels as u16
    }
}

/// A position on the screen. `x` grows to the right and `y` downwards.
///
/// A point with a negative coordinate lies off the screen. An overlay hands
/// such a point to the widgets beneath it to tell them that the cursor is not
/// theirs.
#[derive(Debug, Clone, Copy, PartialEq, Eq, Structural)]
pub struct Point {
    pub x: i32,
    pub y: i32,
}

impl Point {
    /// Whether the point lies off the screen.
    pub open spec fn spec_is_off_screen(&self) -> bool {
        self.x < 0 || self.y < 0
    }

    pub fn new(x: i32, y: i32) -> (point: Point)
        ensures
            point == (Point { x, y }),
    {
        Point { x, y }
    }

    #[verifier::when_used_as_spec(spec_is_off_screen)]
    pub fn is_off_screen(&self) -> (off: bool)
        ensures
            off == self.spec_is_off_screen(),
    {
        self.x < 0 || self.y < 0
    }
}

/// An amount of space in two dimensions.
#[derive(Debug, Clone, Copy, PartialEq, Eq, Structural)]
pub struct Size {
    pub width: u32,
    pub height: u32,
}

impl Size {
    /// The largest size there is: it stands for space without bounds.
    pub open spec fn spec_unbounded() -> Size {
        Size { width: u32::MAX, height: u32::MAX }
    }

    /// The size grown by `padding` on each of its four sides.
    pub open spec fn spec_pad(&self, padding: u16) -> Size {
        Size {
            width: saturate(self.width + 2 * padding),
            height: saturate(self.height + 2 * padding),
        }
    }

    pub fn new(width: u32, height: u32) -> (size: Size)
        ensures
            size == (Size { width, height }),
    {
        Size { width, height }
    }

    #[verifier::when_used_as_spec(spec_unbounded)]
    pub fn unbounded() -> (size: Size)
        ensures
            size == Size::spec_unbounded(),
    {
        Size { width: u32::MAX, height: u32::MAX }
    }

    #[verifier::when_used_as_spec(spec_pad)]
    pub fn pad(&self, padding: u16) -> (padded: Size)
        ensures
            padded == self.spec_pad(padding),
    {
        let twice: u32 = 2 * (padding as u32);
        Size {
            width: self.width.saturating_add(twice),
            height: self.height.saturating_add(twice),
        }
    }
}

/// An axis-aligned rectangle: its top-left corner and its extent.
#[derive(Debug, Clone, Copy, PartialEq, Eq, Structural)]
pub struct Rectangle {
    pub x: i32,
    pub y: i32,
    pub width: u32,
    pub height: u32,
}

impl Rectangle {
    /// The top-left corner.
    pub open spec fn spec_position(&self) -> Point {
        Point { x: self.x, y: self.y }
    }

    /// The extent.
    pub open spec fn spec_size(&self) -> Size {
        Size { width: self.width, height: self.height }
    }

    /// Whether `point` lies in the rectangle, its four edges included.
    pub open spec fn spec_contains(&self, point: Point) -> bool {
        &&& self.x <= point.x <= self.x + self.width
        &&& self.y <= point.y <= self.y + self.height
    }

    pub fn new(position: Point, size: Size) -> (rectangle: Rectangle)
        ensures
            rectangle.spec_position() == position,
            rectangle.spec_size() == size,
    {
        Rectangle { x: position.x, y: position.y, width: size.width, height: size.height }
    }

    #[verifier::when_used_as_spec(spec_position)]
    pub fn position(&self) -> (position: Point)
        ensures
            position == self.spec_position(),
    {
        Point { x: self.x, y: self.y }
    }

    #[verifier::when_used_as_spec(spec_size)]
    pub fn size(&self) -> (size: Size)
        ensures
            size == self.spec_size(),
    {
        Size { width: self.width, height: self.height }
    }

    #[verifier::when_used_as_spec(spec_contains)]
    pub fn contains(&self, point: Point) -> (inside: bool)
        ensures
            inside == self.spec_contains(point),
    {
        let right: i64 = self.x as i64 + self.width as i64;
        let bottom: i64 = self.y as i64 + self.height as i64;
        self.x <= point.x && point.x as i64 <= right && self.y <= point.y && point.y as i64
            <= bottom
    }
}

} // verus!
