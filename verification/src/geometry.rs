//! Positions, sizes and rectangles in integer units.
use vstd::prelude::*;

verus! {

/// Number of position units in one logical pixel.
pub const UNITS_PER_PIXEL: i32 = 256;

/// A surface-local position in units of 1/256 of a logical pixel, the
/// fixed-point format in which the display protocol reports coordinates.
#[derive(Clone, Copy, Debug, PartialEq, Eq, Structural)]
pub struct Pos {
    pub x: i32,
    pub y: i32,
}

impl Pos {
    /// The position with the given coordinates, in 1/256 pixel units.
    pub fn new(x: i32, y: i32) -> (pos: Pos)
        ensures
            pos == (Pos { x, y }),
    {
        Pos { x, y }
    }
}

/// A width and a height, in logical or physical pixels.
#[derive(Clone, Copy, Debug, PartialEq, Eq, Structural)]
pub struct Size {
    pub width: u32,
    pub height: u32,
}

impl Size {
    /// The size with the given width and height.
    pub fn new(width: u32, height: u32) -> (size: Size)
        ensures
            size == (Size { width, height }),
    {
        Size { width, height }
    }

    /// Whether either dimension is zero.
    pub open spec fn degenerate(self) -> bool {
        self.width == 0 || self.height == 0
    }

    /// Whether either dimension is zero.
    pub fn is_degenerate(&self) -> (degenerate: bool)
        ensures
            degenerate == self.degenerate(),
    {
        self.width == 0 || self.height == 0
    }
}

/// A pixel-aligned rectangle: its top-left corner and its extent.
#[derive(Clone, Copy, Debug, PartialEq, Eq, Structural)]
pub struct Rect {
    pub x: i32,
    pub y: i32,
    pub width: i32,
    pub height: i32,
}

impl Rect {
    /// The rectangle with the given corner and extent.
    pub fn new(x: i32, y: i32, width: i32, height: i32) -> (rect: Rect)
        ensures
            rect == (Rect { x, y, width, height }),
    {
        Rect { x, y, width, height }
    }

    /// The rectangle that covers no pixel.
    pub open spec fn nothing() -> Rect {
        Rect { x: 0, y: 0, width: 0, height: 0 }
    }

    /// The rectangle that covers no pixel.
    pub fn empty() -> (rect: Rect)
        ensures
            rect == Rect::nothing(),
    {
        Rect { x: 0, y: 0, width: 0, height: 0 }
    }

    /// Whether the pixel at `(px, py)` lies inside the rectangle. The
    /// right and bottom edges are exclusive, so a rectangle without extent
    /// covers nothing.
    pub open spec fn covers(self, px: int, py: int) -> bool {
        &&& self.x <= px < self.x + self.width
        &&& self.y <= py < self.y + self.height
    }

    /// Whether the pixel at `(px, py)` lies inside the rectangle.
    pub fn contains(&self, px: i32, py: i32) -> (inside: bool)
        ensures
            inside == self.covers(px as int, py as int),
    {
        let right: i64 = self.x as i64 + self.width as i64;
        let bottom: i64 = self.y as i64 + self.height as i64;
        self.x <= px && (px as i64) < right && self.y <= py && (py as i64) < bottom
    }
}

} // verus!
