//! Points, sizes and rectangles in integer layout units.

use vstd::prelude::*;

verus! {

/// A point in layout units.
#[derive(Clone, Copy, PartialEq, Eq, Structural, Debug)]
pub struct LayoutPoint {
    pub x: i64,
    pub y: i64,
}

impl LayoutPoint {
    /// The origin.
    pub fn zero() -> (p: LayoutPoint)
        ensures
            p.x == 0,
            p.y == 0,
    {
        LayoutPoint { x: 0, y: 0 }
    }
}

/// A size in layout units.
#[derive(Clone, Copy, PartialEq, Eq, Structural, Debug)]
pub struct LayoutSize {
    pub width: u32,
    pub height: u32,
}

/// A size in device pixels.
#[derive(Clone, Copy, PartialEq, Eq, Structural, Debug)]
pub struct DeviceSize {
    pub width: u32,
    pub height: u32,
}

/// A rectangle given by its origin and its extent, in layout units.
///
/// The extent may be negative, as it is for a rectangle built from a
/// top-left corner that lies right of or below its bottom-right corner;
/// such a rectangle is degenerate and draws nothing.
#[derive(Clone, Copy, PartialEq, Eq, Structural, Debug)]
pub struct LayoutRect {
    pub x: i64,
    pub y: i64,
    pub width: i64,
    pub height: i64,
}

/// The rectangle spanned from corner `(x1, y1)` to corner `(x2, y2)`.
pub open spec fn rect_from_corners(x1: int, y1: int, x2: int, y2: int) -> LayoutRect {
    LayoutRect { x: x1 as i64, y: y1 as i64, width: (x2 - x1) as i64, height: (y2 - y1) as i64 }
}

/// The rectangle with origin `(x, y)` and extent `(w, h)`.
pub open spec fn rect_at_size(x: int, y: int, w: int, h: int) -> LayoutRect {
    LayoutRect { x: x as i64, y: y as i64, width: w as i64, height: h as i64 }
}

/// Builds rectangles from a corner point, either toward a second corner
/// (`to`) or by an extent (`by`).
pub trait HandyDandyRectBuilder {
    /// The x coordinate of the corner this builder starts from.
    spec fn corner_x(&self) -> int;

    /// The y coordinate of the corner this builder starts from.
    spec fn corner_y(&self) -> int;

    /// The rectangle from this corner to `(x2, y2)`.
    fn to(&self, x2: i32, y2: i32) -> (r: LayoutRect)
        ensures
            r == rect_from_corners(self.corner_x(), self.corner_y(), x2 as int, y2 as int),
    ;

    /// The rectangle at this corner with extent `(w, h)`.
    fn by(&self, w: i32, h: i32) -> (r: LayoutRect)
        ensures
            r == rect_at_size(self.corner_x(), self.corner_y(), w as int, h as int),
    ;
}

impl HandyDandyRectBuilder for (i32, i32) {
    open spec fn corner_x(&self) -> int {
        self.0 as int
    }

    open spec fn corner_y(&self) -> int {
        self.1 as int
    }

    fn to(&self, x2: i32, y2: i32) -> (r: LayoutRect) {
        LayoutRect {
            x: self.0 as i64,
            y: self.1 as i64,
            width: x2 as i64 - self.0 as i64,
            height: y2 as i64 - self.1 as i64,
        }
    }

    fn by(&self, w: i32, h: i32) -> (r: LayoutRect) {
        LayoutRect { x: self.0 as i64, y: self.1 as i64, width: w as i64, height: h as i64 }
    }
}

} // verus!
