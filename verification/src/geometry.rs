//! Points, sizes and rectangles in display coordinates.
//!
//! A rectangle is a signed top-left point plus an unsigned size. Rectangles
//! handed to addressing or clear operations must be non-empty; their
//! inclusive bottom-right corner is what the controller's commands encode.

use vstd::prelude::*;

verus! {

/// A point in display coordinates.
#[derive(Clone, Copy, PartialEq, Eq, Structural, Debug)]
pub struct Point {
    pub x: i32,
    pub y: i32,
}

impl Point {
    /// Builds a point from its two coordinates.
    pub fn new(x: i32, y: i32) -> (p: Self)
        ensures
            p == (Point { x, y }),
    {
        Point { x, y }
    }

    /// The origin.
    pub fn zero() -> (p: Self)
        ensures
            p == (Point { x: 0, y: 0 }),
    {
        Point { x: 0, y: 0 }
    }
}

/// A width and height in pixels.
#[derive(Clone, Copy, PartialEq, Eq, Structural, Debug)]
pub struct Size {
    pub width: u32,
    pub height: u32,
}

impl Size {
    /// Builds a size from a width and a height.
    pub fn new(width: u32, height: u32) -> (s: Self)
        ensures
            s == (Size { width, height }),
    {
        Size { width, height }
    }
}

/// A rectangle: top-left corner plus size.
#[derive(Clone, Copy, PartialEq, Eq, Structural, Debug)]
pub struct Rect {
    pub top_left: Point,
    pub size: Size,
}

impl Rect {
    /// True when the rectangle covers no pixel at all.
    pub open spec fn is_empty(self) -> bool {
        self.size.width == 0 || self.size.height == 0
    }

    /// Column of the inclusive right edge (one less than one past the end).
    pub open spec fn right(self) -> int {
        self.top_left.x + self.size.width - 1
    }

    /// Row of the inclusive bottom edge.
    pub open spec fn bottom(self) -> int {
        self.top_left.y + self.size.height - 1
    }

    /// The inclusive bottom-right corner can be computed without leaving the
    /// signed 32-bit range.
    pub open spec fn corner_in_range(self) -> bool {
        self.right() <= i32::MAX && self.bottom() <= i32::MAX
    }

    /// Builds a rectangle from its top-left corner and its size.
    pub fn new(top_left: Point, size: Size) -> (r: Self)
        ensures
            r == (Rect { top_left, size }),
    {
        Rect { top_left, size }
    }

    /// The empty rectangle at the origin.
    pub fn zero() -> (r: Self)
        ensures
            r == (Rect { top_left: Point { x: 0, y: 0 }, size: Size { width: 0, height: 0 } }),
    {
        Rect { top_left: Point { x: 0, y: 0 }, size: Size { width: 0, height: 0 } }
    }

    /// The inclusive bottom-right corner, or `None` when the rectangle is
    /// empty.
    pub fn bottom_right(&self) -> (corner: Option<Point>)
        requires
            self.corner_in_range(),
        ensures
            self.is_empty() ==> corner is None,
            !self.is_empty() ==> corner == Some(
                Point { x: self.right() as i32, y: self.bottom() as i32 },
            ),
    {
        if self.size.width == 0 || self.size.height == 0 {
            None
        } else {
            let x: i64 = self.top_left.x as i64 + self.size.width as i64 - 1;
            let y: i64 = self.top_left.y as i64 + self.size.height as i64 - 1;
            Some(Point { x: x as i32, y: y as i32 })
        }
    }
}

} // verus!
