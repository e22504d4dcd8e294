//! Plain screen geometry: two-dimensional integer vectors and rectangles
//! given by their edges.

use vstd::prelude::*;

verus! {

/// A point or an extent on the screen, in pixels.
pub struct Vector2 {
    pub x: i32,
    pub y: i32,
}

impl Vector2 {
    /// The vector with the given components.
    pub fn new(x: i32, y: i32) -> (v: Vector2)
        ensures
            v.x == x,
            v.y == y,
    {
        Vector2 { x: x, y: y }
    }
}

impl Default for Vector2 {
    /// The zero vector.
    fn default() -> (v: Vector2)
        ensures
            v.x == 0,
            v.y == 0,
    {
        Vector2 { x: 0, y: 0 }
    }
}

/// A rectangle given by the coordinates of its four edges.
pub struct Rect {
    pub left: i32,
    pub right: i32,
    pub top: i32,
    pub bottom: i32,
}

impl Rect {
    /// Horizontal extent of the rectangle, as a mathematical integer.
    pub open spec fn width(self) -> int {
        self.right - self.left
    }

    /// Vertical extent of the rectangle, as a mathematical integer.
    pub open spec fn height(self) -> int {
        self.bottom - self.top
    }

    /// Both extents fit in the `i32` components of a `Vector2`.
    pub open spec fn extent_fits(self) -> bool {
        &&& i32::MIN <= self.width() <= i32::MAX
        &&& i32::MIN <= self.height() <= i32::MAX
    }

    /// The width and height of the rectangle: right minus left, bottom minus top.
    pub fn size(&self) -> (s: Vector2)
        requires
            self.extent_fits(),
        ensures
            s.x == self.width(),
            s.y == self.height(),
    {
        Vector2::new(self.right - self.left, self.bottom - self.top)
    }
}

impl Default for Rect {
    /// The empty rectangle at the origin.
    fn default() -> (r: Rect)
        ensures
            r.left == 0,
            r.right == 0,
            r.top == 0,
            r.bottom == 0,
    {
        Rect { left: 0, right: 0, top: 0, bottom: 0 }
    }
}

} // verus!
