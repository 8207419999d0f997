//! Positions, sizes and rectangles on the character grid.

use vstd::prelude::*;

verus! {

/// A pair of horizontal and vertical cell counts: a position or a size on the
/// character grid of the host display.
#[derive(Clone, Copy, Debug, PartialEq, Eq, Structural)]
pub struct Vec2 {
    /// The horizontal component, in character cells (columns).
    pub x: usize,
    /// The vertical component, in character cells (rows).
    pub y: usize,
}

impl Vec2 {
    /// Creates the pair `(x, y)`.
    pub fn new(x: usize, y: usize) -> (r: Vec2)
        ensures
            r == (Vec2 { x, y }),
    {
        Vec2 { x, y }
    }

    /// The origin `(0, 0)`.
    pub fn zero() -> (r: Vec2)
        ensures
            r == (Vec2 { x: 0usize, y: 0usize }),
    {
        Vec2 { x: 0, y: 0 }
    }
}

/// An axis-aligned rectangle on the character grid: a top-left corner and a
/// size, both in character cells.
#[derive(Clone, Copy, Debug, PartialEq, Eq, Structural)]
pub struct Rect {
    /// The top-left corner of the rectangle.
    pub position: Vec2,
    /// The extent of the rectangle.
    pub size: Vec2,
}

impl Rect {
    /// The degenerate rectangle: zero-sized, at the origin.
    pub open spec fn spec_zero() -> Rect {
        Rect { position: Vec2 { x: 0, y: 0 }, size: Vec2 { x: 0, y: 0 } }
    }

    /// Creates the degenerate zero-sized rectangle at the origin.
    pub fn zero() -> (r: Rect)
        ensures
            r == Rect::spec_zero(),
    {
        Rect { position: Vec2 { x: 0, y: 0 }, size: Vec2 { x: 0, y: 0 } }
    }

    /// Creates the rectangle with corner `position` and extent `size`.
    pub fn from_size(position: Vec2, size: Vec2) -> (r: Rect)
        ensures
            r == (Rect { position, size }),
    {
        Rect { position, size }
    }
}

} // verus!
