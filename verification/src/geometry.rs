//! Plain geometric values used by layout, positioning and painting.
use vstd::prelude::*;

verus! {

/// A width and a height, in terminal cells.
#[derive(Debug, Copy, Clone, PartialEq, Eq, Structural)]
pub struct Size {
    pub width: usize,
    pub height: usize,
}

impl Size {
    /// A size of zero by zero.
    pub open spec fn spec_zero() -> Size {
        Size { width: 0, height: 0 }
    }

    /// A size of zero by zero.
    pub fn zero() -> (s: Size)
        ensures
            s == Size::spec_zero(),
            s.width == 0,
            s.height == 0,
    {
        Size { width: 0, height: 0 }
    }

    /// Create a new size.
    pub fn new(width: usize, height: usize) -> (s: Size)
        ensures
            s.width == width,
            s.height == height,
    {
        Size { width, height }
    }
}

/// A position in global (screen) space. May be negative.
#[derive(Debug, Copy, Clone, PartialEq, Eq, Structural)]
pub struct Pos {
    pub x: i32,
    pub y: i32,
}

impl Pos {
    /// The origin.
    pub fn zero() -> (p: Pos)
        ensures
            p.x == 0,
            p.y == 0,
    {
        Pos { x: 0, y: 0 }
    }

    /// Create a new position.
    pub fn new(x: i32, y: i32) -> (p: Pos)
        ensures
            p.x == x,
            p.y == y,
    {
        Pos { x, y }
    }
}

/// A position in local space: relative to the top left corner of a widget.
#[derive(Debug, Copy, Clone, PartialEq, Eq, Structural)]
pub struct LocalPos {
    pub x: u16,
    pub y: u16,
}

impl LocalPos {
    /// Create a new local position.
    pub fn new(x: u16, y: u16) -> (p: LocalPos)
        ensures
            p.x == x,
            p.y == y,
    {
        LocalPos { x, y }
    }
}

} // verus!
