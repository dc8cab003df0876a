//! Widgets that place their single child: alignment, absolute position and expansion.
use vstd::prelude::*;

use crate::constraints::Constraints;
use crate::geometry::{Pos, Size};
use crate::layout::Axis;

verus! {

/// Where to align a child inside its parent.
#[derive(Debug, Copy, Clone, PartialEq, Eq, Structural)]
pub enum Align {
    TopLeft,
    Top,
    TopRight,
    Right,
    BottomRight,
    Bottom,
    BottomLeft,
    Left,
    Centre,
}

/// Half of `v`, rounded toward zero (as integer division does).
pub open spec fn half(v: int) -> int {
    if v >= 0 {
        v / 2
    } else {
        -((-v) / 2)
    }
}

/// Half of `v`, rounded toward zero.
fn half_i32(v: i32) -> (r: i32)
    ensures
        r == half(v as int),
{
    if v >= 0 {
        let u: u32 = v as u32;
        (u / 2) as i32
    } else {
        let u: u64 = (-(v as i64)) as u64;
        -((u / 2) as i64) as i32
    }
}

/// The offset of a child of width `cw` and height `ch` aligned inside a parent of width `w` and
/// height `h`: centred on an axis is half the parent less half the child, at the far edge is
/// the parent less the child.
pub open spec fn align_offset(align: Align, w: int, h: int, cw: int, ch: int) -> (int, int) {
    let centre_x = half(w) - half(cw);
    let centre_y = half(h) - half(ch);
    match align {
        Align::TopLeft => (0, 0),
        Align::Top => (centre_x, 0),
        Align::TopRight => (w - cw, 0),
        Align::Right => (w - cw, centre_y),
        Align::BottomRight => (w - cw, h - ch),
        Align::Bottom => (centre_x, h - ch),
        Align::BottomLeft => (0, h - ch),
        Align::Left => (0, centre_y),
        Align::Centre => (centre_x, centre_y),
    }
}

/// A value fits an `i32`.
pub open spec fn fits_i32(v: int) -> bool {
    i32::MIN <= v <= i32::MAX
}

/// The `Alignment` widget places its child inside the room of the parent.
#[derive(Debug, Copy, Clone, PartialEq, Eq, Structural)]
pub struct Alignment {
    pub alignment: Align,
}

impl Alignment {
    /// An alignment widget that aligns its child as `alignment` says.
    pub fn new(alignment: Align) -> (r: Self)
        ensures
            r.alignment == alignment,
    {
        Self { alignment }
    }

    /// The global position of the child: the position of the parent moved by the offset of the
    /// alignment. Sizes are taken as `i32` (cut to 32 bits).
    pub open spec fn child_pos(self, pos: Pos, inner: Size, child: Size) -> (int, int) {
        let off = align_offset(
            self.alignment,
            (inner.width as i32) as int,
            (inner.height as i32) as int,
            (child.width as i32) as int,
            (child.height as i32) as int,
        );
        (pos.x + off.0, pos.y + off.1)
    }

    /// The arithmetic of placing the child stays within `i32`.
    pub open spec fn can_place(self, pos: Pos, inner: Size, child: Size) -> bool {
        let off = align_offset(
            self.alignment,
            (inner.width as i32) as int,
            (inner.height as i32) as int,
            (child.width as i32) as int,
            (child.height as i32) as int,
        );
        &&& fits_i32(off.0) && fits_i32(off.1)
        &&& fits_i32(self.child_pos(pos, inner, child).0)
        &&& fits_i32(self.child_pos(pos, inner, child).1)
    }

    /// The position of the child, of size `child`, inside a parent at `pos` of size `inner`.
    pub fn position(&self, pos: Pos, inner: Size, child: Size) -> (r: Pos)
        requires
            self.can_place(pos, inner, child),
        ensures
            (r.x as int, r.y as int) == self.child_pos(pos, inner, child),
    {
        #[verifier::truncate]
        let width: i32 = inner.width as i32;
        #[verifier::truncate]
        let height: i32 = inner.height as i32;
        #[verifier::truncate]
        let child_width: i32 = child.width as i32;
        #[verifier::truncate]
        let child_height: i32 = child.height as i32;
        let offset = match self.alignment {
            Align::TopLeft => Pos::new(0, 0),
            Align::Top => Pos::new(half_i32(width) - half_i32(child_width), 0),
            Align::TopRight => Pos::new(width - child_width, 0),
            Align::Right => Pos::new(width - child_width, half_i32(height) - half_i32(child_height)),
            Align::BottomRight => Pos::new(width - child_width, height - child_height),
            Align::Bottom => Pos::new(half_i32(width) - half_i32(child_width), height - child_height),
            Align::BottomLeft => Pos::new(0, height - child_height),
            Align::Left => Pos::new(0, half_i32(height) - half_i32(child_height)),
            Align::Centre => Pos::new(
                half_i32(width) - half_i32(child_width),
                half_i32(height) - half_i32(child_height),
            ),
        };
        Pos::new(pos.x + offset.x, pos.y + offset.y)
    }
}

/// The horizontal edge a positioned child is measured from, with its distance from that edge.
#[derive(Debug, Copy, Clone, PartialEq, Eq, Structural)]
pub enum HorzEdge {
    Left(Option<i32>),
    Right(Option<i32>),
}

/// The vertical edge a positioned child is measured from, with its distance from that edge.
#[derive(Debug, Copy, Clone, PartialEq, Eq, Structural)]
pub enum VertEdge {
    Top(Option<i32>),
    Bottom(Option<i32>),
}

/// A distance, zero when it has none.
pub open spec fn or_zero(v: Option<i32>) -> int {
    match v {
        Some(x) => x as int,
        None => 0,
    }
}

/// The `Position` widget places its child at a distance from an edge of its parent. A child
/// placed from the right (or the bottom) makes the widget fill all the room on that axis.
#[derive(Debug, Copy, Clone, PartialEq, Eq, Structural)]
pub struct Position {
    pub horz_edge: HorzEdge,
    pub vert_edge: VertEdge,
}

impl Position {
    /// A position from the given edges.
    pub fn new(horz_edge: HorzEdge, vert_edge: VertEdge) -> (r: Self)
        ensures
            r.horz_edge == horz_edge,
            r.vert_edge == vert_edge,
    {
        Self { horz_edge, vert_edge }
    }

    /// The edges from the attributes `left`, `right`, `top` and `bottom`: `left` wins over
    /// `right` and `top` over `bottom`; without either the child sits at the right (and at the
    /// top), at a distance of zero.
    pub fn from_attributes(
        left: Option<i32>,
        right: Option<i32>,
        top: Option<i32>,
        bottom: Option<i32>,
    ) -> (r: Self)
        ensures
            r.horz_edge == match (left, right) {
                (Some(_), _) => HorzEdge::Left(left),
                (None, Some(_)) => HorzEdge::Right(right),
                (None, None) => HorzEdge::Right(Some(0i32)),
            },
            r.vert_edge == match (top, bottom) {
                (Some(_), _) => VertEdge::Top(top),
                (None, Some(_)) => VertEdge::Bottom(bottom),
                (None, None) => VertEdge::Top(Some(0i32)),
            },
    {
        let horz_edge = match left {
            None => match right {
                None => HorzEdge::Right(Some(0)),
                Some(_) => HorzEdge::Right(right),
            },
            Some(_) => HorzEdge::Left(left),
        };
        let vert_edge = match top {
            None => match bottom {
                None => VertEdge::Top(Some(0)),
                Some(_) => VertEdge::Bottom(bottom),
            },
            Some(_) => VertEdge::Top(top),
        };
        Self { horz_edge, vert_edge }
    }

    /// The size of the widget: the size of its child, stretched to the maximum width when it is
    /// placed from the right and to the maximum height when placed from the bottom.
    pub fn size(&self, constraints: &Constraints, child: Size) -> (r: Size)
        ensures
            r.width == if self.horz_edge is Right {
                constraints.max_w()
            } else {
                child.width
            },
            r.height == if self.vert_edge is Bottom {
                constraints.max_h()
            } else {
                child.height
            },
    {
        let mut c = *constraints;
        let mut size = child;
        if let HorzEdge::Right(_) = self.horz_edge {
            size = c.expand_horz(size);
        }
        if let VertEdge::Bottom(_) = self.vert_edge {
            size = c.expand_vert(size);
        }
        size
    }

    /// The offset of the child from the top left corner of the parent: the distance from the
    /// left (or top) edge, or the room less the distance and the size of the child from the
    /// right (or bottom) edge. Sizes are taken as `i32` (cut to 32 bits).
    pub open spec fn child_offset(self, inner: Size, child: Size) -> (int, int) {
        let x = match self.horz_edge {
            HorzEdge::Left(x) => or_zero(x),
            HorzEdge::Right(x) => (inner.width as i32) as int - or_zero(x) - (child.width as i32) as int,
        };
        let y = match self.vert_edge {
            VertEdge::Top(y) => or_zero(y),
            VertEdge::Bottom(y) => (inner.height as i32) as int - or_zero(y) - (child.height as i32) as int,
        };
        (x, y)
    }

    /// The arithmetic of placing the child stays within `i32`.
    pub open spec fn can_place(self, pos: Pos, inner: Size, child: Size) -> bool {
        let off = self.child_offset(inner, child);
        let w = (inner.width as i32) as int;
        let h = (inner.height as i32) as int;
        &&& self.horz_edge is Right ==> fits_i32(w - or_zero(self.horz_edge->Right_0))
        &&& self.vert_edge is Bottom ==> fits_i32(h - or_zero(self.vert_edge->Bottom_0))
        &&& fits_i32(off.0) && fits_i32(off.1)
        &&& fits_i32(pos.x + off.0) && fits_i32(pos.y + off.1)
    }

    /// The global position of the child, of size `child`, inside a parent at `pos` of size
    /// `inner`.
    pub fn position(&self, pos: Pos, inner: Size, child: Size) -> (r: Pos)
        requires
            self.can_place(pos, inner, child),
        ensures
            r.x == pos.x + self.child_offset(inner, child).0,
            r.y == pos.y + self.child_offset(inner, child).1,
    {
        #[verifier::truncate]
        let width: i32 = inner.width as i32;
        #[verifier::truncate]
        let height: i32 = inner.height as i32;
        #[verifier::truncate]
        let child_width: i32 = child.width as i32;
        #[verifier::truncate]
        let child_height: i32 = child.height as i32;
        let x: i32 = match self.horz_edge {
            HorzEdge::Left(x) => match x {
                Some(v) => v,
                None => 0,
            },
            HorzEdge::Right(x) => {
                let d: i32 = match x {
                    Some(v) => v,
                    None => 0,
                };
                width - d - child_width
            },
        };
        let y: i32 = match self.vert_edge {
            VertEdge::Top(y) => match y {
                Some(v) => v,
                None => 0,
            },
            VertEdge::Bottom(y) => {
                let d: i32 = match y {
                    Some(v) => v,
                    None => 0,
                };
                height - d - child_height
            },
        };
        Pos::new(pos.x + x, pos.y + y)
    }
}

/// The `Expand` widget fills the room that is left, on one axis or on both.
#[derive(Debug, Clone)]
pub struct Expand {
    /// The axis to expand along; both axes when there is none.
    pub axis: Option<Axis>,
    /// Text that fills the room by repetition.
    pub fill: Option<String>,
    /// The share of the room this expansion takes, relative to the others.
    pub factor: Option<usize>,
}

impl Expand {
    /// The share of the room this expansion takes: its factor, or zero.
    pub fn factor_or_default(&self) -> (r: usize)
        ensures
            r == match self.factor {
                Some(f) => f,
                None => 0,
            },
    {
        match self.factor {
            Some(f) => f,
            None => 0,
        }
    }

    /// The size of the widget: the size of its child, stretched to the maximum of the
    /// constraints along its axis (both axes when it has none).
    pub fn size(&self, constraints: &Constraints, child: Size) -> (r: Size)
        ensures
            r.width == match self.axis {
                Some(Axis::Vertical) => child.width,
                _ => constraints.max_w(),
            },
            r.height == match self.axis {
                Some(Axis::Horizontal) => child.height,
                _ => constraints.max_h(),
            },
    {
        let mut size = child;
        match self.axis {
            Some(Axis::Horizontal) => size.width = constraints.max_width(),
            Some(Axis::Vertical) => size.height = constraints.max_height(),
            None => {
                size.width = constraints.max_width();
                size.height = constraints.max_height();
            },
        }
        size
    }
}

/// A child aligned to the right (top right, right or bottom right) ends at the right edge of
/// its parent, and one aligned to the bottom ends at the bottom edge.
pub proof fn law_far_edges_touch(align: Align, w: int, h: int, cw: int, ch: int)
    ensures
        (align == Align::TopRight || align == Align::Right || align == Align::BottomRight)
            ==> align_offset(align, w, h, cw, ch).0 + cw == w,
        (align == Align::BottomLeft || align == Align::Bottom || align == Align::BottomRight)
            ==> align_offset(align, w, h, cw, ch).1 + ch == h,
        (align == Align::TopLeft || align == Align::Left || align == Align::BottomLeft)
            ==> align_offset(align, w, h, cw, ch).0 == 0,
        (align == Align::TopLeft || align == Align::Top || align == Align::TopRight)
            ==> align_offset(align, w, h, cw, ch).1 == 0,
{
}

/// A child placed at distance `d` from the right edge ends `d` cells before that edge; one
/// placed at distance `d` from the bottom ends `d` cells above it (for sizes that fit an `i32`).
pub proof fn law_edge_distance(p: Position, inner: Size, child: Size)
    requires
        inner.width <= i32::MAX,
        inner.height <= i32::MAX,
        child.width <= i32::MAX,
        child.height <= i32::MAX,
    ensures
        p.horz_edge matches HorzEdge::Right(d) ==> p.child_offset(inner, child).0 + child.width
            == inner.width - or_zero(d),
        p.horz_edge matches HorzEdge::Left(d) ==> p.child_offset(inner, child).0 == or_zero(d),
        p.vert_edge matches VertEdge::Bottom(d) ==> p.child_offset(inner, child).1 + child.height
            == inner.height - or_zero(d),
        p.vert_edge matches VertEdge::Top(d) ==> p.child_offset(inner, child).1 == or_zero(d),
{
    assert((inner.width as i32) as int == inner.width as int);
    assert((inner.height as i32) as int == inner.height as int);
    assert((child.width as i32) as int == child.width as int);
    assert((child.height as i32) as int == child.height as int);
}

/// A child centred on an axis has as much room before it as after it, give or take one cell
/// (for sizes that are not negative).
pub proof fn law_centred_within_one(align: Align, w: int, h: int, cw: int, ch: int)
    requires
        w >= 0,
        h >= 0,
        cw >= 0,
        ch >= 0,
    ensures
        (align == Align::Top || align == Align::Bottom || align == Align::Centre) ==> {
            let x = align_offset(align, w, h, cw, ch).0;
            -1 <= x - (w - cw - x) <= 1
        },
        (align == Align::Left || align == Align::Right || align == Align::Centre) ==> {
            let y = align_offset(align, w, h, cw, ch).1;
            -1 <= y - (h - ch - y) <= 1
        },
{
}

} // verus!
