//! The layout of many children one after the other along an axis (the layout of the horizontal
//! and vertical stacks).
use vstd::prelude::*;

use crate::constraints::{min_usize, Constraints};
use crate::geometry::Size;
use crate::index::Direction;
use crate::layout::Axis;
use crate::strings::str_eq;

verus! {

/// The kind of a spacer widget.
pub const SPACER_KIND: &'static str = "Spacer";

/// The kind of an expand widget.
pub const EXPAND_KIND: &'static str = "Expand";

/// The larger of two values.
pub open spec fn max_usize(a: usize, b: usize) -> usize {
    if a >= b {
        a
    } else {
        b
    }
}

/// The room used by the children so far (`inner`) out of the room there is (`max_size`).
///
/// Along the axis the used room is capped at the room there is; across the axis it is the
/// largest size of a child.
#[derive(Debug, Copy, Clone, PartialEq, Eq, Structural)]
pub struct SizeMod {
    pub inner: Size,
    pub max_size: Size,
    pub axis: Axis,
}

/// The used room after adding a child of size `size`.
pub open spec fn applied(m: SizeMod, size: Size) -> SizeMod {
    match m.axis {
        Axis::Vertical => SizeMod {
            inner: Size {
                width: max_usize(m.inner.width, size.width),
                height: min_usize((m.inner.height + size.height) as usize, m.max_size.height),
            },
            ..m
        },
        Axis::Horizontal => SizeMod {
            inner: Size {
                width: min_usize((m.inner.width + size.width) as usize, m.max_size.width),
                height: max_usize(m.inner.height, size.height),
            },
            ..m
        },
    }
}

impl SizeMod {
    /// The used room stays within the room there is along the axis.
    pub open spec fn wf(self) -> bool {
        match self.axis {
            Axis::Vertical => self.inner.height <= self.max_size.height,
            Axis::Horizontal => self.inner.width <= self.max_size.width,
        }
    }

    /// Adding a child of size `size` does not overflow.
    pub open spec fn can_apply(self, size: Size) -> bool {
        match self.axis {
            Axis::Vertical => self.inner.height + size.height <= usize::MAX,
            Axis::Horizontal => self.inner.width + size.width <= usize::MAX,
        }
    }

    /// Nothing used yet of `max_size`.
    pub fn new(max_size: Size, axis: Axis) -> (r: Self)
        ensures
            r == (SizeMod { inner: Size::spec_zero(), max_size, axis }),
            r.wf(),
    {
        SizeMod { inner: Size::zero(), max_size, axis }
    }

    /// Add a child of size `size`.
    pub fn apply(&mut self, size: Size)
        requires
            old(self).can_apply(size),
        ensures
            *final(self) == applied(*old(self), size),
            final(self).wf(),
    {
        match self.axis {
            Axis::Vertical => {
                if size.width > self.inner.width {
                    self.inner.width = size.width;
                }
                let height = self.inner.height + size.height;
                self.inner.height = if height <= self.max_size.height {
                    height
                } else {
                    self.max_size.height
                };
            },
            Axis::Horizontal => {
                if size.height > self.inner.height {
                    self.inner.height = size.height;
                }
                let width = self.inner.width + size.width;
                self.inner.width = if width <= self.max_size.width {
                    width
                } else {
                    self.max_size.width
                };
            },
        }
    }

    /// All the room along the axis is used.
    pub fn no_space_left(&self) -> (r: bool)
        ensures
            r == match self.axis {
                Axis::Horizontal => self.inner.width >= self.max_size.width,
                Axis::Vertical => self.inner.height >= self.max_size.height,
            },
    {
        match self.axis {
            Axis::Horizontal => self.inner.width >= self.max_size.width,
            Axis::Vertical => self.inner.height >= self.max_size.height,
        }
    }

    /// The constraints of the room that is left: along the axis what is not used, across the
    /// axis all of it.
    pub open spec fn remaining(self) -> (usize, usize, usize, usize) {
        match self.axis {
            Axis::Horizontal => (
                0,
                0,
                (self.max_size.width - self.inner.width) as usize,
                self.max_size.height,
            ),
            Axis::Vertical => (
                0,
                0,
                self.max_size.width,
                (self.max_size.height - self.inner.height) as usize,
            ),
        }
    }

    /// The constraints of the room that is left.
    pub fn to_constraints(&self) -> (r: Constraints)
        requires
            self.wf(),
        ensures
            r.bounds() == self.remaining(),
    {
        match self.axis {
            Axis::Horizontal => Constraints::new(
                Some(self.max_size.width - self.inner.width),
                Some(self.max_size.height),
            ),
            Axis::Vertical => Constraints::new(
                Some(self.max_size.width),
                Some(self.max_size.height - self.inner.height),
            ),
        }
    }
}

/// How far into the children the layout starts: children are skipped, along the axis, until
/// `inner` cells have been skipped; the child that straddles the offset is cut.
#[derive(Debug, Copy, Clone, PartialEq, Eq, Structural)]
pub struct Offset {
    pub axis: Axis,
    pub inner: i32,
    pub enabled: bool,
}

/// The extent of a size along an axis, as an `i32` (cut to 32 bits).
pub open spec fn extent_i32(size: Size, axis: Axis) -> i32 {
    match axis {
        Axis::Vertical => size.height as i32,
        Axis::Horizontal => size.width as i32,
    }
}

/// What skipping a child of size `size` does: the new offset, the (possibly cut) size of the
/// child, and whether the whole child is skipped.
pub open spec fn skipped(o: Offset, size: Size) -> (Offset, Size, bool) {
    let e = extent_i32(size, o.axis);
    if !o.enabled {
        (o, size, false)
    } else if o.inner >= e {
        (Offset { inner: (o.inner - e) as i32, ..o }, size, true)
    } else {
        let cut = ((e - o.inner) as i32) as usize;
        (
            Offset { enabled: false, ..o },
            match o.axis {
                Axis::Vertical => Size { height: cut, ..size },
                Axis::Horizontal => Size { width: cut, ..size },
            },
            false,
        )
    }
}

impl Offset {
    /// The arithmetic of skipping a child of size `size` stays within `i32`.
    pub open spec fn can_skip(self, size: Size) -> bool {
        let e = extent_i32(size, self.axis);
        self.enabled ==> i32::MIN <= self.inner - e <= i32::MAX && i32::MIN <= e - self.inner
            <= i32::MAX
    }

    /// Skip a child of size `size`: returns true if the whole child is skipped. The child that
    /// straddles the offset loses the part before the offset, and the offset is then disabled.
    pub fn skip(&mut self, size: &mut Size) -> (r: bool)
        requires
            old(self).can_skip(*old(size)),
        ensures
            (*final(self), *final(size), r) == skipped(*old(self), *old(size)),
    {
        #[verifier::truncate]
        let height: i32 = size.height as i32;
        #[verifier::truncate]
        let width: i32 = size.width as i32;
        match self.axis {
            Axis::Vertical => {
                if self.enabled && self.inner >= height {
                    self.inner = self.inner - height;
                    true
                } else if self.enabled {
                    self.enabled = false;
                    let cut: i32 = height - self.inner;
                    #[verifier::truncate]
                    let cut_usize: usize = cut as usize;
                    size.height = cut_usize;
                    false
                } else {
                    false
                }
            },
            Axis::Horizontal => {
                if self.enabled && self.inner >= width {
                    self.inner = self.inner - width;
                    true
                } else if self.enabled {
                    self.enabled = false;
                    let cut: i32 = width - self.inner;
                    #[verifier::truncate]
                    let cut_usize: usize = cut as usize;
                    size.width = cut_usize;
                    false
                } else {
                    false
                }
            },
        }
    }
}

/// The layout of many children one after the other along an axis.
#[derive(Debug)]
pub struct Many {
    pub direction: Direction,
    pub axis: Axis,
    offset: Offset,
    unconstrained: bool,
}

/// A layout of many children in progress: the room used so far, and the minimum size of the
/// constraints of the layout.
#[derive(Debug, Copy, Clone)]
pub struct ManyProgress {
    pub used: SizeMod,
    pub min_width: usize,
    pub min_height: usize,
}

/// What became of a child that was laid out.
#[derive(Debug, Copy, Clone, PartialEq, Eq, Structural)]
pub enum Placement {
    /// The child lies before the offset and takes no room.
    Skipped,
    /// The child takes its room; there is room left.
    Placed,
    /// The child takes its room and no room is left: the layout of the children ends.
    Full,
}

impl Many {
    /// The direction of the layout.
    pub closed spec fn dir(self) -> Direction {
        self.direction
    }

    /// The axis of the layout.
    pub closed spec fn along(self) -> Axis {
        self.axis
    }

    /// The offset of the layout.
    pub closed spec fn offset_state(self) -> Offset {
        self.offset
    }

    /// The children are laid out without a bound along the axis.
    pub closed spec fn is_unconstrained(self) -> bool {
        self.unconstrained
    }

    /// The offset of the layout: how far into the children it still has to skip.
    pub fn offset(&self) -> (r: Offset)
        ensures
            r == self.offset_state(),
    {
        self.offset
    }

    /// A layout along `axis` that starts `offset` cells into its children.
    pub fn new(direction: Direction, axis: Axis, offset: i32, unconstrained: bool) -> (r: Self)
        ensures
            r.dir() == direction,
            r.along() == axis,
            r.offset_state() == (Offset { axis, inner: offset, enabled: true }),
            r.is_unconstrained() == unconstrained,
    {
        Self { direction, axis, offset: Offset { axis, inner: offset, enabled: true }, unconstrained }
    }

    /// Begin the layout in `constraints`: nothing is used of the maximum size yet.
    pub fn start(&self, constraints: Constraints) -> (r: ManyProgress)
        ensures
            r.used == (SizeMod {
                inner: Size::spec_zero(),
                max_size: Size { width: constraints.max_w(), height: constraints.max_h() },
                axis: self.along(),
            }),
            r.min_width == constraints.min_w(),
            r.min_height == constraints.min_h(),
    {
        ManyProgress {
            used: SizeMod::new(Size::new(constraints.max_width(), constraints.max_height()), self.axis),
            min_width: constraints.min_width(),
            min_height: constraints.min_height(),
        }
    }

    /// Spacers and expansions are left out of the run of children: they share the room that
    /// is left once the others are placed.
    pub fn is_filler(kind: &str) -> (r: bool)
        ensures
            r == (kind@ == SPACER_KIND@ || kind@ == EXPAND_KIND@),
    {
        str_eq(kind, SPACER_KIND) || str_eq(kind, EXPAND_KIND)
    }

    /// The constraints of the next child: the room that is left, unbounded along the axis when
    /// the layout is unconstrained.
    pub fn child_constraints(&self, progress: &ManyProgress) -> (r: Constraints)
        requires
            progress.used.wf(),
        ensures
            ({
                let rem = progress.used.remaining();
                r.bounds() == if self.is_unconstrained() {
                    match self.along() {
                        Axis::Vertical => (rem.0, rem.1, rem.2, usize::MAX),
                        Axis::Horizontal => (rem.0, rem.1, usize::MAX, rem.3),
                    }
                } else {
                    rem
                }
            }),
    {
        let mut constraints = progress.used.to_constraints();
        if self.unconstrained {
            match self.axis {
                Axis::Vertical => constraints.unbound_height(),
                Axis::Horizontal => constraints.unbound_width(),
            }
        }
        constraints
    }

    /// A child was laid out with size `size`: skip it if it lies before the offset, otherwise
    /// let it take its room.
    pub fn place_child(&mut self, progress: &mut ManyProgress, size: Size) -> (r: Placement)
        requires
            old(self).offset_state().can_skip(size),
            old(progress).used.can_apply(skipped(old(self).offset_state(), size).1),
        ensures
            ({
                let (offset, cut, skip) = skipped(old(self).offset_state(), size);
                let used = applied(old(progress).used, cut);
                &&& final(self).offset_state() == offset
                &&& skip ==> r == Placement::Skipped && final(progress).used == old(progress).used
                &&& !skip ==> final(progress).used == used && r == if match used.axis {
                    Axis::Horizontal => used.inner.width >= used.max_size.width,
                    Axis::Vertical => used.inner.height >= used.max_size.height,
                } {
                    Placement::Full
                } else {
                    Placement::Placed
                }
            }),
            final(self).dir() == old(self).dir(),
            final(self).along() == old(self).along(),
            final(self).is_unconstrained() == old(self).is_unconstrained(),
            final(progress).min_width == old(progress).min_width,
            final(progress).min_height == old(progress).min_height,
    {
        let mut size = size;
        if self.offset.skip(&mut size) {
            return Placement::Skipped;
        }
        progress.used.apply(size);
        if progress.used.no_space_left() {
            Placement::Full
        } else {
            Placement::Placed
        }
    }

    /// The constraints that the expansions, and then the spacers, share: the room that is left.
    /// `None` when the layout is unconstrained: there is no room to share then.
    pub fn fill_constraints(&self, progress: &ManyProgress) -> (r: Option<Constraints>)
        requires
            progress.used.wf(),
        ensures
            self.is_unconstrained() <==> r is None,
            r matches Some(c) ==> c.bounds() == progress.used.remaining(),
    {
        if self.unconstrained {
            None
        } else {
            Some(progress.used.to_constraints())
        }
    }

    /// The expansions or the spacers took `size` between them.
    pub fn add_fill(&self, progress: &mut ManyProgress, size: Size)
        requires
            old(progress).used.can_apply(size),
        ensures
            final(progress).used == applied(old(progress).used, size),
            final(progress).min_width == old(progress).min_width,
            final(progress).min_height == old(progress).min_height,
    {
        progress.used.apply(size);
    }

    /// The size of the layout: the room used, at least the minimum size; a layout that runs
    /// backwards takes all the room there is.
    pub fn size(&self, progress: &ManyProgress) -> (r: Size)
        ensures
            r == match self.dir() {
                Direction::Backward => progress.used.max_size,
                Direction::Forward => Size {
                    width: max_usize(progress.used.inner.width, progress.min_width),
                    height: max_usize(progress.used.inner.height, progress.min_height),
                },
            },
    {
        let mut size = Size::zero();
        size.width = if progress.used.inner.width >= progress.min_width {
            progress.used.inner.width
        } else {
            progress.min_width
        };
        size.height = if progress.used.inner.height >= progress.min_height {
            progress.used.inner.height
        } else {
            progress.min_height
        };
        if let Direction::Backward = self.direction {
            size = progress.used.max_size;
        }
        size
    }
}

/// Adding a child never uses more room along the axis than there is.
pub proof fn law_used_room_within_max(m: SizeMod, size: Size)
    requires
        m.wf(),
    ensures
        applied(m, size).wf(),
        applied(m, size).max_size == m.max_size,
{
}

/// Adding a child to the used room: across the axis the room covers both what was used and
/// the new child, and is as large as one of them; along the axis the child's extent is added,
/// up to the room there is.
pub proof fn law_applied_covers_child(m: SizeMod, size: Size)
    requires
        m.can_apply(size),
    ensures
        ({
            let r = applied(m, size);
            &&& r.max_size == m.max_size
            &&& r.axis == m.axis
            &&& match m.axis {
                Axis::Horizontal => {
                    &&& r.inner.height >= m.inner.height && r.inner.height >= size.height
                    &&& r.inner.height == m.inner.height || r.inner.height == size.height
                    &&& r.inner.width <= m.max_size.width
                    &&& r.inner.width <= m.inner.width + size.width
                    &&& m.inner.width + size.width <= m.max_size.width ==> r.inner.width
                        == m.inner.width + size.width
                    &&& m.inner.width + size.width > m.max_size.width ==> r.inner.width
                        == m.max_size.width
                },
                Axis::Vertical => {
                    &&& r.inner.width >= m.inner.width && r.inner.width >= size.width
                    &&& r.inner.width == m.inner.width || r.inner.width == size.width
                    &&& r.inner.height <= m.max_size.height
                    &&& r.inner.height <= m.inner.height + size.height
                    &&& m.inner.height + size.height <= m.max_size.height ==> r.inner.height
                        == m.inner.height + size.height
                    &&& m.inner.height + size.height > m.max_size.height ==> r.inner.height
                        == m.max_size.height
                },
            }
        }),
{
}

/// Skipping by an offset: a child no longer than the offset is skipped whole and the offset
/// shrinks by its extent; the child that reaches past the offset keeps only the part past it and
/// disables the offset; a disabled offset skips nothing and cuts nothing.
pub proof fn law_offset_skips_then_cuts(o: Offset, size: Size)
    requires
        o.can_skip(size),
    ensures
        ({
            let (o2, cut, skip) = skipped(o, size);
            let e = extent_i32(size, o.axis);
            &&& o2.axis == o.axis
            &&& !o.enabled ==> o2 == o && cut == size && !skip
            &&& o.enabled && skip ==> o.inner >= e && o2.inner == o.inner - e && o2.enabled
                && cut == size
            &&& o.enabled && !skip ==> o.inner < e && !o2.enabled && extent_i32(cut, o.axis)
                == (e - o.inner) as i32
        }),
{
    let e = extent_i32(size, o.axis);
    if o.enabled && o.inner < e {
        let d = (e - o.inner) as i32;
        assert(0 < d);
        assert(((d as usize) as i32) == d) by (bit_vector)
            requires
                0 < d,
        ;
    }
}

} // verus!
