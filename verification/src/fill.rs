//! Sharing the room that is left between expansions and spacers, and adding up the sizes of
//! children placed along an axis.
use vstd::prelude::*;

use crate::constraints::Constraints;
use crate::geometry::Size;
use crate::layout::Axis;
use crate::many::max_usize;

verus! {

/// The size of two runs of children put one after the other along `axis`: their extents add up
/// along the axis, and the larger one is taken across it.
pub open spec fn joined(axis: Axis, a: Size, b: Size) -> Size {
    match axis {
        Axis::Horizontal => Size {
            width: (a.width + b.width) as usize,
            height: max_usize(a.height, b.height),
        },
        Axis::Vertical => Size {
            width: max_usize(a.width, b.width),
            height: (a.height + b.height) as usize,
        },
    }
}

/// The extent of a size along an axis.
pub open spec fn extent(axis: Axis, s: Size) -> nat {
    match axis {
        Axis::Horizontal => s.width as nat,
        Axis::Vertical => s.height as nat,
    }
}

/// The sum of the extents along `axis` of a list of sizes.
pub open spec fn extent_sum(axis: Axis, sizes: Seq<Size>) -> nat
    decreases sizes.len(),
{
    if sizes.len() == 0 {
        0
    } else {
        extent_sum(axis, sizes.drop_last()) + extent(axis, sizes.last())
    }
}

/// The size of children laid out one after the other along `axis`.
pub open spec fn along_total(axis: Axis, sizes: Seq<Size>) -> Size
    decreases sizes.len(),
{
    if sizes.len() == 0 {
        Size::spec_zero()
    } else {
        joined(axis, along_total(axis, sizes.drop_last()), sizes.last())
    }
}

/// The extent of the total along the axis is the sum of the extents.
pub proof fn lemma_along_total_extent(axis: Axis, sizes: Seq<Size>)
    requires
        extent_sum(axis, sizes) <= usize::MAX,
    ensures
        extent(axis, along_total(axis, sizes)) == extent_sum(axis, sizes),
    decreases sizes.len(),
{
    if sizes.len() > 0 {
        lemma_along_total_extent(axis, sizes.drop_last());
    }
}

/// Add the size of one more child, placed after the others along `axis`.
pub fn join(axis: Axis, total: Size, size: Size) -> (r: Size)
    requires
        extent(axis, total) + extent(axis, size) <= usize::MAX,
    ensures
        r == joined(axis, total, size),
{
    match axis {
        Axis::Horizontal => Size::new(
            total.width + size.width,
            if total.height >= size.height {
                total.height
            } else {
                size.height
            },
        ),
        Axis::Vertical => Size::new(
            if total.width >= size.width {
                total.width
            } else {
                size.width
            },
            total.height + size.height,
        ),
    }
}

/// The size of children laid out one after the other along `axis`: their extents add up along
/// the axis, and the largest is taken across it.
pub fn total_along(axis: Axis, sizes: &Vec<Size>) -> (r: Size)
    requires
        extent_sum(axis, sizes@) <= usize::MAX,
    ensures
        r == along_total(axis, sizes@),
{
    let mut total = Size::zero();
    let mut i: usize = 0;
    while i < sizes.len()
        invariant
            i <= sizes.len(),
            extent_sum(axis, sizes@) <= usize::MAX,
            total == along_total(axis, sizes@.take(i as int)),
        decreases sizes.len() - i,
    {
        proof {
            let taken = sizes@.take(i as int + 1);
            assert(taken.drop_last() =~= sizes@.take(i as int));
            lemma_prefix_extent(axis, sizes@, i as int + 1);
            lemma_along_total_extent(axis, taken);
            lemma_along_total_extent(axis, sizes@.take(i as int));
        }
        total = join(axis, total, sizes[i]);
        i = i + 1;
    }
    proof {
        assert(sizes@.take(i as int) =~= sizes@);
    }
    total
}

/// The extents of a prefix add up to no more than those of the whole list.
pub proof fn lemma_prefix_extent(axis: Axis, sizes: Seq<Size>, k: int)
    requires
        0 <= k <= sizes.len(),
    ensures
        extent_sum(axis, sizes.take(k)) <= extent_sum(axis, sizes),
    decreases sizes.len() - k,
{
    if k < sizes.len() {
        lemma_prefix_extent(axis, sizes, k + 1);
        assert(sizes.take(k + 1).drop_last() =~= sizes.take(k));
    } else {
        assert(sizes.take(k) =~= sizes);
    }
}

/// The constraints of one expansion that was given `sub_size` cells of the room: exactly that
/// many along the axis, and all the room across it.
pub fn expansion_constraints(axis: Axis, constraints: &Constraints, sub_size: usize) -> (r: Constraints)
    ensures
        r.bounds() == match axis {
            Axis::Horizontal => (sub_size, 0, sub_size, constraints.max_h()),
            Axis::Vertical => (0, sub_size, constraints.max_w(), sub_size),
        },
{
    match axis {
        Axis::Horizontal => {
            let mut c = Constraints::new(Some(sub_size), Some(constraints.max_height()));
            // The rounding of the distribution must not push the child past its share.
            c.set_min_width(c.max_width());
            c
        },
        Axis::Vertical => {
            let mut c = Constraints::new(Some(constraints.max_width()), Some(sub_size));
            c.set_min_height(c.max_height());
            c
        },
    }
}

/// The constraints that `count` spacers share: the room along the axis is divided evenly
/// between them and made tight; across the axis the constraints stay as they are.
pub fn spacer_constraints(axis: Axis, constraints: &Constraints, count: usize) -> (r: Constraints)
    requires
        count > 0,
    ensures
        r.bounds() == match axis {
            Axis::Horizontal => (
                constraints.max_w() / count,
                constraints.min_h(),
                constraints.max_w() / count,
                constraints.max_h(),
            ),
            Axis::Vertical => (
                constraints.min_w(),
                constraints.max_h() / count,
                constraints.max_w(),
                constraints.max_h() / count,
            ),
        },
{
    let mut c = *constraints;
    match axis {
        Axis::Horizontal => {
            c.div_assign_max_width(count);
            c.set_min_width(c.max_width());
        },
        Axis::Vertical => {
            c.div_assign_max_height(count);
            c.set_min_height(c.max_height());
        },
    }
    c
}

/// The layout of a single spacer: it takes the minimum size of its constraints.
#[derive(Debug, Copy, Clone)]
pub struct SpacerLayout;

impl SpacerLayout {
    /// The size of a spacer in `constraints`.
    pub fn size(&self, constraints: &Constraints) -> (r: Size)
        ensures
            r == (Size { width: constraints.min_w(), height: constraints.min_h() }),
    {
        Size::new(constraints.min_width(), constraints.min_height())
    }
}

} // verus!
