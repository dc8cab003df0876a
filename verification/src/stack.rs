//! Layouts of children that lie on top of each other, or of a single child.
use vstd::prelude::*;

use crate::constraints::{padded_bounds, Constraints};
use crate::geometry::Size;
use crate::layout::Padding;
use crate::many::max_usize;

verus! {

/// The size of children stacked on top of each other: the widest width and the tallest height.
pub open spec fn stacked_size(sizes: Seq<Size>) -> Size
    decreases sizes.len(),
{
    if sizes.len() == 0 {
        Size::spec_zero()
    } else {
        let rest = stacked_size(sizes.drop_last());
        Size {
            width: max_usize(rest.width, sizes.last().width),
            height: max_usize(rest.height, sizes.last().height),
        }
    }
}

/// A layout where every child is laid out in the same (padded) constraints, on top of each other.
#[derive(Debug, Copy, Clone)]
pub struct Stacked;

impl Stacked {
    /// The constraints of every child: the constraints of the layout, less the padding.
    pub fn child_constraints(&self, constraints: Constraints, padding: Padding) -> (r: Constraints)
        requires
            padding.fits(),
        ensures
            r.bounds() == padded_bounds(constraints.bounds(), padding),
    {
        let mut constraints = constraints;
        constraints.apply_padding(padding);
        constraints
    }

    /// The size of the layout: as wide as the widest child and as tall as the tallest.
    pub fn size(&self, sizes: &Vec<Size>) -> (r: Size)
        ensures
            r == stacked_size(sizes@),
    {
        let mut width: usize = 0;
        let mut height: usize = 0;
        let mut i: usize = 0;
        while i < sizes.len()
            invariant
                i <= sizes.len(),
                (Size { width, height }) == stacked_size(sizes@.take(i as int)),
            decreases sizes.len() - i,
        {
            proof {
                assert(sizes@.take(i as int + 1).drop_last() =~= sizes@.take(i as int));
            }
            let s = sizes[i];
            if s.width > width {
                width = s.width;
            }
            if s.height > height {
                height = s.height;
            }
            i = i + 1;
        }
        proof {
            assert(sizes@.take(i as int) =~= sizes@);
        }
        Size { width, height }
    }
}

/// A layout of one child, laid out in the constraints of the layout.
#[derive(Debug, Copy, Clone)]
pub struct Single;

impl Single {
    /// The size of the layout: the size of its child, or zero when there is none.
    pub fn size(&self, child: Option<Size>) -> (r: Size)
        ensures
            r == match child {
                Some(s) => s,
                None => Size::spec_zero(),
            },
    {
        match child {
            Some(s) => s,
            None => Size::zero(),
        }
    }
}

/// A widget that holds at most one child and takes its size.
#[derive(Debug, Copy, Clone)]
pub struct Container;

impl Container {
    /// The size of the container: that of its child, or the minimum size of its constraints
    /// when it has none.
    pub fn size(&self, constraints: &Constraints, child: Option<Size>) -> (r: Size)
        ensures
            r == match child {
                Some(s) => s,
                None => Size { width: constraints.min_w(), height: constraints.min_h() },
            },
    {
        match child {
            Some(s) => s,
            None => Size::new(constraints.min_width(), constraints.min_height()),
        }
    }
}

/// No child of a stack is wider or taller than the stack.
pub proof fn law_stacked_covers_every_child(sizes: Seq<Size>, i: int)
    requires
        0 <= i < sizes.len(),
    ensures
        sizes[i].width <= stacked_size(sizes).width,
        sizes[i].height <= stacked_size(sizes).height,
    decreases sizes.len(),
{
    if i < sizes.len() - 1 {
        law_stacked_covers_every_child(sizes.drop_last(), i);
    }
}

} // verus!
