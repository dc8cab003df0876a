//! Padding, axes, and the layout of a border around a single child.
use vstd::prelude::*;

use crate::constraints::{lemma_same_bounds, min_usize, padded_bounds, Constraints};
use crate::geometry::{Pos, Size};

verus! {

/// The axis a layout places its children along.
#[derive(Debug, Copy, Clone, PartialEq, Eq, Structural)]
pub enum Axis {
    Horizontal,
    Vertical,
}

/// Padding around the content of a widget, in cells on each side.
#[derive(Debug, Copy, Clone, PartialEq, Eq, Structural)]
pub struct Padding {
    pub top: usize,
    pub right: usize,
    pub bottom: usize,
    pub left: usize,
}

impl Padding {
    /// No padding on any side.
    pub fn zero() -> (r: Self)
        ensures
            r == (Padding { top: 0, right: 0, bottom: 0, left: 0 }),
    {
        Padding { top: 0, right: 0, bottom: 0, left: 0 }
    }

    /// The same padding on every side.
    pub fn new(padding: usize) -> (r: Self)
        ensures
            r == (Padding { top: padding, right: padding, bottom: padding, left: padding }),
    {
        Padding { top: padding, right: padding, bottom: padding, left: padding }
    }

    /// The padding of each axis adds up without overflow.
    pub open spec fn fits(self) -> bool {
        self.left + self.right <= usize::MAX && self.top + self.bottom <= usize::MAX
    }

    /// The room the padding takes up: left and right, top and bottom.
    pub open spec fn spec_size(self) -> Size {
        Size { width: (self.left + self.right) as usize, height: (self.top + self.bottom) as usize }
    }

    /// The room the padding takes up: left and right, top and bottom.
    pub fn size(&self) -> (r: Size)
        requires
            self.fits(),
        ensures
            r == self.spec_size(),
    {
        if *self != Padding::zero() {
            Size::new(self.left + self.right, self.top + self.bottom)
        } else {
            Size::zero()
        }
    }
}

/// The padding of a padding widget, read from its attributes.
#[derive(Debug, Copy, Clone, PartialEq, Eq, Structural)]
pub struct PaddingValues {
    pub left: u32,
    pub top: u32,
    pub right: u32,
    pub bottom: u32,
}

/// A value, or `default` when there is none.
pub open spec fn or_default(v: Option<u32>, default: u32) -> u32 {
    match v {
        Some(x) => x,
        None => default,
    }
}

/// A value, or `default` when there is none.
fn unwrap_or_u32(v: Option<u32>, default: u32) -> (r: u32)
    ensures
        r == or_default(v, default),
{
    match v {
        Some(x) => x,
        None => default,
    }
}

impl PaddingValues {
    /// The padding from the attributes `padding`, `left`, `right`, `top` and `bottom`: each side
    /// takes its own attribute, or else `padding`, or else zero.
    pub fn new(
        padding: Option<u32>,
        left: Option<u32>,
        right: Option<u32>,
        top: Option<u32>,
        bottom: Option<u32>,
    ) -> (r: Self)
        ensures
            r.left == or_default(left, or_default(padding, 0)),
            r.right == or_default(right, or_default(padding, 0)),
            r.top == or_default(top, or_default(padding, 0)),
            r.bottom == or_default(bottom, or_default(padding, 0)),
    {
        let padding = unwrap_or_u32(padding, 0);
        Self {
            left: unwrap_or_u32(left, padding),
            top: unwrap_or_u32(top, padding),
            right: unwrap_or_u32(right, padding),
            bottom: unwrap_or_u32(bottom, padding),
        }
    }

    /// The room the padding takes: left and right, top and bottom.
    pub fn size(&self) -> (r: Size)
        requires
            self.left + self.right <= u32::MAX,
            self.top + self.bottom <= u32::MAX,
        ensures
            r == (Size {
                width: (self.left + self.right) as usize,
                height: (self.top + self.bottom) as usize,
            }),
    {
        let width: u32 = self.left + self.right;
        let height: u32 = self.top + self.bottom;
        Size::new(width as usize, height as usize)
    }

    /// Where the child starts, relative to the widget: past the left and top padding (as `i32`,
    /// cut to 32 bits).
    pub fn top_left(&self) -> (r: Pos)
        ensures
            r == (Pos { x: self.left as i32, y: self.top as i32 }),
    {
        #[verifier::truncate]
        let x: i32 = self.left as i32;
        #[verifier::truncate]
        let y: i32 = self.top as i32;
        Pos::new(x, y)
    }
}

/// The size of a widget once its attributes are applied to the size of its content: a fixed
/// `width` replaces the width; otherwise a width below `min_width` is raised to it, but not past
/// the maximum width. The same goes for the height.
pub open spec fn fixed_size(
    size: Size,
    width: Option<usize>,
    min_width: Option<usize>,
    height: Option<usize>,
    min_height: Option<usize>,
    constraints: Constraints,
) -> Size {
    Size {
        width: match (width, min_width) {
            (Some(w), _) => w,
            (None, Some(m)) => if size.width < m {
                min_usize(m, constraints.max_w())
            } else {
                size.width
            },
            (None, None) => size.width,
        },
        height: match (height, min_height) {
            (Some(h), _) => h,
            (None, Some(m)) => if size.height < m {
                min_usize(m, constraints.max_h())
            } else {
                size.height
            },
            (None, None) => size.height,
        },
    }
}

/// Apply the `width`, `min_width`, `height` and `min_height` attributes of a widget to the size
/// of its content.
pub fn fix_size(
    size: Size,
    width: Option<usize>,
    min_width: Option<usize>,
    height: Option<usize>,
    min_height: Option<usize>,
    constraints: &Constraints,
) -> (r: Size)
    ensures
        r == fixed_size(size, width, min_width, height, min_height, *constraints),
{
    let mut size = size;
    if let Some(w) = width {
        size.width = w;
    } else if let Some(m) = min_width {
        if size.width < m {
            size.width = if m <= constraints.max_width() { m } else { constraints.max_width() };
        }
    }
    if let Some(h) = height {
        size.height = h;
    } else if let Some(m) = min_height {
        if size.height < m {
            size.height = if m <= constraints.max_height() { m } else { constraints.max_height() };
        }
    }
    size
}

/// Why a layout could not place its children.
#[derive(Debug, Copy, Clone, PartialEq, Eq, Structural)]
pub enum LayoutError {
    /// There is not enough room left for the child.
    InsufficientSpaceAvailble,
}

/// `value`, raised to `floor` when there is one.
pub open spec fn at_least(value: usize, floor: Option<usize>) -> usize {
    match floor {
        Some(m) => if value >= m {
            value
        } else {
            m
        },
        None => value,
    }
}

/// `value` raised to `floor` when there is one.
fn raise_to(value: usize, floor: Option<usize>) -> (r: usize)
    ensures
        r == at_least(value, floor),
{
    match floor {
        Some(m) => if value >= m {
            value
        } else {
            m
        },
        None => value,
    }
}

/// The layout of a border: it holds at most one child and adds the size of the border (and the
/// padding) around it.
#[derive(Debug, Copy, Clone)]
pub struct BorderLayout {
    pub min_width: Option<usize>,
    pub min_height: Option<usize>,
    pub width: Option<usize>,
    pub height: Option<usize>,
    pub border_size: Size,
}

/// A border layout in progress.
///
/// `constraints` are the constraints of the border (then of its child), `padding_size` the room
/// taken by the padding, `width_tight` and `height_tight` whether the padded constraints were
/// tight, and `size` the size of the border once its child has been laid out (zero until then).
#[derive(Debug, Copy, Clone)]
pub struct BorderProgress {
    pub constraints: Constraints,
    pub padding_size: Size,
    pub width_tight: bool,
    pub height_tight: bool,
    pub size: Size,
}

/// The bounds of the child once the border is taken off, and whether the child can be laid out
/// in them. Taking the border off a maximum that is smaller than the border fails before that
/// maximum changes; the minimums are only lowered to the new maximums once both fit.
pub open spec fn border_child_bounds(
    b: (usize, usize, usize, usize),
    border: Size,
) -> ((usize, usize, usize, usize), bool) {
    if b.2 < border.width {
        (b, false)
    } else if b.3 < border.height {
        ((b.0, b.1, (b.2 - border.width) as usize, b.3), false)
    } else {
        let max_w = (b.2 - border.width) as usize;
        let max_h = (b.3 - border.height) as usize;
        ((min_usize(b.0, max_w), min_usize(b.1, max_h), max_w, max_h), max_w != 0 && max_h != 0)
    }
}

impl BorderLayout {
    /// The bounds of the border before the padding: the minimums are raised to `min_width` and
    /// `min_height`, and a fixed `width` or `height` makes that axis tight around the smaller
    /// of itself and the maximum.
    pub open spec fn adjusted_bounds(self, c: (usize, usize, usize, usize)) -> (
        usize,
        usize,
        usize,
        usize,
    ) {
        let min_w = at_least(c.0, self.min_width);
        let min_h = at_least(c.1, self.min_height);
        let (min_w, max_w) = match self.width {
            Some(w) => (min_usize(c.2, w), min_usize(c.2, w)),
            None => (min_w, c.2),
        };
        let (min_h, max_h) = match self.height {
            Some(h) => (min_usize(c.3, h), min_usize(c.3, h)),
            None => (min_h, c.3),
        };
        (min_w, min_h, max_w, max_h)
    }

    /// The size of the border around a child of size `inner`: the child, the border and the
    /// padding, raised to the minimum width and height.
    pub open spec fn outer_size(self, inner: Size, padding_size: Size) -> Size {
        Size {
            width: at_least(
                (inner.width + self.border_size.width + padding_size.width) as usize,
                self.min_width,
            ),
            height: at_least(
                (inner.height + self.border_size.height + padding_size.height) as usize,
                self.min_height,
            ),
        }
    }

    /// The size a border layout ends with: the size found for the child, or, when that is zero
    /// (no child, or none that could be laid out), the minimum size of the constraints, taking
    /// the maximum on each axis whose padded constraints were tight.
    pub open spec fn final_size(p: BorderProgress) -> Size {
        if p.size == Size::spec_zero() {
            Size {
                width: if p.width_tight {
                    p.constraints.max_w()
                } else {
                    p.constraints.min_w()
                },
                height: if p.height_tight {
                    p.constraints.max_h()
                } else {
                    p.constraints.min_h()
                },
            }
        } else {
            p.size
        }
    }

    /// Begin the layout: adjust the constraints to the fixed and minimum sizes, then take off the
    /// padding. `None` when the adjusted constraints are all zero: the border then has size zero.
    pub fn start(&self, constraints: Constraints, padding: Padding) -> (r: Option<BorderProgress>)
        requires
            padding.fits(),
        ensures
            r is None <==> self.adjusted_bounds(constraints.bounds()) == (0usize, 0usize, 0usize, 0usize),
            r matches Some(p) ==> {
                let b = padded_bounds(self.adjusted_bounds(constraints.bounds()), padding);
                &&& p.constraints.bounds() == b
                &&& p.padding_size == padding.spec_size()
                &&& p.width_tight == (b.2 == b.0)
                &&& p.height_tight == (b.3 == b.1)
                &&& p.size == Size::spec_zero()
            },
    {
        let mut constraints = constraints;
        constraints.set_min_width(raise_to(constraints.min_width(), self.min_width));
        constraints.set_min_height(raise_to(constraints.min_height(), self.min_height));
        if let Some(width) = self.width {
            constraints.make_width_tight(width);
        }
        if let Some(height) = self.height {
            constraints.make_height_tight(height);
        }
        let zero = Constraints::zero();
        if constraints == zero {
            return None;
        }
        proof {
            if constraints.bounds() == zero.bounds() {
                lemma_same_bounds(constraints, zero);
            }
        }
        constraints.apply_padding(padding);
        let padding_size = padding.size();
        let width_tight = constraints.is_width_tight();
        let height_tight = constraints.is_height_tight();
        Some(BorderProgress { constraints, padding_size, width_tight, height_tight, size: Size::zero() })
    }

    /// The constraints of the child: the border is taken off the maximums and the minimums are
    /// kept at or below them. Fails when the border does not fit, or leaves no room on an axis;
    /// the constraints of the layout are changed as far as the computation got.
    pub fn child_constraints(&self, progress: &mut BorderProgress) -> (r: Result<Constraints, LayoutError>)
        ensures
            ({
                let (b, ok) = border_child_bounds(old(progress).constraints.bounds(), self.border_size);
                &&& final(progress).constraints.bounds() == b
                &&& ok ==> (r matches Ok(c) && c.bounds() == b)
                &&& !ok ==> r == Err::<Constraints, LayoutError>(LayoutError::InsufficientSpaceAvailble)
            }),
            final(progress).padding_size == old(progress).padding_size,
            final(progress).width_tight == old(progress).width_tight,
            final(progress).height_tight == old(progress).height_tight,
            final(progress).size == old(progress).size,
    {
        let border_size = self.border_size;
        let max_width = match progress.constraints.max_width().checked_sub(border_size.width) {
            Some(w) => w,
            None => return Err(LayoutError::InsufficientSpaceAvailble),
        };
        progress.constraints.set_max_width(max_width);
        let max_height = match progress.constraints.max_height().checked_sub(border_size.height) {
            Some(h) => h,
            None => return Err(LayoutError::InsufficientSpaceAvailble),
        };
        progress.constraints.set_max_height(max_height);
        if progress.constraints.min_width() > progress.constraints.max_width() {
            progress.constraints.set_min_width(progress.constraints.max_width());
        }
        if progress.constraints.min_height() > progress.constraints.max_height() {
            progress.constraints.set_min_height(progress.constraints.max_height());
        }
        if progress.constraints.max_width() == 0 || progress.constraints.max_height() == 0 {
            return Err(LayoutError::InsufficientSpaceAvailble);
        }
        Ok(progress.constraints)
    }

    /// The child was laid out with size `inner`: the border takes the size of the child plus
    /// the border and the padding, at least its minimum width and height.
    pub fn child_size(&self, progress: &mut BorderProgress, inner: Size)
        requires
            inner.width + self.border_size.width + old(progress).padding_size.width <= usize::MAX,
            inner.height + self.border_size.height + old(progress).padding_size.height <= usize::MAX,
        ensures
            final(progress).size == self.outer_size(inner, old(progress).padding_size),
            final(progress).constraints == old(progress).constraints,
            final(progress).padding_size == old(progress).padding_size,
            final(progress).width_tight == old(progress).width_tight,
            final(progress).height_tight == old(progress).height_tight,
    {
        let width = inner.width + self.border_size.width + progress.padding_size.width;
        let height = inner.height + self.border_size.height + progress.padding_size.height;
        progress.size = Size::new(raise_to(width, self.min_width), raise_to(height, self.min_height));
    }

    /// The size of the border at the end of the layout.
    pub fn size(&self, progress: &BorderProgress) -> (r: Size)
        ensures
            r == Self::final_size(*progress),
    {
        if progress.size == Size::zero() {
            let mut size = Size::new(progress.constraints.min_width(), progress.constraints.min_height());
            if progress.width_tight {
                size.width = progress.constraints.max_width();
            }
            if progress.height_tight {
                size.height = progress.constraints.max_height();
            }
            size
        } else {
            progress.size
        }
    }
}

/// Once its child is laid out, a border is at least as large as its minimum size, and at least
/// as large as its child with the border and the padding around it.
pub proof fn law_border_encloses_child(layout: BorderLayout, inner: Size, padding_size: Size)
    requires
        inner.width + layout.border_size.width + padding_size.width <= usize::MAX,
        inner.height + layout.border_size.height + padding_size.height <= usize::MAX,
    ensures
        layout.outer_size(inner, padding_size).width >= inner.width + layout.border_size.width
            + padding_size.width,
        layout.outer_size(inner, padding_size).height >= inner.height + layout.border_size.height
            + padding_size.height,
        layout.min_width matches Some(m) ==> layout.outer_size(inner, padding_size).width >= m,
        layout.min_height matches Some(m) ==> layout.outer_size(inner, padding_size).height >= m,
{
}

/// How a border adjusts its constraints: a fixed width (or height) makes that axis tight at the
/// smaller of itself and the maximum; without one the maximum stays and the minimum is raised to
/// the border's minimum (never lowered).
pub proof fn law_adjusted_bounds(layout: BorderLayout, c: (usize, usize, usize, usize))
    ensures
        ({
            let b = layout.adjusted_bounds(c);
            &&& layout.width matches Some(w) ==> b.0 == b.2 && b.2 <= c.2 && b.2 <= w && (b.2 == c.2
                || b.2 == w)
            &&& layout.height matches Some(h) ==> b.1 == b.3 && b.3 <= c.3 && b.3 <= h && (b.3
                == c.3 || b.3 == h)
            &&& layout.width is None ==> b.2 == c.2 && b.0 >= c.0 && (layout.min_width matches Some(
                m,
            ) ==> b.0 >= m) && (b.0 == c.0 || layout.min_width == Some(b.0))
            &&& layout.height is None ==> b.3 == c.3 && b.1 >= c.1 && (layout.min_height matches Some(
                m,
            ) ==> b.1 >= m) && (b.1 == c.1 || layout.min_height == Some(b.1))
        }),
{
}

/// The child of a border gets the border's room less the border: when it can be laid out, each
/// maximum is smaller by exactly the border and neither is zero, and each minimum is at most its
/// maximum and at most what it was.
pub proof fn law_child_room_is_inside_border(b: (usize, usize, usize, usize), border: Size)
    ensures
        ({
            let (c, ok) = border_child_bounds(b, border);
            &&& ok ==> {
                &&& c.2 + border.width == b.2 && c.3 + border.height == b.3
                &&& c.2 > 0 && c.3 > 0
                &&& c.0 <= c.2 && c.1 <= c.3 && c.0 <= b.0 && c.1 <= b.1
            }
            &&& (b.2 < border.width || b.3 < border.height) ==> !ok
        }),
{
}

} // verus!
