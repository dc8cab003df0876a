//! Layout constraints: the bounds within which a widget sizes itself.
use vstd::prelude::*;

use crate::geometry::Size;
use crate::layout::Padding;

verus! {

/// `max - by`, clamped at zero.
pub open spec fn saturating_sub(max: usize, by: usize) -> usize {
    if max >= by {
        (max - by) as usize
    } else {
        0
    }
}

/// The smaller of two values.
pub open spec fn min_usize(a: usize, b: usize) -> usize {
    if a <= b {
        a
    } else {
        b
    }
}

/// The `(min, max)` pair that results from taking `by` off a bounded maximum:
/// the maximum is reduced (down to zero) and the minimum is kept at or below it.
/// An unbounded maximum (`usize::MAX`) is left as it is.
pub open spec fn shrink(min: usize, max: usize, by: usize) -> (usize, usize) {
    if max < usize::MAX {
        let new_max = saturating_sub(max, by);
        (min_usize(min, new_max), new_max)
    } else {
        (min, max)
    }
}

/// `Constraints` are used to ensure that a widget doesn't size itself outside of a set of given
/// bounds. A constraint can be tight, meaning the minimum and maximum width / height are the same.
#[derive(Debug, Copy, Clone, PartialEq, Eq, Structural)]
pub struct Constraints {
    /// Minimum width.
    pub min_width: usize,
    /// Minimum height.
    pub min_height: usize,
    /// Max width.
    max_width: usize,
    /// Max height.
    max_height: usize,
}

impl Constraints {
    /// The minimum width.
    pub closed spec fn min_w(&self) -> usize {
        self.min_width
    }

    /// The minimum height.
    pub closed spec fn min_h(&self) -> usize {
        self.min_height
    }

    /// The maximum width.
    pub closed spec fn max_w(&self) -> usize {
        self.max_width
    }

    /// The maximum height.
    pub closed spec fn max_h(&self) -> usize {
        self.max_height
    }

    /// The four bounds, in the order minimum width, minimum height, maximum width, maximum
    /// height.
    pub open spec fn bounds(&self) -> (usize, usize, usize, usize) {
        (self.min_w(), self.min_h(), self.max_w(), self.max_h())
    }

    /// Constraints with every bound at zero.
    pub fn zero() -> (c: Self)
        ensures
            c.min_w() == 0,
            c.min_h() == 0,
            c.max_w() == 0,
            c.max_h() == 0,
    {
        Self { min_width: 0, min_height: 0, max_width: 0, max_height: 0 }
    }

    /// The min width.
    pub fn min_width(&self) -> (r: usize)
        ensures
            r == self.min_w(),
    {
        self.min_width
    }

    /// The min height.
    pub fn min_height(&self) -> (r: usize)
        ensures
            r == self.min_h(),
    {
        self.min_height
    }

    /// Set the min width; nothing checks it against the max width.
    pub fn set_min_width(&mut self, width: usize)
        ensures
            final(self).min_w() == width,
            final(self).min_h() == old(self).min_h(),
            final(self).max_w() == old(self).max_w(),
            final(self).max_h() == old(self).max_h(),
    {
        self.min_width = width;
    }

    /// Set the min height; nothing checks it against the max height.
    pub fn set_min_height(&mut self, height: usize)
        ensures
            final(self).min_h() == height,
            final(self).min_w() == old(self).min_w(),
            final(self).max_w() == old(self).max_w(),
            final(self).max_h() == old(self).max_h(),
    {
        self.min_height = height;
    }

    /// The max height.
    pub fn max_height(&self) -> (r: usize)
        ensures
            r == self.max_h(),
    {
        self.max_height
    }

    /// The max width.
    pub fn max_width(&self) -> (r: usize)
        ensures
            r == self.max_w(),
    {
        self.max_width
    }

    /// Subtract `width` from the max width, as long as the width isn't unbounded.
    pub fn sub_max_width(&mut self, width: usize)
        ensures
            (final(self).min_w(), final(self).max_w()) == shrink(
                old(self).min_w(),
                old(self).max_w(),
                width,
            ),
            final(self).min_h() == old(self).min_h(),
            final(self).max_h() == old(self).max_h(),
    {
        if self.max_width < usize::MAX {
            self.max_width = self.max_width.saturating_sub(width);
            self.min_width = if self.min_width <= self.max_width { self.min_width } else { self.max_width };
        }
    }

    /// Subtract `height` from the max height, as long as the height isn't unbounded.
    pub fn sub_max_height(&mut self, height: usize)
        ensures
            (final(self).min_h(), final(self).max_h()) == shrink(
                old(self).min_h(),
                old(self).max_h(),
                height,
            ),
            final(self).min_w() == old(self).min_w(),
            final(self).max_w() == old(self).max_w(),
    {
        if self.max_height < usize::MAX {
            self.max_height = self.max_height.saturating_sub(height);
            self.min_height = if self.min_height <= self.max_height { self.min_height } else { self.max_height };
        }
    }

    /// Create a set of constraints with a given max width / height.
    /// If `None` is passed for either `max_width` and / or `max_height` then this is qualified as
    /// "unbounded" constraints.
    ///
    /// The `min_width` and `min_height` are zero by default.
    pub fn new(max_width: Option<usize>, max_height: Option<usize>) -> (c: Self)
        ensures
            c.min_w() == 0,
            c.min_h() == 0,
            c.max_w() == match max_width {
                Some(w) => w,
                None => usize::MAX,
            },
            c.max_h() == match max_height {
                Some(h) => h,
                None => usize::MAX,
            },
    {
        let max_width = match max_width {
            Some(w) => w,
            None => usize::MAX,
        };
        let max_height = match max_height {
            Some(h) => h,
            None => usize::MAX,
        };
        Self { min_width: 0, min_height: 0, max_width, max_height }
    }

    /// Create unbounded constraints.
    pub fn unbounded() -> (c: Self)
        ensures
            c.min_w() == 0,
            c.min_h() == 0,
            c.max_w() == usize::MAX,
            c.max_h() == usize::MAX,
    {
        Self { min_width: 0, min_height: 0, max_width: usize::MAX, max_height: usize::MAX }
    }

    /// Make the height unbounded.
    pub fn unbound_height(&mut self)
        ensures
            final(self).max_h() == usize::MAX,
            final(self).max_w() == old(self).max_w(),
            final(self).min_w() == old(self).min_w(),
            final(self).min_h() == old(self).min_h(),
    {
        self.max_height = usize::MAX;
    }

    /// Make the width unbounded.
    pub fn unbound_width(&mut self)
        ensures
            final(self).max_w() == usize::MAX,
            final(self).max_h() == old(self).max_h(),
            final(self).min_w() == old(self).min_w(),
            final(self).min_h() == old(self).min_h(),
    {
        self.max_width = usize::MAX;
    }

    /// Returns true if the width and height is unbounded.
    pub fn is_unbounded(&self) -> (r: bool)
        ensures
            r == (self.max_w() == usize::MAX && self.max_h() == usize::MAX),
    {
        self.is_width_unbounded() && self.is_height_unbounded()
    }

    /// Returns true if the width is unbounded.
    pub fn is_width_unbounded(&self) -> (r: bool)
        ensures
            r == (self.max_w() == usize::MAX),
    {
        self.max_width == usize::MAX
    }

    /// Returns true if the height is unbounded.
    pub fn is_height_unbounded(&self) -> (r: bool)
        ensures
            r == (self.max_h() == usize::MAX),
    {
        self.max_height == usize::MAX
    }

    /// Returns true if the `min_width` and `max_width` are the same.
    pub fn is_width_tight(&self) -> (r: bool)
        ensures
            r == (self.max_w() == self.min_w()),
    {
        self.max_width == self.min_width
    }

    /// Returns true if the `min_height` and `max_height` are the same.
    pub fn is_height_tight(&self) -> (r: bool)
        ensures
            r == (self.max_h() == self.min_h()),
    {
        self.max_height == self.min_height
    }

    /// Make the width constraint tight: the max width becomes the smaller of itself and `width`,
    /// and the min width becomes the max width.
    pub fn make_width_tight(&mut self, width: usize)
        ensures
            final(self).max_w() == min_usize(old(self).max_w(), width),
            final(self).min_w() == final(self).max_w(),
            final(self).max_h() == old(self).max_h(),
            final(self).min_h() == old(self).min_h(),
    {
        self.max_width = if self.max_width <= width { self.max_width } else { width };
        self.min_width = self.max_width;
    }

    /// Make the height constraint tight: the max height becomes the smaller of itself and
    /// `height`, and the min height becomes the max height.
    pub fn make_height_tight(&mut self, height: usize)
        ensures
            final(self).max_h() == min_usize(old(self).max_h(), height),
            final(self).min_h() == final(self).max_h(),
            final(self).max_w() == old(self).max_w(),
            final(self).min_w() == old(self).min_w(),
    {
        self.max_height = if self.max_height <= height { self.max_height } else { height };
        self.min_height = self.max_height;
    }

    /// Set the width of `size` to the max width.
    pub fn expand_horz(&mut self, size: Size) -> (r: Size)
        ensures
            r.width == old(self).max_w(),
            r.height == size.height,
            *final(self) == *old(self),
    {
        let mut size = size;
        size.width = self.max_width;
        size
    }

    /// Set the height of `size` to the max height.
    pub fn expand_vert(&mut self, size: Size) -> (r: Size)
        ensures
            r.width == size.width,
            r.height == old(self).max_h(),
            *final(self) == *old(self),
    {
        let mut size = size;
        size.height = self.max_height;
        size
    }

    /// Set both the width and the height of `size` to the max width and height.
    pub fn expand_all(&mut self, size: Size) -> (r: Size)
        ensures
            r.width == old(self).max_w(),
            r.height == old(self).max_h(),
            *final(self) == *old(self),
    {
        let size = self.expand_horz(size);
        self.expand_vert(size)
    }

    /// This function does not verify anything, but simply sets the max width.
    /// There is no check to see if the max width is smaller than the min width here.
    pub fn set_max_width(&mut self, width: usize)
        ensures
            final(self).max_w() == width,
            final(self).max_h() == old(self).max_h(),
            final(self).min_w() == old(self).min_w(),
            final(self).min_h() == old(self).min_h(),
    {
        self.max_width = width;
    }

    /// This function does not verify anything, but simply sets the max height.
    /// There is no check to see if the max height is smaller than the min height here.
    pub fn set_max_height(&mut self, height: usize)
        ensures
            final(self).max_h() == height,
            final(self).max_w() == old(self).max_w(),
            final(self).min_w() == old(self).min_w(),
            final(self).min_h() == old(self).min_h(),
    {
        self.max_height = height;
    }

    /// Divide the max width by `width`.
    pub fn div_assign_max_width(&mut self, width: usize)
        requires
            width != 0,
        ensures
            final(self).max_w() == old(self).max_w() / width,
            final(self).max_h() == old(self).max_h(),
            final(self).min_w() == old(self).min_w(),
            final(self).min_h() == old(self).min_h(),
    {
        self.max_width = self.max_width / width;
    }

    /// Divide the max height by `height`.
    pub fn div_assign_max_height(&mut self, height: usize)
        requires
            height != 0,
        ensures
            final(self).max_h() == old(self).max_h() / height,
            final(self).max_w() == old(self).max_w(),
            final(self).min_w() == old(self).min_w(),
            final(self).min_h() == old(self).min_h(),
    {
        self.max_height = self.max_height / height;
    }

    /// If either the max width or max height are zero then nothing can be laid out within the
    /// given constraint.
    pub fn has_zero_dimension(&self) -> (r: bool)
        ensures
            r == (self.max_w() == 0 || self.max_h() == 0),
    {
        self.max_width == 0 || self.max_height == 0
    }

    /// Get a size from the max width / height.
    pub fn max_size(&self) -> (s: Size)
        ensures
            s.width == self.max_w(),
            s.height == self.max_h(),
    {
        Size { width: self.max_width, height: self.max_height }
    }
}

impl Constraints {
    /// Shrink the maximum width and height by the padding (down to zero), keeping each minimum
    /// at or below its maximum. Constraints are left as they are when there is no padding.
    pub fn apply_padding(&mut self, padding: Padding)
        requires
            padding.fits(),
        ensures
            final(self).bounds() == padded_bounds(old(self).bounds(), padding),
    {
        if padding != Padding::zero() {
            self.max_width = self.max_width.saturating_sub(padding.left + padding.right);
            self.min_width = if self.min_width <= self.max_width { self.min_width } else { self.max_width };
            self.max_height = self.max_height.saturating_sub(padding.top + padding.bottom);
            self.min_height = if self.min_height <= self.max_height { self.min_height } else { self.max_height };
        }
    }
}

/// The bounds `(min width, min height, max width, max height)` once the padding is taken off:
/// each maximum loses the padding on its axis (down to zero) and each minimum is kept at or
/// below its maximum. Without padding the bounds stay as they are.
pub open spec fn padded_bounds(b: (usize, usize, usize, usize), padding: Padding) -> (usize, usize, usize, usize) {
    if padding == (Padding { top: 0, right: 0, bottom: 0, left: 0 }) {
        b
    } else {
        let max_w = saturating_sub(b.2, (padding.left + padding.right) as usize);
        let max_h = saturating_sub(b.3, (padding.top + padding.bottom) as usize);
        (min_usize(b.0, max_w), min_usize(b.1, max_h), max_w, max_h)
    }
}

/// Two constraints with the same bounds are the same constraints.
pub proof fn lemma_same_bounds(a: Constraints, b: Constraints)
    requires
        a.bounds() == b.bounds(),
    ensures
        a == b,
{
}

impl Default for Constraints {
    /// Constraints with every bound at zero.
    fn default() -> (c: Self)
        ensures
            c.min_w() == 0,
            c.min_h() == 0,
            c.max_w() == 0,
            c.max_h() == 0,
    {
        Self::zero()
    }
}

impl From<Size> for Constraints {
    /// Bounded constraints with the size as the maximum and zero as the minimum.
    fn from(value: Size) -> (c: Self) {
        Self::new(Some(value.width), Some(value.height))
    }
}

impl vstd::std_specs::convert::FromSpecImpl<Size> for Constraints {
    open spec fn obeys_from_spec() -> bool {
        true
    }

    open spec fn from_spec(v: Size) -> Constraints {
        Constraints::from_size(v)
    }
}

impl Constraints {
    /// The constraints made from a size: that size as the maximum, zero as the minimum.
    pub closed spec fn from_size(v: Size) -> Constraints {
        Constraints { min_width: 0, min_height: 0, max_width: v.width, max_height: v.height }
    }
}

/// Taking something off a bounded maximum never leaves the minimum above the maximum.
pub proof fn law_shrink_keeps_min_within_max(min: usize, max: usize, by: usize)
    requires
        max < usize::MAX,
    ensures
        shrink(min, max, by).0 <= shrink(min, max, by).1,
        shrink(min, max, by).1 <= max,
        shrink(min, max, by).0 <= min,
{
}

/// An unbounded maximum is never reduced.
pub proof fn law_shrink_unbounded_is_identity(min: usize, by: usize)
    ensures
        shrink(min, usize::MAX, by) == (min, usize::MAX),
{
}

/// Taking `a` and then `b` off the maximum is the same as taking `a + b` off at once.
pub proof fn law_shrink_composes(min: usize, max: usize, a: usize, b: usize)
    requires
        a + b <= usize::MAX,
    ensures
        ({
            let once = shrink(min, max, a);
            shrink(once.0, once.1, b) == shrink(min, max, (a + b) as usize)
        }),
{
}

} // verus!
