//! Which widgets take part in layout and positioning.
use vstd::prelude::*;

use crate::display::Display;

verus! {

/// What a filter does with a widget: include it (and filter its children with the given
/// filter), skip it but look at its children, or exclude it with all its children.
#[derive(Debug, Copy, Clone, PartialEq, Eq, Structural)]
pub enum FilterOutput<F> {
    Include(F),
    Continue,
    Exclude,
}

/// Which widgets to position.
#[derive(Debug, Copy, Clone, PartialEq, Eq, Structural)]
pub enum WidgetPositionFilter {
    /// Widgets that are not floating (a floating widget is included, its children are not).
    Fixed,
    /// Floating widgets and everything below them.
    Floating,
    /// Every widget.
    All,
    /// No widget.
    Nothing,
}

/// Filters the elements to position.
#[derive(Debug, Copy, Clone, PartialEq, Eq, Structural)]
pub struct PositionFilter(pub WidgetPositionFilter);

/// What positioning does with an element shown as `display`, floating or not.
pub open spec fn position_filter_output(
    filter: WidgetPositionFilter,
    display: Display,
    floating: bool,
) -> FilterOutput<PositionFilter> {
    match display {
        Display::Show => match filter {
            WidgetPositionFilter::Floating => if floating {
                FilterOutput::Include(PositionFilter(WidgetPositionFilter::All))
            } else {
                FilterOutput::Continue
            },
            WidgetPositionFilter::Fixed => if floating {
                FilterOutput::Include(PositionFilter(WidgetPositionFilter::Nothing))
            } else {
                FilterOutput::Include(PositionFilter(WidgetPositionFilter::Fixed))
            },
            WidgetPositionFilter::All => FilterOutput::Include(PositionFilter(WidgetPositionFilter::All)),
            WidgetPositionFilter::Nothing => FilterOutput::Exclude,
        },
        Display::Hide | Display::Exclude => FilterOutput::Exclude,
    }
}

impl PositionFilter {
    /// Position widgets that are not floating.
    pub fn fixed() -> (r: Self)
        ensures
            r == PositionFilter(WidgetPositionFilter::Fixed),
    {
        Self(WidgetPositionFilter::Fixed)
    }

    /// Position floating widgets and everything below them.
    pub fn floating() -> (r: Self)
        ensures
            r == PositionFilter(WidgetPositionFilter::Floating),
    {
        Self(WidgetPositionFilter::Floating)
    }

    /// Position every widget.
    pub fn all() -> (r: Self)
        ensures
            r == PositionFilter(WidgetPositionFilter::All),
    {
        Self(WidgetPositionFilter::All)
    }

    /// Position no widget.
    pub fn none() -> (r: Self)
        ensures
            r == PositionFilter(WidgetPositionFilter::Nothing),
    {
        Self(WidgetPositionFilter::Nothing)
    }

    /// What to do with an element, given how it is displayed and whether it floats.
    pub fn filter_element(&self, display: Display, floating: bool) -> (r: FilterOutput<PositionFilter>)
        ensures
            r == position_filter_output(self.0, display, floating),
    {
        match display {
            Display::Show => match self.0 {
                WidgetPositionFilter::Floating => if floating {
                    FilterOutput::Include(Self::all())
                } else {
                    FilterOutput::Continue
                },
                WidgetPositionFilter::Fixed => if floating {
                    FilterOutput::Include(Self::none())
                } else {
                    FilterOutput::Include(*self)
                },
                WidgetPositionFilter::All => FilterOutput::Include(*self),
                WidgetPositionFilter::Nothing => FilterOutput::Exclude,
            },
            Display::Hide | Display::Exclude => FilterOutput::Exclude,
        }
    }
}

/// Filters the elements to lay out: excluded elements take no part.
#[derive(Debug, Copy, Clone, PartialEq, Eq, Structural)]
pub struct LayoutFilter;

impl LayoutFilter {
    /// What to do with an element, given how it is displayed.
    pub fn filter_element(&self, display: Display) -> (r: FilterOutput<LayoutFilter>)
        ensures
            r == match display {
                Display::Show | Display::Hide => FilterOutput::Include(LayoutFilter),
                Display::Exclude => FilterOutput::Exclude,
            },
    {
        match display {
            Display::Show | Display::Hide => FilterOutput::Include(*self),
            Display::Exclude => FilterOutput::Exclude,
        }
    }
}

/// Nothing below a floating element is positioned in the fixed pass, and the floating pass
/// positions everything below a floating element that is shown.
pub proof fn law_fixed_pass_stops_at_floating(display: Display, child_display: Display, child_floating: bool)
    ensures
        position_filter_output(WidgetPositionFilter::Fixed, display, true) matches FilterOutput::Include(f)
            ==> position_filter_output(f.0, child_display, child_floating) == FilterOutput::<PositionFilter>::Exclude,
        position_filter_output(WidgetPositionFilter::Floating, display, true) matches FilterOutput::Include(f)
            ==> (child_display == Display::Show ==> position_filter_output(f.0, child_display, child_floating) is Include),
{
}

/// Hidden and excluded elements are never positioned, whatever the filter.
pub proof fn law_hidden_never_positioned(filter: WidgetPositionFilter, floating: bool)
    ensures
        position_filter_output(filter, Display::Hide, floating) == FilterOutput::<PositionFilter>::Exclude,
        position_filter_output(filter, Display::Exclude, floating) == FilterOutput::<PositionFilter>::Exclude,
{
}

/// Filters the widgets to paint, reading their attributes from `attributes`; floating widgets
/// are left out when `ignore_floats` is set.
#[derive(Debug)]
pub struct PaintFilter<'frame, A> {
    attributes: &'frame A,
    ignore_floats: bool,
}

impl<'frame, A> PaintFilter<'frame, A> {
    /// The attributes the filter reads.
    pub closed spec fn attribute_store(self) -> &'frame A {
        self.attributes
    }

    /// Whether floating widgets are left out.
    pub closed spec fn ignores_floats(self) -> bool {
        self.ignore_floats
    }

    /// A paint filter over `attributes`.
    pub fn new(ignore_floats: bool, attributes: &'frame A) -> (r: Self)
        ensures
            r.ignores_floats() == ignore_floats,
            r.attribute_store() == attributes,
    {
        Self { attributes, ignore_floats }
    }
}

} // verus!
