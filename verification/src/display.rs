//! Whether a widget is shown, hidden (laid out but not drawn) or excluded.
use vstd::prelude::*;

use crate::strings::str_eq;

verus! {

/// The name of the display attribute.
pub const DISPLAY: &'static str = "display";

/// How a widget takes part in layout and painting.
#[derive(Debug, Copy, Clone, PartialEq, Eq, Structural)]
pub enum Display {
    /// Laid out and painted.
    Show,
    /// Laid out but not painted.
    Hide,
    /// Neither laid out nor painted.
    Exclude,
}

impl Default for Display {
    /// Widgets are shown unless told otherwise.
    fn default() -> (r: Self)
        ensures
            r == Display::Show,
    {
        Display::Show
    }
}

/// The display a name stands for: `show`, `hide` or `exclude`.
pub open spec fn display_named(s: Seq<char>) -> Option<Display> {
    if s == "show"@ {
        Some(Display::Show)
    } else if s == "hide"@ {
        Some(Display::Hide)
    } else if s == "exclude"@ {
        Some(Display::Exclude)
    } else {
        None
    }
}

/// The name of a display.
pub open spec fn display_name(d: Display) -> Seq<char> {
    match d {
        Display::Show => "show"@,
        Display::Hide => "hide"@,
        Display::Exclude => "exclude"@,
    }
}

impl Display {
    /// Parse a display from its name; any other string is refused.
    pub fn from_name(s: &str) -> (r: Result<Display, ()>)
        ensures
            r == match display_named(s@) {
                Some(d) => Ok(d),
                None => Err::<Display, ()>(()),
            },
    {
        if str_eq(s, "show") {
            Ok(Display::Show)
        } else if str_eq(s, "hide") {
            Ok(Display::Hide)
        } else if str_eq(s, "exclude") {
            Ok(Display::Exclude)
        } else {
            Err(())
        }
    }

    /// The name of the display.
    pub fn name(&self) -> (r: &'static str)
        ensures
            r@ == display_name(*self),
    {
        match self {
            Display::Show => "show",
            Display::Hide => "hide",
            Display::Exclude => "exclude",
        }
    }
}

/// A display read back from its name is the same display.
pub proof fn law_display_name_round_trip(d: Display)
    ensures
        display_named(display_name(d)) == Some(d),
{
    reveal_strlit("show");
    reveal_strlit("hide");
    reveal_strlit("exclude");
    assert("show"@[0] == 's' && "hide"@[0] == 'h');
    assert("exclude"@.len() == 7 && "show"@.len() == 4 && "hide"@.len() == 4);
}

} // verus!
