//! Transitions of a value from a source to a destination over time.
use vstd::prelude::*;

use std::time::Duration;
use vstd::std_specs::cmp::PartialEqSpec;

verus! {

/// The duration `Duration::new` makes of whole seconds and nanoseconds.
pub uninterp spec fn duration_of_parts(secs: u64, nanos: u32) -> Duration;

/// `Duration::new` of std: the duration of `secs` seconds and `nanos` nanoseconds. With fewer
/// than a second of nanoseconds there is no carry into the seconds, which is the only way it
/// panics.
#[verifier::external_body]
fn duration_new(secs: u64, nanos: u32) -> (r: Duration)
    requires
        nanos < 1_000_000_000,
    ensures
        r == duration_of_parts(secs, nanos),
{
    Duration::new(secs, nanos)
}

/// No time at all.
pub open spec fn no_time() -> Duration {
    duration_of_parts(0, 0)
}

/// An animation (a transition) of a value: a source (the starting value), a destination (the
/// end value), an easing and a duration, and the time elapsed so far.
#[derive(Debug)]
pub struct Animation<T, E> {
    src: Option<T>,
    dst: Option<T>,
    easing: E,
    duration: Duration,
    elapsed: Duration,
}

/// Setting `dst` as the destination changes the animation: it has no destination, or one that
/// differs from `dst`.
pub open spec fn changes_destination<T: PartialEq>(current: Option<T>, dst: T) -> bool {
    !(current matches Some(curr) && dst.eq_spec(&curr))
}

impl<T: PartialEq, E> Animation<T, E> {
    /// The value the animation starts from.
    pub closed spec fn source(self) -> Option<T> {
        self.src
    }

    /// The value the animation goes to.
    pub closed spec fn destination(self) -> Option<T> {
        self.dst
    }

    /// The easing of the animation.
    pub closed spec fn easing_fn(self) -> E {
        self.easing
    }

    /// How long the animation runs.
    pub closed spec fn duration_of(self) -> Duration {
        self.duration
    }

    /// How long the animation has run so far.
    pub closed spec fn elapsed_of(self) -> Duration {
        self.elapsed
    }

    /// Create a new animation given a duration and an easing. A new animation will not
    /// progress until a source and destination have been set.
    pub fn new(duration: Duration, easing: E) -> (r: Self)
        ensures
            r.source() is None,
            r.destination() is None,
            r.easing_fn() == easing,
            r.duration_of() == duration,
            r.elapsed_of() == no_time(),
    {
        Self { src: None, dst: None, duration, elapsed: duration_new(0, 0), easing }
    }

    /// Set the destination value. Returns `true` if the value was changed: a destination equal
    /// to the current one changes nothing; otherwise the current destination (if any) becomes
    /// the source, `dst` the destination, and the elapsed time starts again.
    pub fn set_dst(&mut self, dst: T) -> (r: bool)
        ensures
            !r ==> old(self).destination() is Some && *final(self) == *old(self),
            r ==> {
                &&& final(self).destination() == Some(dst)
                &&& final(self).source() == if old(self).destination() is Some {
                    old(self).destination()
                } else {
                    old(self).source()
                }
                &&& final(self).elapsed_of() == no_time()
                &&& final(self).duration_of() == old(self).duration_of()
                &&& final(self).easing_fn() == old(self).easing_fn()
            },
            T::obeys_eq_spec() ==> (r == changes_destination(old(self).destination(), dst)),
    {
        let same = match &self.dst {
            Some(curr) => dst.eq(curr),
            None => false,
        };
        if same {
            return false;
        }
        if self.dst.is_some() {
            self.src = self.dst.take();
        }
        self.dst = Some(dst);
        self.elapsed = duration_new(0, 0);
        true
    }

    /// Set the source of the transition: where it will transition from. The destination, the
    /// time and the easing stay as they are.
    pub fn set_src(&mut self, src: T)
        ensures
            final(self).source() == Some(src),
            final(self).destination() == old(self).destination(),
            final(self).elapsed_of() == old(self).elapsed_of(),
            final(self).duration_of() == old(self).duration_of(),
            final(self).easing_fn() == old(self).easing_fn(),
    {
        self.src = Some(src);
    }
}

/// Once `dst` is the destination, setting it again changes nothing (`set_dst` returns `false`
/// and leaves the animation as it was), for values whose equality is reflexive on `dst`.
pub proof fn law_same_destination_is_no_change<T: PartialEq, E>(a: Animation<T, E>, dst: T)
    requires
        a.destination() == Some(dst),
        dst.eq_spec(&dst),
    ensures
        !changes_destination(a.destination(), dst),
{
}

} // verus!
