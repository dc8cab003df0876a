//! Commands for components, deferred until the components can be reached: each command holds a
//! filter that picks the components it is for.
use vstd::prelude::*;

use crate::attributes::Attributes;
use crate::strings::str_eq;
use crate::table::lookup;

verus! {

/// The value of an attribute, as far as a filter compares it. A float is held by the bits of
/// its `f64`.
#[derive(Debug)]
pub enum AttributeValue {
    Int(i64),
    Float(u64),
    Bool(bool),
    Char(char),
    Hex(u8, u8, u8),
    Str(String),
    Null,
    /// A map, a list or any other composite value.
    Other,
}

/// The bits of an `f64` encode a NaN: all exponent bits set and a mantissa that is not zero.
pub open spec fn is_nan_bits(bits: u64) -> bool {
    (bits & 0x7ff0_0000_0000_0000u64) == 0x7ff0_0000_0000_0000u64 && (bits
        & 0x000f_ffff_ffff_ffffu64) != 0
}

/// The bits of an `f64` encode zero (positive or negative).
pub open spec fn is_zero_bits(bits: u64) -> bool {
    (bits & 0x7fff_ffff_ffff_ffffu64) == 0
}

/// Two `f64` values, given by their bits, are equal as floats: a NaN equals nothing, the two
/// zeros are equal, and any other values are equal when their bits are.
pub open spec fn float_bits_eq(a: u64, b: u64) -> bool {
    !is_nan_bits(a) && !is_nan_bits(b) && (a == b || (is_zero_bits(a) && is_zero_bits(b)))
}

/// Whether two `f64` values, given by their bits, are equal as floats.
fn floats_equal(a: u64, b: u64) -> (r: bool)
    ensures
        r == float_bits_eq(a, b),
{
    let a_nan = (a & 0x7ff0_0000_0000_0000u64) == 0x7ff0_0000_0000_0000u64 && (a
        & 0x000f_ffff_ffff_ffffu64) != 0;
    let b_nan = (b & 0x7ff0_0000_0000_0000u64) == 0x7ff0_0000_0000_0000u64 && (b
        & 0x000f_ffff_ffff_ffffu64) != 0;
    let zeros = (a & 0x7fff_ffff_ffff_ffffu64) == 0 && (b & 0x7fff_ffff_ffff_ffffu64) == 0;
    !a_nan && !b_nan && (a == b || zeros)
}

/// Two attribute values are the same primitive: both integers, floats, booleans, characters,
/// colours or strings that are equal, or both null. Composite values never match.
pub open spec fn same_primitive(lhs: AttributeValue, rhs: AttributeValue) -> bool {
    match (lhs, rhs) {
        (AttributeValue::Int(a), AttributeValue::Int(b)) => a == b,
        (AttributeValue::Float(a), AttributeValue::Float(b)) => float_bits_eq(a, b),
        (AttributeValue::Bool(a), AttributeValue::Bool(b)) => a == b,
        (AttributeValue::Char(a), AttributeValue::Char(b)) => a == b,
        (AttributeValue::Hex(r1, g1, b1), AttributeValue::Hex(r2, g2, b2)) => r1 == r2 && g1 == g2
            && b1 == b2,
        (AttributeValue::Str(a), AttributeValue::Str(b)) => a@ == b@,
        (AttributeValue::Null, AttributeValue::Null) => true,
        _ => false,
    }
}

/// Whether two attribute values are the same primitive.
fn primitive_eq(lhs: &AttributeValue, rhs: &AttributeValue) -> (r: bool)
    ensures
        r == same_primitive(*lhs, *rhs),
{
    match (lhs, rhs) {
        (AttributeValue::Int(a), AttributeValue::Int(b)) => *a == *b,
        (AttributeValue::Float(a), AttributeValue::Float(b)) => floats_equal(*a, *b),
        (AttributeValue::Bool(a), AttributeValue::Bool(b)) => *a == *b,
        (AttributeValue::Char(a), AttributeValue::Char(b)) => *a == *b,
        (AttributeValue::Hex(r1, g1, b1), AttributeValue::Hex(r2, g2, b2)) => *r1 == *r2 && *g1
            == *g2 && *b1 == *b2,
        (AttributeValue::Str(a), AttributeValue::Str(b)) => str_eq(a.as_str(), b.as_str()),
        (AttributeValue::Null, AttributeValue::Null) => true,
        _ => false,
    }
}

/// What a filter reads of a component: its name and the id of its widget.
#[derive(Debug)]
pub struct ComponentInfo {
    pub name: String,
    pub widget_id: usize,
}

/// Which components a command is for.
#[derive(Debug)]
pub enum Filter {
    /// The components with this name.
    Name(String),
    /// The components whose attribute `key` is the same primitive as `value`.
    Attribute { key: String, value: AttributeValue },
    /// The component after passing over this many.
    Nth(usize),
    /// The components that pass both filters (the second is only asked about those that pass
    /// the first).
    Chain(Box<Filter>, Box<Filter>),
    /// The component of this widget.
    Id(usize),
}

/// What asking a filter about a component gives: the filter afterwards (an `Nth` counts down
/// for every component it passes over) and whether the component passes.
pub open spec fn filtered(
    f: Filter,
    component: ComponentInfo,
    attributes: Map<Seq<char>, AttributeValue>,
) -> (Filter, bool)
    decreases f,
{
    match f {
        Filter::Name(name) => (f, component.name@ == name@),
        Filter::Attribute { key, value } => (
            f,
            match lookup(attributes, key@) {
                Some(v) => same_primitive(v, value),
                None => false,
            },
        ),
        Filter::Nth(n) => if n == 0 {
            (f, true)
        } else {
            (Filter::Nth((n - 1) as usize), false)
        },
        Filter::Chain(first, second) => {
            let (first2, pass) = filtered(*first, component, attributes);
            if pass {
                let (second2, pass2) = filtered(*second, component, attributes);
                (Filter::Chain(Box::new(first2), Box::new(second2)), pass2)
            } else {
                (Filter::Chain(Box::new(first2), second), false)
            }
        },
        Filter::Id(id) => (f, component.widget_id == id),
    }
}

impl Filter {
    /// Both filters: `self`, then `other`.
    pub fn chain(self, other: Self) -> (r: Self)
        ensures
            r == Filter::Chain(Box::new(self), Box::new(other)),
    {
        Filter::Chain(Box::new(self), Box::new(other))
    }

    /// Whether the component passes the filter. An `Nth` filter passes over components until
    /// it has counted down to zero, and passes every component after that.
    pub fn filter(&mut self, component: &ComponentInfo, attributes: &Attributes<AttributeValue>) -> (r: bool)
        requires
            attributes.wf(),
        ensures
            (*final(self), r) == filtered(*old(self), *component, attributes@),
        decreases *old(self),
    {
        match self {
            Filter::Name(name) => str_eq(component.name.as_str(), name.as_str()),
            Filter::Attribute { key, value } => match attributes.get(key.as_str()) {
                Some(lhs) => primitive_eq(lhs, value),
                None => false,
            },
            Filter::Nth(n) => {
                if *n == 0 {
                    true
                } else {
                    *n = *n - 1;
                    false
                }
            },
            Filter::Chain(first, second) => {
                if first.filter(component, attributes) {
                    second.filter(component, attributes)
                } else {
                    false
                }
            },
            Filter::Id(id) => component.widget_id == *id,
        }
    }
}

/// What a command does to the components it is for.
#[derive(Debug)]
pub enum CommandKind<M> {
    /// Send them a message.
    SendMessage(M),
    /// Give them focus.
    Focus,
}

/// A command and the filter that picks its components.
#[derive(Debug)]
pub struct Command<M> {
    pub filter: Filter,
    pub kind: CommandKind<M>,
}

impl<M> Command<M> {
    /// Whether the command is for the component (the filter counts the component if it is an
    /// `Nth` filter).
    pub fn filter_component(&mut self, component: &ComponentInfo, attributes: &Attributes<AttributeValue>) -> (r: bool)
        requires
            attributes.wf(),
        ensures
            (final(self).filter, r) == filtered(old(self).filter, *component, attributes@),
            final(self).kind == old(self).kind,
    {
        self.filter.filter(component, attributes)
    }
}

/// Commands waiting for their components.
#[derive(Debug)]
pub struct DeferredComponents<M> {
    queue: Vec<Command<M>>,
}

impl<M> View for DeferredComponents<M> {
    type V = Seq<Command<M>>;

    closed spec fn view(&self) -> Seq<Command<M>> {
        self.queue@
    }
}

/// A command being put together: its filter so far, and the queue it goes to.
pub struct QueryBuilder<'a, M> {
    queue: &'a mut DeferredComponents<M>,
    filter: Filter,
}

impl<M> DeferredComponents<M> {
    /// No commands.
    pub fn new() -> (r: Self)
        ensures
            r@ == Seq::<Command<M>>::empty(),
    {
        Self { queue: Vec::new() }
    }

    /// Take all the commands, the last one issued first.
    pub fn drain(&mut self) -> (r: Vec<Command<M>>)
        ensures
            r@ == old(self)@.reverse(),
            final(self)@ == Seq::<Command<M>>::empty(),
    {
        let ghost all = self.queue@;
        let mut out: Vec<Command<M>> = Vec::new();
        while self.queue.len() > 0
            invariant
                self.queue@ == all.take(self.queue@.len() as int),
                out@ == all.skip(self.queue@.len() as int).reverse(),
                self.queue@.len() <= all.len(),
            decreases self.queue@.len(),
        {
            let ghost n = self.queue@.len() as int;
            let c = self.queue.pop().unwrap();
            proof {
                assert(c == all[n - 1]);
                assert(all.skip(n - 1).reverse() =~= all.skip(n).reverse().push(all[n - 1]));
                assert(self.queue@ =~= all.take(n - 1));
            }
            out.push(c);
        }
        proof {
            assert(all.skip(0) =~= all);
        }
        out
    }

    /// Start a command for the components named `name`.
    pub fn by_name(&mut self, name: String) -> (r: QueryBuilder<'_, M>)
        ensures
            r.filter_state() == Filter::Name(name),
            r.pending()@ == old(self)@,
            final(self)@ == final(r.pending())@,
    {
        QueryBuilder { queue: self, filter: Filter::Name(name) }
    }

    /// Start a command for the components whose attribute `key` is `value`.
    pub fn by_attribute(&mut self, key: String, value: AttributeValue) -> (r: QueryBuilder<'_, M>)
        ensures
            r.filter_state() == (Filter::Attribute { key, value }),
            r.pending()@ == old(self)@,
            final(self)@ == final(r.pending())@,
    {
        QueryBuilder { queue: self, filter: Filter::Attribute { key, value } }
    }

    /// Start a command for the component after passing over `count` of them.
    pub fn nth(&mut self, count: usize) -> (r: QueryBuilder<'_, M>)
        ensures
            r.filter_state() == Filter::Nth(count),
            r.pending()@ == old(self)@,
            final(self)@ == final(r.pending())@,
    {
        QueryBuilder { queue: self, filter: Filter::Nth(count) }
    }

    /// Start a command for the component of the widget `id`.
    pub fn by_id(&mut self, id: usize) -> (r: QueryBuilder<'_, M>)
        ensures
            r.filter_state() == Filter::Id(id),
            r.pending()@ == old(self)@,
            final(self)@ == final(r.pending())@,
    {
        QueryBuilder { queue: self, filter: Filter::Id(id) }
    }
}

impl<'a, M> QueryBuilder<'a, M> {
    /// The filter so far.
    pub closed spec fn filter_state(self) -> Filter {
        self.filter
    }

    /// The queue the command goes to.
    pub closed spec fn pending(self) -> &'a mut DeferredComponents<M> {
        self.queue
    }

    /// Also require the components to be named `name`.
    pub fn by_name(self, name: String) -> (r: Self)
        ensures
            r.filter_state() == Filter::Chain(Box::new(self.filter_state()), Box::new(Filter::Name(name))),
            *r.pending() == *self.pending(),
            *final(r.pending()) == *final(self.pending()),
    {
        QueryBuilder { queue: self.queue, filter: self.filter.chain(Filter::Name(name)) }
    }

    /// Also require the attribute `key` of the components to be `value`.
    pub fn by_attribute(self, key: String, value: AttributeValue) -> (r: Self)
        ensures
            r.filter_state() == Filter::Chain(
                Box::new(self.filter_state()),
                Box::new(Filter::Attribute { key, value }),
            ),
            *r.pending() == *self.pending(),
            *final(r.pending()) == *final(self.pending()),
    {
        QueryBuilder { queue: self.queue, filter: self.filter.chain(Filter::Attribute { key, value }) }
    }

    /// Also pass over `count` of the components that pass so far.
    pub fn nth(self, count: usize) -> (r: Self)
        ensures
            r.filter_state() == Filter::Chain(Box::new(self.filter_state()), Box::new(Filter::Nth(count))),
            *r.pending() == *self.pending(),
            *final(r.pending()) == *final(self.pending()),
    {
        QueryBuilder { queue: self.queue, filter: self.filter.chain(Filter::Nth(count)) }
    }

    /// Also require the component to be that of the widget `id`.
    pub fn by_id(self, id: usize) -> (r: Self)
        ensures
            r.filter_state() == Filter::Chain(Box::new(self.filter_state()), Box::new(Filter::Id(id))),
            *r.pending() == *self.pending(),
            *final(r.pending()) == *final(self.pending()),
    {
        QueryBuilder { queue: self.queue, filter: self.filter.chain(Filter::Id(id)) }
    }

    /// Queue a command that sends `message` to the components.
    pub fn send(self, message: M)
        ensures
            (*final(self.pending()))@ == (*self.pending())@.push(
                Command { filter: self.filter_state(), kind: CommandKind::SendMessage(message) },
            ),
    {
        let command = Command { kind: CommandKind::SendMessage(message), filter: self.filter };
        self.queue.queue.push(command);
    }

    /// Queue a command that gives the components focus.
    pub fn focus(self)
        ensures
            (*final(self.pending()))@ == (*self.pending())@.push(
                Command { filter: self.filter_state(), kind: CommandKind::Focus },
            ),
    {
        let command = Command { kind: CommandKind::Focus, filter: self.filter };
        self.queue.queue.push(command);
    }
}

/// An `Nth(n)` filter after it has been asked about `k` components.
pub open spec fn nth_after(n: usize, k: nat) -> Filter {
    if k >= n {
        Filter::Nth(0)
    } else {
        Filter::Nth((n - k) as usize)
    }
}

/// An `Nth(n)` filter passes over the first `n` components it is asked about, whatever they
/// are, and passes every one after them: the `k`-th answer (counting from zero) is whether
/// `k >= n`.
pub proof fn law_nth_passes_over_n(
    n: usize,
    k: nat,
    component: ComponentInfo,
    attributes: Map<Seq<char>, AttributeValue>,
)
    ensures
        filtered(nth_after(n, k), component, attributes) == (nth_after(n, k + 1), k >= n),
{
}

/// Filters by name, by attribute and by id remember nothing: asking them about a component
/// leaves them as they were.
pub proof fn law_plain_filters_are_stateless(
    f: Filter,
    component: ComponentInfo,
    attributes: Map<Seq<char>, AttributeValue>,
)
    requires
        f is Name || f is Attribute || f is Id,
    ensures
        filtered(f, component, attributes).0 == f,
{
}

/// Two attribute values match only when they are the same kind of primitive holding the same
/// value: equal integers, booleans, characters and colours, strings of the same characters,
/// floats equal as floats (never a NaN), or two nulls. Composite values never match, and
/// matching does not depend on the order of the two values.
pub proof fn law_same_primitive_means_equal(x: AttributeValue, y: AttributeValue)
    ensures
        same_primitive(x, y) == same_primitive(y, x),
        same_primitive(x, y) ==> match (x, y) {
            (AttributeValue::Int(a), AttributeValue::Int(b)) => a == b,
            (AttributeValue::Float(a), AttributeValue::Float(b)) => !is_nan_bits(a) && !is_nan_bits(
                b,
            ),
            (AttributeValue::Bool(a), AttributeValue::Bool(b)) => a == b,
            (AttributeValue::Char(a), AttributeValue::Char(b)) => a == b,
            (AttributeValue::Hex(r1, g1, b1), AttributeValue::Hex(r2, g2, b2)) => r1 == r2 && g1
                == g2 && b1 == b2,
            (AttributeValue::Str(a), AttributeValue::Str(b)) => a@ == b@,
            (AttributeValue::Null, AttributeValue::Null) => true,
            _ => false,
        },
        x is Other || y is Other ==> !same_primitive(x, y),
        (x matches AttributeValue::Str(a) && y matches AttributeValue::Str(b) && a@ == b@)
            ==> same_primitive(x, y),
        (x matches AttributeValue::Int(a) && y matches AttributeValue::Int(b) && a == b)
            ==> same_primitive(x, y),
{
}

/// An attribute filter passes a component only when the component has that attribute and its
/// value matches: a string value passes only an attribute holding the same characters.
pub proof fn law_attribute_filter_needs_equal_value(
    key: String,
    value: AttributeValue,
    component: ComponentInfo,
    attributes: Map<Seq<char>, AttributeValue>,
)
    ensures
        ({
            let (f, pass) = filtered(Filter::Attribute { key, value }, component, attributes);
            &&& pass ==> (lookup(attributes, key@) matches Some(v) && same_primitive(v, value))
            &&& pass ==> match value {
                AttributeValue::Str(s) => match lookup(attributes, key@) {
                    Some(AttributeValue::Str(t)) => t@ == s@,
                    _ => false,
                },
                _ => true,
            }
            &&& lookup(attributes, key@) is None ==> !pass
        }),
{
    if let Some(v) = lookup(attributes, key@) {
        law_same_primitive_means_equal(v, value);
    }
}

/// A chain passes a component only when both of its filters do, and the second filter is left
/// as it was (not asked) when the first one refuses.
pub proof fn law_chain_needs_both(
    first: Filter,
    second: Filter,
    component: ComponentInfo,
    attributes: Map<Seq<char>, AttributeValue>,
)
    ensures
        ({
            let (after, pass) = filtered(
                Filter::Chain(Box::new(first), Box::new(second)),
                component,
                attributes,
            );
            let (first_after, first_pass) = filtered(first, component, attributes);
            &&& pass ==> first_pass && filtered(second, component, attributes).1
            &&& !first_pass ==> !pass && after == Filter::Chain(Box::new(first_after), Box::new(second))
            &&& first_pass ==> pass == filtered(second, component, attributes).1
        }),
{
}

} // verus!
