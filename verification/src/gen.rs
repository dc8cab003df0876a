//! Values and expressions that the widget generator walks.
use vstd::prelude::*;

verus! {

/// A value that is either owned or borrowed from the scope it was found in.
#[derive(Debug)]
pub enum ValueRef<'parent, V> {
    Owned(V),
    Borrowed(&'parent V),
}

impl<'parent, V> ValueRef<'parent, V> {
    /// The value, owned or borrowed.
    pub fn value(&self) -> (r: Option<&V>)
        ensures
            r == Some(
                match self {
                    ValueRef::Owned(v) => v,
                    ValueRef::Borrowed(v) => *v,
                },
            ),
    {
        match self {
            ValueRef::Borrowed(val) => Some(*val),
            ValueRef::Owned(val) => Some(val),
        }
    }

    /// The value if it is borrowed from the scope (it then outlives this reference).
    pub fn borrowed(&self) -> (r: Option<&'parent V>)
        ensures
            r == match self {
                ValueRef::Borrowed(v) => Some(*v),
                ValueRef::Owned(_) => None::<&'parent V>,
            },
    {
        match self {
            ValueRef::Borrowed(val) => Some(*val),
            ValueRef::Owned(_) => None,
        }
    }
}

impl<'parent, V> From<&'parent V> for ValueRef<'parent, V> {
    /// A borrowed value.
    fn from(val: &'parent V) -> (r: Self) {
        ValueRef::Borrowed(val)
    }
}

impl<'parent, V> vstd::std_specs::convert::FromSpecImpl<&'parent V> for ValueRef<'parent, V> {
    open spec fn obeys_from_spec() -> bool {
        true
    }

    open spec fn from_spec(v: &'parent V) -> ValueRef<'parent, V> {
        ValueRef::Borrowed(v)
    }
}

/// What the generator produces widgets from: a single template node, the body of a for loop
/// with its binding and the collection it walks, or a block of templates.
#[derive(Debug)]
pub enum Expression<'tpl, 'parent, T, V> {
    Node(&'tpl T),
    For { body: &'tpl [T], binding: &'parent str, collection: &'parent [V] },
    Block(&'tpl [T]),
}

impl<'tpl, 'parent, T, V> Expression<'tpl, 'parent, T, V> {
    /// A single node.
    pub fn node(template: &'tpl T) -> (r: Self)
        ensures
            r == Self::Node(template),
    {
        Self::Node(template)
    }

    /// A for loop: `body` once for each value of `collection`, bound to `binding`.
    pub fn for_loop(body: &'tpl [T], binding: &'parent str, collection: &'parent [V]) -> (r: Self)
        ensures
            r == (Self::For { body, binding, collection }),
    {
        Self::For { body, binding, collection }
    }
}

} // verus!
