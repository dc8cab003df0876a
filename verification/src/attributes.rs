//! The attributes of a widget: values by name.
use vstd::prelude::*;

use crate::table::{lookup, Table};

verus! {

/// The attributes of a widget: at most one value for each name.
#[derive(Debug)]
pub struct Attributes<V> {
    inner: Table<V>,
}

impl<V> View for Attributes<V> {
    type V = Map<Seq<char>, V>;

    closed spec fn view(&self) -> Map<Seq<char>, V> {
        self.inner@
    }
}

/// A single attribute, as it comes from a template.
#[derive(Debug)]
pub struct Attribute<'src, V> {
    pub key: &'src str,
    pub val: V,
}

/// The map of a list of attributes: a later attribute with a name replaces an earlier one.
pub open spec fn attributes_map<'src, V>(list: Seq<Attribute<'src, V>>) -> Map<Seq<char>, V>
    decreases list.len(),
{
    if list.len() == 0 {
        Map::empty()
    } else {
        attributes_map(list.drop_last()).insert(list.last().key@, list.last().val)
    }
}

impl<V> Attributes<V> {
    /// The attributes are well formed.
    pub closed spec fn wf(&self) -> bool {
        self.inner.wf()
    }

    /// There are finitely many attributes.
    pub proof fn lemma_finite(&self)
        ensures
            self@.dom().finite(),
    {
        self.inner.lemma_finite();
    }

    /// No attributes.
    pub fn empty() -> (r: Self)
        ensures
            r.wf(),
            r@ == Map::<Seq<char>, V>::empty(),
    {
        Self { inner: Table::new() }
    }

    /// A single attribute.
    pub fn new(key: &str, value: V) -> (r: Self)
        ensures
            r.wf(),
            r@ == Map::<Seq<char>, V>::empty().insert(key@, value),
    {
        let mut inner = Self::empty();
        inner.set(key, value);
        inner
    }

    /// The attributes of a list, a later one with a name replacing an earlier one.
    pub fn from_list(attributes: Vec<Attribute<'_, V>>) -> (r: Self)
        ensures
            r.wf(),
            r@ == attributes_map(attributes@),
    {
        let ghost all = attributes@;
        let mut inner = Self::empty();
        for attr in iter: attributes.into_iter()
            invariant
                inner.wf(),
                iter.seq() == all,
                inner@ == attributes_map(all.take(iter.index() as int)),
        {
            proof {
                let k = iter.index() as int;
                assert(all.take(k + 1).drop_last() =~= all.take(k));
            }
            inner.set(attr.key, attr.val);
        }
        proof {
            assert(all.take(all.len() as int) =~= all);
        }
        inner
    }

    /// Whether there is an attribute named `key`.
    pub fn has(&self, key: &str) -> (r: bool)
        requires
            self.wf(),
        ensures
            r == self@.dom().contains(key@),
    {
        self.inner.contains(key)
    }

    /// Whether there are no attributes at all.
    pub fn is_empty(&self) -> (r: bool)
        requires
            self.wf(),
        ensures
            r == (self@.dom().len() == 0),
            r == (self@ == Map::<Seq<char>, V>::empty()),
    {
        self.inner.is_empty()
    }

    /// The value of the attribute named `name`, if there is one.
    pub fn get(&self, name: &str) -> (r: Option<&V>)
        requires
            self.wf(),
        ensures
            r == match lookup(self@, name@) {
                Some(v) => Some(&v),
                None => None,
            },
    {
        self.inner.get(name)
    }

    /// Set the attribute `name` to `value`, replacing its value if it had one.
    pub fn set(&mut self, name: &str, value: V)
        requires
            old(self).wf(),
        ensures
            final(self).wf(),
            final(self)@ == old(self)@.insert(name@, value),
    {
        self.inner.insert(name, value);
    }
}

/// Reading an attribute gives back the value that was last set for its name, and setting one
/// name leaves every other name as it was.
pub proof fn law_get_after_set<V>(
    before: Map<Seq<char>, V>,
    after: Map<Seq<char>, V>,
    name: Seq<char>,
    value: V,
    other: Seq<char>,
)
    requires
        after == before.insert(name, value),
    ensures
        lookup(after, name) == Some(value),
        other != name ==> lookup(after, other) == lookup(before, other),
{
}

/// An attribute is there exactly when reading it gives a value.
pub proof fn law_has_iff_get<V>(m: Map<Seq<char>, V>, name: Seq<char>)
    ensures
        m.dom().contains(name) <==> lookup(m, name) is Some,
{
}

} // verus!
