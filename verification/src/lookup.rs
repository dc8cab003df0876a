//! The registry of widget factories, by the name templates use for the widget.
use vstd::prelude::*;

use crate::strings::str_eq;
use crate::table::Table;

verus! {

/// Names that templates use for control flow; no widget can take them.
pub open spec fn is_reserved(name: Seq<char>) -> bool {
    name == "if"@ || name == "for"@ || name == "else"@
}

/// Why a factory could not be registered or found.
#[derive(Debug, Clone, PartialEq, Eq)]
pub enum LookupError {
    /// No factory is registered under the name.
    UnregisteredWidget(String),
    /// The name is reserved for control flow.
    ReservedName(String),
    /// A factory is already registered under the name.
    ExistingName(String),
}

/// Widget factories by name.
#[derive(Debug)]
pub struct Lookup<F> {
    factories: Table<F>,
}

impl<F> View for Lookup<F> {
    type V = Map<Seq<char>, F>;

    closed spec fn view(&self) -> Map<Seq<char>, F> {
        self.factories@
    }
}

impl<F> Lookup<F> {
    /// The registry is well formed.
    pub closed spec fn wf(&self) -> bool {
        self.factories.wf()
    }

    /// A registry has finitely many names.
    pub proof fn lemma_finite(&self)
        ensures
            self@.dom().finite(),
    {
        self.factories.lemma_finite();
    }

    /// A registry without factories.
    pub fn new() -> (r: Self)
        ensures
            r.wf(),
            r@ == Map::<Seq<char>, F>::empty(),
    {
        Lookup { factories: Table::new() }
    }

    /// Whether `name` is reserved for control flow.
    pub fn reserved(name: &str) -> (r: bool)
        ensures
            r == is_reserved(name@),
    {
        str_eq(name, "if") || str_eq(name, "for") || str_eq(name, "else")
    }

    /// Register `factory` under `ident`. A reserved name, or a name that already has a factory,
    /// is refused and the registry stays as it was.
    pub fn register(&mut self, ident: String, factory: F) -> (r: Result<(), LookupError>)
        requires
            old(self).wf(),
        ensures
            final(self).wf(),
            is_reserved(ident@) ==> r == Err::<(), LookupError>(LookupError::ReservedName(ident))
                && final(self)@ == old(self)@,
            !is_reserved(ident@) && old(self)@.dom().contains(ident@) ==> r == Err::<(), LookupError>(
                LookupError::ExistingName(ident),
            ) && final(self)@ == old(self)@,
            !is_reserved(ident@) && !old(self)@.dom().contains(ident@) ==> r is Ok && final(self)@
                == old(self)@.insert(ident@, factory),
    {
        if Self::reserved(ident.as_str()) {
            return Err(LookupError::ReservedName(ident));
        }
        if self.factories.contains(ident.as_str()) {
            return Err(LookupError::ExistingName(ident));
        }
        self.factories.insert(ident.as_str(), factory);
        Ok(())
    }

    /// The factory that makes the widgets named `ident` in templates; an error names a widget
    /// that has none.
    pub fn factory(&self, ident: &str) -> (r: Result<&F, LookupError>)
        requires
            self.wf(),
        ensures
            match crate::table::lookup(self@, ident@) {
                Some(f) => r == Ok::<&F, LookupError>(&f),
                None => r matches Err(LookupError::UnregisteredWidget(name)) && name@ == ident@,
            },
    {
        match self.factories.get(ident) {
            Some(f) => Ok(f),
            None => Err(LookupError::UnregisteredWidget(String::from_str(ident))),
        }
    }

    /// The factory registered under `ident`, if there is one.
    pub fn get(&self, ident: &str) -> (r: Option<&F>)
        requires
            self.wf(),
        ensures
            r == match crate::table::lookup(self@, ident@) {
                Some(f) => Some(&f),
                None => None,
            },
    {
        self.factories.get(ident)
    }
}

/// A successful registration keeps every name registered before and takes the new one, so
/// registering any of these names again is refused.
pub proof fn law_registered_names_stay_taken<F>(
    before: Map<Seq<char>, F>,
    after: Map<Seq<char>, F>,
    ident: Seq<char>,
    factory: F,
    name: Seq<char>,
)
    requires
        !is_reserved(ident),
        !before.dom().contains(ident),
        after == before.insert(ident, factory),
        before.dom().contains(name),
    ensures
        after.dom().contains(name),
        after.dom().contains(ident),
{
}

} // verus!
