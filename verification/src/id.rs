//! Identifiers of nodes in the widget tree.
use vstd::prelude::*;

use crate::strings::{decimal, push_decimal};

verus! {

/// The path from the root of the tree to a node: one child index per level.
#[derive(Debug, Clone, PartialEq, Eq, Hash)]
pub struct NodeId(Vec<usize>);

impl View for NodeId {
    type V = Seq<usize>;

    closed spec fn view(&self) -> Seq<usize> {
        self.0@
    }
}

impl NodeId {
    /// The id of the root.
    pub fn empty() -> (r: Self)
        ensures
            r@ == Seq::<usize>::empty(),
    {
        NodeId(Vec::new())
    }

    /// The id of the child `next` of this node.
    pub fn append(&self, next: usize) -> (r: Self)
        ensures
            r@ == self@.push(next),
    {
        let mut next_id: Vec<usize> = Vec::new();
        let mut i: usize = 0;
        while i < self.0.len()
            invariant
                i <= self.0.len(),
                next_id@ == self.0@.subrange(0, i as int),
            decreases self.0.len() - i,
        {
            next_id.push(self.0[i]);
            i = i + 1;
        }
        assert(next_id@ =~= self.0@);
        next_id.push(next);
        NodeId(next_id)
    }

    /// The id of the sibling `offset` places further on: the last index is increased by
    /// `offset` (the root stays the root).
    pub fn offset(&self, offset: usize) -> (r: Self)
        requires
            self@.len() > 0 ==> self@.last() + offset <= usize::MAX,
        ensures
            self@.len() == 0 ==> r@ == self@,
            self@.len() > 0 ==> r@ == self@.update(
                self@.len() - 1,
                (self@.last() + offset) as usize,
            ),
    {
        let mut id: Vec<usize> = Vec::new();
        let mut i: usize = 0;
        let n = self.0.len();
        while i < n
            invariant
                n == self.0.len(),
                i <= n,
                id@ == self.0@.subrange(0, i as int),
            decreases n - i,
        {
            id.push(self.0[i]);
            i = i + 1;
        }
        if n > 0 {
            let last = id[n - 1];
            id.set(n - 1, last + offset);
        }
        proof {
            if n > 0 {
                assert(id@ =~= self.0@.update(n - 1, (self.0@.last() + offset) as usize));
            } else {
                assert(id@ =~= self.0@);
            }
        }
        NodeId(id)
    }
}

/// The indices of a node id, printed in decimal and joined by `::`.
pub open spec fn joined_indices(ids: Seq<usize>) -> Seq<char>
    decreases ids.len(),
{
    if ids.len() == 0 {
        Seq::empty()
    } else if ids.len() == 1 {
        decimal(ids[0] as nat)
    } else {
        joined_indices(ids.drop_last()) + "::"@ + decimal(ids.last() as nat)
    }
}

impl NodeId {
    /// The indices, printed in decimal and joined by `::`.
    pub fn to_string(&self) -> (r: String)
        ensures
            r@ == joined_indices(self@),
    {
        let mut s = String::new();
        let mut i: usize = 0;
        while i < self.0.len()
            invariant
                i <= self.0@.len(),
                s@ == joined_indices(self.0@.take(i as int)),
            decreases self.0@.len() - i,
        {
            proof {
                assert(self.0@.take(i as int + 1).drop_last() =~= self.0@.take(i as int));
            }
            if i > 0 {
                s.append("::");
            }
            push_decimal(&mut s, self.0[i]);
            proof {
                if i == 0 {
                    assert(self.0@.take(1) =~= seq![self.0@[0]]);
                    assert(s@ =~= joined_indices(self.0@.take(1)));
                }
            }
            i = i + 1;
        }
        proof {
            assert(self.0@.take(i as int) =~= self.0@);
        }
        s
    }
}

/// The kind of node an id refers to.
#[derive(Debug, Clone, PartialEq, Eq, Hash)]
pub enum Id {
    Node(u32),
    For(u32),
    ControlFlow(u32),
}

/// How an id prints: a node by its number, a for loop with `F` before it, control flow with `?`.
pub open spec fn id_text(id: Id) -> Seq<char> {
    match id {
        Id::Node(n) => decimal(n as nat),
        Id::For(n) => "F"@ + decimal(n as nat),
        Id::ControlFlow(n) => "?"@ + decimal(n as nat),
    }
}

impl Id {
    /// How the id prints.
    pub fn to_string(&self) -> (r: String)
        ensures
            r@ == id_text(*self),
    {
        let mut s = String::new();
        match self {
            Id::Node(n) => push_decimal(&mut s, *n as usize),
            Id::For(n) => {
                s.append("F");
                push_decimal(&mut s, *n as usize);
            },
            Id::ControlFlow(n) => {
                s.append("?");
                push_decimal(&mut s, *n as usize);
            },
        }
        s
    }
}

} // verus!
