//! A cursor over the indices of a collection, able to walk it forwards or backwards.
use vstd::prelude::*;

verus! {

/// The direction a generator walks its collection in.
#[derive(Debug, Copy, Clone, PartialEq, Eq, Structural)]
pub enum Direction {
    Forward,
    Backward,
}

/// The opposite direction.
pub open spec fn opposite(dir: Direction) -> Direction {
    match dir {
        Direction::Forward => Direction::Backward,
        Direction::Backward => Direction::Forward,
    }
}

/// The index produced by a cursor in direction `dir` over `len` elements after `steps` steps.
pub open spec fn index_at(dir: Direction, len: nat, steps: nat) -> Option<usize> {
    if steps >= len {
        None
    } else {
        match dir {
            Direction::Forward => Some(steps as usize),
            Direction::Backward => Some((len - steps - 1) as usize),
        }
    }
}

/// A cursor over `0..collection_len`.
///
/// `inner` counts how many indices have been produced in the current direction.
#[derive(Debug)]
pub struct Index {
    inner: usize,
    collection_len: usize,
    dir: Direction,
}

impl Index {
    /// The number of steps taken so far.
    pub closed spec fn steps(&self) -> nat {
        self.inner as nat
    }

    /// The current direction.
    pub closed spec fn direction(&self) -> Direction {
        self.dir
    }

    /// The length of the collection.
    pub closed spec fn len(&self) -> nat {
        self.collection_len as nat
    }

    /// The index that `next` produces from this state, if any.
    pub open spec fn spec_peek(&self) -> Option<usize> {
        index_at(self.direction(), self.len(), self.steps())
    }

    /// Create a new index with the given direction over a collection of the given length.
    pub fn new(dir: Direction, collection_len: usize) -> (index: Self)
        ensures
            index.direction() == dir,
            index.len() == collection_len,
            index.steps() == 0,
    {
        Self { dir, collection_len, inner: 0 }
    }

    /// Produce the next index of the collection, or `None` once every index has been produced.
    pub fn next(&mut self) -> (r: Option<usize>)
        ensures
            r == old(self).spec_peek(),
            final(self).direction() == old(self).direction(),
            final(self).len() == old(self).len(),
            final(self).steps() == if old(self).steps() >= old(self).len() {
                old(self).steps()
            } else {
                old(self).steps() + 1
            },
    {
        if self.inner >= self.collection_len {
            return None;
        }
        let idx = match self.dir {
            Direction::Forward => self.inner,
            Direction::Backward => self.collection_len - self.inner - 1,
        };
        self.inner = self.inner + 1;
        Some(idx)
    }

    /// Reverse the direction from the current position.
    ///
    /// The index produced next is the one before the index produced last.
    pub fn reverse(&mut self)
        requires
            old(self).steps() <= old(self).len(),
            old(self).len() - old(self).steps() + 1 <= usize::MAX,
        ensures
            final(self).direction() == opposite(old(self).direction()),
            final(self).len() == old(self).len(),
            final(self).steps() == old(self).len() - old(self).steps() + 1,
    {
        match self.dir {
            Direction::Forward => {
                self.dir = Direction::Backward;
                self.inner = self.collection_len - self.inner + 1;
            },
            Direction::Backward => {
                self.dir = Direction::Forward;
                self.inner = self.collection_len - self.inner + 1;
            },
        }
    }

    /// Change direction, keeping the number of steps: the walk restarts from the other end.
    pub fn flip(&mut self)
        ensures
            final(self).direction() == opposite(old(self).direction()),
            final(self).len() == old(self).len(),
            final(self).steps() == old(self).steps(),
    {
        self.dir = match self.dir {
            Direction::Forward => Direction::Backward,
            Direction::Backward => Direction::Forward,
        };
    }
}

/// Flipping twice restores the direction.
pub proof fn law_flip_involutive(dir: Direction)
    ensures
        opposite(opposite(dir)) == dir,
{
}

/// Reversing twice restores the number of steps, once at least one index was produced.
pub proof fn law_reverse_involutive(len: nat, steps: nat)
    requires
        1 <= steps <= len,
    ensures
        ({
            let once = (len - steps + 1) as nat;
            &&& once <= len
            &&& len - once + 1 == steps
        }),
{
}

/// After at least one index was produced, reversing makes the next index the neighbour of
/// the last one produced, on the side the new direction walks to (or nothing if there is none).
pub proof fn law_reverse_continues_from_last(dir: Direction, len: nat, steps: nat)
    requires
        1 <= steps <= len,
        len < usize::MAX,
    ensures
        ({
            let last = index_at(dir, len, (steps - 1) as nat)->0;
            let next = index_at(opposite(dir), len, (len - steps + 1) as nat);
            match dir {
                Direction::Forward => next == if last >= 1 { Some((last - 1) as usize) } else { None },
                Direction::Backward => next == if last + 1 < len { Some((last + 1) as usize) } else { None },
            }
        }),
{
}

/// After `k` indices were produced (at least one), reversing walks back over the indices
/// produced before the last one, in the opposite order, and then produces nothing: the `j`-th
/// index after reversing is the one produced at step `k - 2 - j`.
pub proof fn law_reverse_walks_back(dir: Direction, len: nat, k: nat)
    requires
        1 <= k <= len,
    ensures
        forall|j: nat|
            j < k - 1 ==> #[trigger] index_at(opposite(dir), len, (len - k + 1 + j) as nat)
                == index_at(dir, len, (k - 2 - j) as nat),
        index_at(opposite(dir), len, (len - k + 1 + (k - 1)) as nat) is None,
{
}

/// Some step of a walk over `len` elements produces `i`.
pub open spec fn is_produced(dir: Direction, len: nat, i: nat) -> bool {
    exists|k: nat| k < len && #[trigger] index_at(dir, len, k) == Some(i as usize)
}

/// A full walk from the start produces every index of the collection exactly once.
pub proof fn law_walk_is_permutation(dir: Direction, len: nat)
    requires
        len <= usize::MAX,
    ensures
        forall|k: nat| k < len ==> (#[trigger] index_at(dir, len, k)) is Some && index_at(dir, len, k)->0 < len,
        forall|k1: nat, k2: nat|
            k1 < len && k2 < len && k1 != k2 ==> #[trigger] index_at(dir, len, k1) != #[trigger] index_at(dir, len, k2),
        forall|i: nat| i < len ==> #[trigger] is_produced(dir, len, i),
        index_at(dir, len, len) is None,
{
    assert forall|i: nat| i < len implies #[trigger] is_produced(dir, len, i) by {
        match dir {
            Direction::Forward => {
                assert(index_at(dir, len, i) == Some(i as usize));
            },
            Direction::Backward => {
                let k = (len - i - 1) as nat;
                assert(index_at(dir, len, k) == Some(i as usize));
            },
        }
    }
}

} // verus!
