//! Paths to values: keys and indices, composed left to right.
use vstd::prelude::*;

verus! {

/// The path to a value in a given context.
///
/// ```text
///   Key     Key    Key
///   parent .child .name
///
///   Key               Index   Key
///   parent_collection .3     .name
/// ```
#[derive(Debug, PartialEq, Eq, Hash)]
pub enum Path {
    /// A key in a map.
    Key(String),
    /// Index in a collection.
    Index(usize),
    /// The path on the left, then the path on the right.
    Composite(Box<Path>, Box<Path>),
}

impl Path {
    /// The path with `child` appended: a single key or index becomes the left of a composite,
    /// and a composite appends to its right side.
    pub open spec fn composed(self, child: Path) -> Path
        decreases self,
    {
        match self {
            Path::Key(_) | Path::Index(_) => Path::Composite(Box::new(self), Box::new(child)),
            Path::Composite(left, right) => Path::Composite(left, Box::new(right.composed(child))),
        }
    }

    /// The keys and indices of the path, in order.
    pub open spec fn segments(self) -> Seq<Path>
        decreases self,
    {
        match self {
            Path::Key(_) | Path::Index(_) => seq![self],
            Path::Composite(left, right) => left.segments() + right.segments(),
        }
    }

    /// A copy of the path.
    pub fn duplicate(&self) -> (r: Path)
        ensures
            r == *self,
        decreases self,
    {
        match self {
            Path::Key(key) => Path::Key(key.clone()),
            Path::Index(index) => Path::Index(*index),
            Path::Composite(left, right) => Path::Composite(
                Box::new(left.duplicate()),
                Box::new(right.duplicate()),
            ),
        }
    }

    /// Append `child` to this path.
    pub fn compose(&self, child: Path) -> (r: Path)
        ensures
            r == self.composed(child),
        decreases self,
    {
        match self {
            Path::Key(_) | Path::Index(_) => Path::Composite(Box::new(self.duplicate()), Box::new(child)),
            Path::Composite(left, right) => Path::Composite(
                Box::new(left.duplicate()),
                Box::new(right.compose(child)),
            ),
        }
    }
}

impl From<usize> for Path {
    /// The path of an index in a collection.
    fn from(index: usize) -> (r: Self) {
        Path::Index(index)
    }
}

impl vstd::std_specs::convert::FromSpecImpl<usize> for Path {
    open spec fn obeys_from_spec() -> bool {
        true
    }

    open spec fn from_spec(v: usize) -> Path {
        Path::Index(v)
    }
}

/// Composing appends the child's keys and indices after those of the path.
pub proof fn law_compose_appends_segments(p: Path, child: Path)
    ensures
        p.composed(child).segments() == p.segments() + child.segments(),
    decreases p,
{
    match p {
        Path::Key(_) | Path::Index(_) => {},
        Path::Composite(left, right) => {
            law_compose_appends_segments(*right, child);
            assert(left.segments() + (right.segments() + child.segments()) =~= (left.segments()
                + right.segments()) + child.segments());
        },
    }
}

/// Composing is associative: appending `a` then `b` is appending `a` with `b` appended.
pub proof fn law_compose_associative(p: Path, a: Path, b: Path)
    ensures
        p.composed(a).composed(b) == p.composed(a.composed(b)),
    decreases p,
{
    match p {
        Path::Key(_) | Path::Index(_) => {},
        Path::Composite(left, right) => {
            law_compose_associative(*right, a, b);
        },
    }
}

} // verus!
