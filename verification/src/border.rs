//! The style of a border: the eight edges it is drawn with, where each edge starts in the
//! string of edges, and how wide the left and right sides are.
use vstd::prelude::*;

use compact_str::CompactString;
use unicode_segmentation::UnicodeSegmentation;

use crate::geometry::{Pos, Size};
use crate::strings::str_eq;
use crate::width::{char_width_or_zero, text_width, width_of};
use vstd::std_specs::iter::IteratorSpec;
use vstd::string::StringSliceAdditionalSpecFns;
use vstd::utf8::{encode_utf8, is_char_boundary};

verus! {

/// The number of edges of a border: four corners and four sides.
pub const CORNER_COUNT: usize = 8;

/// The edges of a border, in the order top left, top, top right, right, bottom right, bottom,
/// bottom left, left.
pub const TOP_LEFT: usize = 0;
pub const TOP: usize = 1;
pub const TOP_RIGHT: usize = 2;
pub const RIGHT: usize = 3;
pub const BOTTOM_RIGHT: usize = 4;
pub const BOTTOM: usize = 5;
pub const BOTTOM_LEFT: usize = 6;
pub const LEFT: usize = 7;

/// Thin lines.
pub const DEFAULT_SLIM_EDGES: &'static str = "┌─┐│┘─└│";

/// Double lines.
pub const DEFAULT_THICK_EDGES: &'static str = "╔═╗║╝═╚║";

/// Thin lines with round corners.
pub const DEFAULT_ROUND_EDGES: &'static str = "╭─╮│╯─╰│";

/// The edges of a border, held in a `compact_str::CompactString` (a string that keeps short
/// text inline).
#[verifier::external_body]
#[derive(Debug)]
pub struct Edges {
    text: CompactString,
}

/// The characters the edges hold.
pub uninterp spec fn edge_chars(e: Edges) -> Seq<char>;

/// `CompactString::const_new` of `compact_str`: edges that hold the characters of `text` (kept
/// inline when short, else pointing at the static text).
#[verifier::external_body]
fn edges_const(text: &'static str) -> (r: Edges)
    ensures
        edge_chars(r) == text@,
{
    Edges { text: CompactString::const_new(text) }
}

/// `CompactString::new` of `compact_str`: edges that hold a copy of the characters of `text`.
#[verifier::external_body]
fn edges_new(text: &str) -> (r: Edges)
    ensures
        edge_chars(r) == text@,
{
    Edges { text: CompactString::new(text) }
}

/// `CompactString::as_str` of `compact_str`: the string slice of all the characters of the
/// edges.
#[verifier::external_body]
fn edges_as_str(e: &Edges) -> (r: &str)
    ensures
        r@ == edge_chars(*e),
{
    e.text.as_str()
}

/// The extended grapheme clusters of a string, as `unicode-segmentation` finds them by the rules
/// of Unicode Standard Annex #29.
pub uninterp spec fn grapheme_clusters(s: Seq<char>) -> Seq<Seq<char>>;

/// The strings of a list, one after the other.
pub open spec fn concat(parts: Seq<Seq<char>>) -> Seq<char>
    decreases parts.len(),
{
    if parts.len() == 0 {
        Seq::empty()
    } else {
        concat(parts.drop_last()) + parts.last()
    }
}

/// The number of UTF-8 bytes of the clusters before the `i`-th one: the byte offset at which the
/// `i`-th cluster starts.
pub open spec fn cluster_offset(clusters: Seq<Seq<char>>, i: int) -> nat {
    encode_utf8(concat(clusters.take(i))).len()
}

/// `UnicodeSegmentation::grapheme_indices` of `unicode-segmentation`, over extended grapheme
/// clusters: the clusters of the string in order, each with its byte offset. The source cuts the
/// string at consecutive boundaries, so the clusters are non-empty and make up the string, and
/// each offset counts the bytes before the cluster. Where the boundaries fall is left to the
/// name `grapheme_clusters`.
#[verifier::external_body]
fn grapheme_indices(s: &str) -> (r: Vec<(usize, String)>)
    ensures
        r@.len() == grapheme_clusters(s@).len(),
        forall|i: int| 0 <= i < r@.len() ==> (#[trigger] r@[i]).1@ == grapheme_clusters(s@)[i],
        forall|i: int|
            0 <= i < r@.len() ==> (#[trigger] r@[i]).0 == cluster_offset(grapheme_clusters(s@), i),
        forall|i: int| 0 <= i < r@.len() ==> (#[trigger] r@[i]).1@.len() > 0,
        concat(Seq::new(r@.len(), |i: int| r@[i].1@)) == s@,
{
    s.grapheme_indices(true).map(|(i, g)| (i, g.to_string())).collect()
}

/// The display width of a string, as a `usize` (capped at its maximum).
pub open spec fn capped_width(s: Seq<char>) -> usize {
    if text_width(s) <= usize::MAX {
        text_width(s) as usize
    } else {
        usize::MAX
    }
}

/// The display width of a string: the sum of the widths of its characters, control characters
/// counting for none (as `UnicodeWidthStr::width` adds them up).
pub fn str_width(s: &str) -> (r: usize)
    ensures
        r == capped_width(s@),
{
    broadcast use vstd::string::group_string_axioms;

    let ghost cs = s@;
    let mut iter = s.chars();
    let mut sum: usize = 0;
    let ghost mut done: nat = 0;
    proof {
        assert(cs.skip(0) =~= cs);
        assert(cs.take(0) =~= Seq::<char>::empty());
    }
    loop
        invariant
            done <= cs.len(),
            cs == s@,
            iter.remaining() == cs.skip(done as int),
            iter.obeys_prophetic_iter_laws(),
            sum == capped_width(cs.take(done as int)),
        decreases cs.len() - done,
    {
        let next = iter.next();
        match next {
            None => {
                proof {
                    assert(cs.skip(done as int).len() == 0);
                    assert(cs.take(done as int) =~= cs);
                }
                return sum;
            },
            Some(c) => {
                proof {
                    assert(cs.skip(done as int)[0] == c);
                    assert(cs.skip(done as int).drop_first() =~= cs.skip(done + 1 as int));
                    assert(cs.take(done + 1 as int).drop_last() =~= cs.take(done as int));
                    assert(cs.take(done + 1 as int).last() == c);
                }
                let w = char_width_or_zero(c);
                sum = sum.saturating_add(w);
                proof {
                    done = done + 1;
                }
            },
        }
    }
}

/// The larger of two `u32` values.
pub open spec fn max_u32(a: u32, b: u32) -> u32 {
    if a >= b {
        a
    } else {
        b
    }
}

/// The width of the left side after reading the first `k` clusters: each counts, by its width
/// cut to 32 bits, starting from one.
pub open spec fn left_width_of(clusters: Seq<Seq<char>>, k: int) -> u32
    decreases k,
{
    if k <= 0 {
        1
    } else {
        max_u32(left_width_of(clusters, k - 1), capped_width(clusters[k - 1]) as u32)
    }
}

/// The start of each edge after reading the clusters: the first eight clusters give their byte
/// offsets (cut to eight bits); edges past the last cluster keep their start.
pub open spec fn edge_starts(old_corners: Seq<u8>, clusters: Seq<Seq<char>>) -> Seq<u8> {
    Seq::new(
        CORNER_COUNT as nat,
        |i: int|
            if i < clusters.len() {
                cluster_offset(clusters, i) as u8
            } else {
                old_corners[i]
            },
    )
}

/// The number of clusters read: at most eight.
pub open spec fn clusters_read(clusters: Seq<Seq<char>>) -> int {
    if clusters.len() < CORNER_COUNT {
        clusters.len() as int
    } else {
        CORNER_COUNT as int
    }
}

/// The style of a border: its edges as one string, the byte offset at which each edge starts,
/// and the widths of its left and right sides.
#[derive(Debug)]
pub struct BorderStyle {
    pub kind: Edges,
    pub left_width: u8,
    pub right_width: u8,
    pub corners: [u8; 8],
}

impl BorderStyle {
    /// The slim style: thin lines, every edge three bytes long and one cell wide.
    pub fn empty() -> (r: Self)
        ensures
            edge_chars(r.kind) == DEFAULT_SLIM_EDGES@,
            r.left_width == 1,
            r.right_width == 1,
            r.corners@ == seq![0u8, 3, 6, 9, 12, 15, 18, 21],
    {
        let r = Self {
            kind: edges_const(DEFAULT_SLIM_EDGES),
            left_width: 1,
            right_width: 1,
            corners: [0, 3, 6, 9, 12, 15, 18, 21],
        };
        assert(r.corners@ =~= seq![0u8, 3, 6, 9, 12, 15, 18, 21]);
        r
    }

    /// A style with the given edges, laid out as in the slim style until the edges are read.
    pub fn with_edges(edges: &str) -> (r: Self)
        ensures
            edge_chars(r.kind) == edges@,
            r.left_width == 1,
            r.right_width == 1,
            r.corners@ == seq![0u8, 3, 6, 9, 12, 15, 18, 21],
    {
        let mut r = Self::empty();
        r.kind = edges_new(edges);
        r
    }

    /// The edges of the style, as a string slice.
    pub fn edges(&self) -> (r: &str)
        ensures
            r@ == edge_chars(self.kind),
    {
        edges_as_str(&self.kind)
    }

    /// The room the border takes: the left and right sides across, a line above and below.
    pub fn size(&self) -> (r: Size)
        requires
            self.left_width + self.right_width <= u8::MAX,
        ensures
            r == (Size { width: (self.left_width + self.right_width) as usize, height: 2 }),
    {
        let width = self.left_width + self.right_width;
        Size::new(width as usize, 2)
    }

    /// Re-read the edges when `kind` differs from the edges of the style: the first eight
    /// clusters of the edges of the style give the starts of the edges, and every one of them
    /// counts toward the width of the left side, which is at least one; the right side is one
    /// cell wide. The edges themselves stay as they are.
    pub fn fix_if_expired(&mut self, kind: &str)
        ensures
            final(self).kind == old(self).kind,
            kind@ == edge_chars(old(self).kind) ==> *final(self) == *old(self),
            kind@ != edge_chars(old(self).kind) ==> {
                let clusters = grapheme_clusters(edge_chars(old(self).kind));
                &&& final(self).corners@ == edge_starts(old(self).corners@, clusters)
                &&& final(self).left_width == left_width_of(clusters, clusters_read(clusters)) as u8
                &&& final(self).right_width == 1
            },
    {
        if str_eq(kind, edges_as_str(&self.kind)) {
            return;
        }
        let graphemes = grapheme_indices(edges_as_str(&self.kind));
        let ghost clusters = grapheme_clusters(edge_chars(self.kind));
        let ghost kind0 = self.kind;
        let ghost old_corners = self.corners@;
        let mut left: u32 = 1;
        let right: u32 = 1;
        let count = if graphemes.len() < CORNER_COUNT {
            graphemes.len()
        } else {
            CORNER_COUNT
        };
        let mut i: usize = 0;
        while i < count
            invariant
                i <= count,
                count == clusters_read(clusters),
                count <= CORNER_COUNT,
                graphemes@.len() == clusters.len(),
                forall|j: int|
                    0 <= j < graphemes@.len() ==> (#[trigger] graphemes@[j]).1@ == clusters[j],
                forall|j: int|
                    0 <= j < graphemes@.len() ==> (#[trigger] graphemes@[j]).0 == cluster_offset(
                        clusters,
                        j,
                    ),
                self.corners@.len() == CORNER_COUNT,
                forall|j: int|
                    0 <= j < CORNER_COUNT ==> #[trigger] self.corners@[j] == if j < i {
                        edge_starts(old_corners, clusters)[j]
                    } else {
                        old_corners[j]
                    },
                old_corners.len() == CORNER_COUNT,
                left == left_width_of(clusters, i as int),
                self.kind == kind0,
                kind0 == old(self).kind,
                clusters == grapheme_clusters(edge_chars(kind0)),
            decreases count - i,
        {
            let idx = graphemes[i].0;
            let w = str_width(graphemes[i].1.as_str());
            #[verifier::truncate]
            let w32: u32 = w as u32;
            if w32 > left {
                left = w32;
            }
            #[verifier::truncate]
            let start: u8 = idx as u8;
            self.corners[i] = start;
            i = i + 1;
        }
        proof {
            assert(self.corners@ =~= edge_starts(old_corners, clusters));
        }
        #[verifier::truncate]
        let left_width: u8 = left as u8;
        self.left_width = left_width;
        self.right_width = right as u8;
    }

    /// The bytes of the edges from the start of edge `from` to the start of edge `to`.
    pub fn slice(&self, from: usize, to: usize) -> (r: &str)
        requires
            from < CORNER_COUNT,
            to < CORNER_COUNT,
            self.corners@[from as int] <= self.corners@[to as int],
            is_char_boundary(encode_utf8(edge_chars(self.kind)), self.corners@[from as int] as int),
            is_char_boundary(encode_utf8(edge_chars(self.kind)), self.corners@[to as int] as int),
        ensures
            encode_utf8(r@) == encode_utf8(edge_chars(self.kind)).subrange(
                self.corners@[from as int] as int,
                self.corners@[to as int] as int,
            ),
    {
        let from = self.corners[from] as usize;
        let to = self.corners[to] as usize;
        byte_range(edges_as_str(&self.kind), from, to)
    }

    /// The edge of the top left corner.
    pub fn top_left(&self) -> (r: &str)
        requires
            self.corners@[TOP_LEFT as int] <= self.corners@[TOP as int],
            is_char_boundary(encode_utf8(edge_chars(self.kind)), self.corners@[TOP_LEFT as int] as int),
            is_char_boundary(encode_utf8(edge_chars(self.kind)), self.corners@[TOP as int] as int),
        ensures
            encode_utf8(r@) == encode_utf8(edge_chars(self.kind)).subrange(
                self.corners@[TOP_LEFT as int] as int,
                self.corners@[TOP as int] as int,
            ),
    {
        self.slice(TOP_LEFT, TOP)
    }

    /// The edge of the top side.
    pub fn top(&self) -> (r: &str)
        requires
            self.corners@[TOP as int] <= self.corners@[TOP_RIGHT as int],
            is_char_boundary(encode_utf8(edge_chars(self.kind)), self.corners@[TOP as int] as int),
            is_char_boundary(encode_utf8(edge_chars(self.kind)), self.corners@[TOP_RIGHT as int] as int),
        ensures
            encode_utf8(r@) == encode_utf8(edge_chars(self.kind)).subrange(
                self.corners@[TOP as int] as int,
                self.corners@[TOP_RIGHT as int] as int,
            ),
    {
        self.slice(TOP, TOP_RIGHT)
    }

    /// The edge of the top right corner.
    pub fn top_right(&self) -> (r: &str)
        requires
            self.corners@[TOP_RIGHT as int] <= self.corners@[RIGHT as int],
            is_char_boundary(encode_utf8(edge_chars(self.kind)), self.corners@[TOP_RIGHT as int] as int),
            is_char_boundary(encode_utf8(edge_chars(self.kind)), self.corners@[RIGHT as int] as int),
        ensures
            encode_utf8(r@) == encode_utf8(edge_chars(self.kind)).subrange(
                self.corners@[TOP_RIGHT as int] as int,
                self.corners@[RIGHT as int] as int,
            ),
    {
        self.slice(TOP_RIGHT, RIGHT)
    }

    /// The edge of the right side.
    pub fn right(&self) -> (r: &str)
        requires
            self.corners@[RIGHT as int] <= self.corners@[BOTTOM_RIGHT as int],
            is_char_boundary(encode_utf8(edge_chars(self.kind)), self.corners@[RIGHT as int] as int),
            is_char_boundary(encode_utf8(edge_chars(self.kind)), self.corners@[BOTTOM_RIGHT as int] as int),
        ensures
            encode_utf8(r@) == encode_utf8(edge_chars(self.kind)).subrange(
                self.corners@[RIGHT as int] as int,
                self.corners@[BOTTOM_RIGHT as int] as int,
            ),
    {
        self.slice(RIGHT, BOTTOM_RIGHT)
    }

    /// The edge of the bottom right corner.
    pub fn bottom_right(&self) -> (r: &str)
        requires
            self.corners@[BOTTOM_RIGHT as int] <= self.corners@[BOTTOM as int],
            is_char_boundary(encode_utf8(edge_chars(self.kind)), self.corners@[BOTTOM_RIGHT as int] as int),
            is_char_boundary(encode_utf8(edge_chars(self.kind)), self.corners@[BOTTOM as int] as int),
        ensures
            encode_utf8(r@) == encode_utf8(edge_chars(self.kind)).subrange(
                self.corners@[BOTTOM_RIGHT as int] as int,
                self.corners@[BOTTOM as int] as int,
            ),
    {
        self.slice(BOTTOM_RIGHT, BOTTOM)
    }

    /// The edge of the bottom side.
    pub fn bottom(&self) -> (r: &str)
        requires
            self.corners@[BOTTOM as int] <= self.corners@[BOTTOM_LEFT as int],
            is_char_boundary(encode_utf8(edge_chars(self.kind)), self.corners@[BOTTOM as int] as int),
            is_char_boundary(encode_utf8(edge_chars(self.kind)), self.corners@[BOTTOM_LEFT as int] as int),
        ensures
            encode_utf8(r@) == encode_utf8(edge_chars(self.kind)).subrange(
                self.corners@[BOTTOM as int] as int,
                self.corners@[BOTTOM_LEFT as int] as int,
            ),
    {
        self.slice(BOTTOM, BOTTOM_LEFT)
    }

    /// The edge of the bottom left corner.
    pub fn bottom_left(&self) -> (r: &str)
        requires
            self.corners@[BOTTOM_LEFT as int] <= self.corners@[LEFT as int],
            is_char_boundary(encode_utf8(edge_chars(self.kind)), self.corners@[BOTTOM_LEFT as int] as int),
            is_char_boundary(encode_utf8(edge_chars(self.kind)), self.corners@[LEFT as int] as int),
        ensures
            encode_utf8(r@) == encode_utf8(edge_chars(self.kind)).subrange(
                self.corners@[BOTTOM_LEFT as int] as int,
                self.corners@[LEFT as int] as int,
            ),
    {
        self.slice(BOTTOM_LEFT, LEFT)
    }

    /// The edge `edge` (in the order top left, top, top right, right, bottom right, bottom,
    /// bottom left, left), or `None` when its start or end is not on a character boundary of
    /// the edges (or its end comes before its start).
    pub fn edge(&self, edge: usize) -> (r: Option<&str>)
        requires
            edge < CORNER_COUNT,
        ensures
            ({
                let bytes = encode_utf8(edge_chars(self.kind));
                let from = self.corners@[edge as int] as int;
                if edge < LEFT {
                    let to = self.corners@[edge + 1] as int;
                    &&& r is Some <==> (from <= to && is_char_boundary(bytes, from)
                        && is_char_boundary(bytes, to))
                    &&& r matches Some(s) ==> encode_utf8(s@) == bytes.subrange(from, to)
                } else {
                    &&& r is Some <==> is_char_boundary(bytes, from)
                    &&& r matches Some(s) ==> encode_utf8(s@) == bytes.subrange(
                        from,
                        bytes.len() as int,
                    )
                }
            }),
    {
        let s = edges_as_str(&self.kind);
        let from = self.corners[edge] as usize;
        if edge == LEFT {
            if s.is_char_boundary(from) {
                Some(self.left())
            } else {
                None
            }
        } else {
            let to = self.corners[edge + 1] as usize;
            if from <= to && s.is_char_boundary(from) && s.is_char_boundary(to) {
                Some(self.slice(edge, edge + 1))
            } else {
                None
            }
        }
    }

    /// The left side: from its start to the end of the edges.
    pub fn left(&self) -> (r: &str)
        requires
            is_char_boundary(encode_utf8(edge_chars(self.kind)), self.corners@[LEFT as int] as int),
        ensures
            encode_utf8(r@) == encode_utf8(edge_chars(self.kind)).subrange(
                self.corners@[LEFT as int] as int,
                encode_utf8(edge_chars(self.kind)).len() as int,
            ),
    {
        let from = self.corners[LEFT] as usize;
        let (_, rest) = edges_as_str(&self.kind).split_at(from);
        rest
    }
}

/// A border around a single child.
#[derive(Debug)]
pub struct Border {
    pub border: BorderStyle,
}

impl Border {
    /// A border in the slim style.
    pub fn new() -> (r: Self)
        ensures
            edge_chars(r.border.kind) == DEFAULT_SLIM_EDGES@,
            r.border.left_width == 1,
            r.border.right_width == 1,
            r.border.corners@ == seq![0u8, 3, 6, 9, 12, 15, 18, 21],
    {
        Self { border: BorderStyle::empty() }
    }

    /// Where the child goes: inside the left side and below the top line.
    pub fn child_position(&self, pos: Pos) -> (r: Pos)
        requires
            pos.x + self.border.left_width <= i32::MAX,
            pos.y + 1 <= i32::MAX,
        ensures
            r == (Pos { x: (pos.x + self.border.left_width) as i32, y: (pos.y + 1) as i32 }),
    {
        Pos::new(pos.x + self.border.left_width as i32, pos.y + 1)
    }
}

/// The bytes `from..to` of a string, both on character boundaries.
fn byte_range(s: &str, from: usize, to: usize) -> (r: &str)
    requires
        from <= to,
        is_char_boundary(encode_utf8(s@), from as int),
        is_char_boundary(encode_utf8(s@), to as int),
    ensures
        encode_utf8(r@) == encode_utf8(s@).subrange(from as int, to as int),
{
    let (_, rest) = s.split_at(from);
    proof {
        let bytes = encode_utf8(s@);
        vstd::utf8::encode_utf8_valid_utf8(s@);
        vstd::utf8::valid_utf8_split(bytes, from as int);
        let tail = bytes.subrange(from as int, bytes.len() as int);
        assert(rest.spec_bytes() == tail);
        if (to as int) < bytes.len() {
            vstd::utf8::is_char_boundary_iff_not_is_continuation_byte(bytes, to as int);
            vstd::utf8::is_char_boundary_iff_not_is_continuation_byte(tail, to - from);
            assert(tail[to - from] == bytes[to as int]);
        } else {
            vstd::utf8::is_char_boundary_start_end_of_seq(tail);
        }
    }
    let (mid, _) = rest.split_at(to - from);
    proof {
        assert(mid.spec_bytes() =~= encode_utf8(s@).subrange(from as int, to as int));
    }
    mid
}

} // verus!
