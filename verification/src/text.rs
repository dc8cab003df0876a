//! Text layout: breaking strings into lines that fit a maximum size.
use vstd::prelude::*;
use vstd::slice::slice_subrange;
use vstd::std_specs::iter::IteratorSpec;

use crate::geometry::Size;
use crate::strings::str_eq;
use crate::width::{
    char_width_or_zero, is_whitespace, lemma_text_width_push, lemma_text_width_range_split,
    range_width, spec_is_whitespace, text_width, width_of,
};

verus! {

/// Word wrapping strategy.
#[derive(Debug, Copy, Clone, PartialEq, Eq, Structural)]
pub enum Wrap {
    /// Normal word wrapping. This will break text on hyphen and whitespace.
    /// Trailing whitespace is consumed if it would cause a line break.
    Normal,
    /// Insert a newline in the middle of any text.
    WordBreak,
}

impl Default for Wrap {
    /// Normal word wrapping.
    fn default() -> (r: Self)
        ensures
            r == Wrap::Normal,
    {
        Wrap::Normal
    }
}

/// The wrapping a name stands for: `normal` or `break`.
pub open spec fn wrap_named(s: Seq<char>) -> Option<Wrap> {
    if s == "normal"@ {
        Some(Wrap::Normal)
    } else if s == "break"@ {
        Some(Wrap::WordBreak)
    } else {
        None
    }
}

impl Wrap {
    /// Parse a wrapping strategy from its name; any other string is refused.
    pub fn from_name(s: &str) -> (r: Result<Wrap, ()>)
        ensures
            r == match wrap_named(s@) {
                Some(w) => Ok(w),
                None => Err::<Wrap, ()>(()),
            },
    {
        if str_eq(s, "normal") {
            Ok(Wrap::Normal)
        } else if str_eq(s, "break") {
            Ok(Wrap::WordBreak)
        } else {
            Err(())
        }
    }

    /// Returns true if word wrapping is enabled (self == Self::Normal).
    pub fn is_word_wrap(&self) -> (r: bool)
        ensures
            r == (*self == Wrap::Normal),
    {
        match self {
            Wrap::Normal => true,
            Wrap::WordBreak => false,
        }
    }
}

/// The width of the line being laid out.
#[derive(Debug)]
struct LineWidth(usize);

impl LineWidth {
    /// Update the current value and return the old value (as a `u16`, truncated).
    fn swap(&mut self, new_value: usize) -> (r: u16)
        ensures
            r == old(self).0 as u16,
            final(self).0 == new_value,
    {
        let old_value = self.0;
        self.0 = new_value;
        #[verifier::truncate]
        (old_value as u16)
    }
}

/// The process result dictates whether it's possible to fit more text or not.
#[derive(Debug, Copy, Clone, PartialEq, Eq, Structural)]
pub enum ProcessResult {
    /// Continue means it's possible to process more text.
    Continue,
    /// Break means that there is no more room for text and further processing should be avoided.
    Break,
}

/// Identifies a style that applies to the text that follows it.
#[derive(Debug, Copy, Clone, PartialEq, Eq, Structural)]
pub struct StyleId(pub usize);

/// An entry of the layout, placed at a character index of the laid out text.
#[derive(Debug, Copy, Clone, PartialEq, Eq, Structural)]
pub enum Entry {
    /// A line ends here.
    Newline,
    /// The width of the line that ends at the following newline (or at the end of the text).
    LineWidth(u16),
    /// A style starts here.
    Style(StyleId),
}

/// Tracks where the text can be broken.
#[derive(Debug, Copy, Clone, PartialEq, Eq, Structural)]
pub enum Chomper {
    /// No word boundary on this line yet: `Continuous(current_index)`.
    Continuous(usize),
    /// The line can be broken at `word_boundary`.
    WordBoundary { word_boundary: usize, current_index: usize },
}

/// Under normal wrapping, text may break after a whitespace or a hyphen.
pub open spec fn breaks_word(c: char, wrap: Wrap) -> bool {
    (spec_is_whitespace(c) || c == '-') && wrap == Wrap::Normal
}

impl Chomper {
    /// The index just past the last accepted character.
    pub open spec fn spec_index(self) -> usize {
        match self {
            Chomper::Continuous(i) => i,
            Chomper::WordBoundary { current_index, .. } => current_index,
        }
    }

    /// The chomper with the word boundary moved to the current index.
    pub open spec fn forced(self) -> Chomper {
        match self {
            Chomper::Continuous(i) => Chomper::Continuous(i),
            Chomper::WordBoundary { current_index, .. } => Chomper::WordBoundary {
                word_boundary: current_index,
                current_index,
            },
        }
    }

    /// The chomper after accepting one character; `breaks` tells whether words wrap after the
    /// character.
    pub open spec fn chomped(self, breaks: bool) -> Chomper {
        let next = (self.spec_index() + 1) as usize;
        if breaks {
            Chomper::WordBoundary { word_boundary: next, current_index: next }
        } else {
            match self {
                Chomper::Continuous(_) => Chomper::Continuous(next),
                Chomper::WordBoundary { word_boundary, .. } => Chomper::WordBoundary {
                    word_boundary,
                    current_index: next,
                },
            }
        }
    }

    /// The index just past the last accepted character.
    fn index(&self) -> (r: usize)
        ensures
            r == self.spec_index(),
    {
        match self {
            Chomper::Continuous(current_index) => *current_index,
            Chomper::WordBoundary { current_index, .. } => *current_index,
        }
    }

    /// Make the current index the word boundary.
    fn force_word_boundary(&mut self)
        ensures
            *final(self) == old(self).forced(),
    {
        if let Chomper::WordBoundary { word_boundary, current_index } = self {
            *word_boundary = *current_index;
        }
    }

    /// Accept a character: a whitespace or a hyphen becomes a word boundary when words wrap.
    fn chomp(&mut self, c: char, wrap: Wrap)
        requires
            old(self).spec_index() < usize::MAX,
        ensures
            *final(self) == old(self).chomped(breaks_word(c, wrap)),
    {
        if (is_whitespace(c) || c == '-') && wrap.is_word_wrap() {
            let new_index = self.index() + 1;
            *self = Chomper::WordBoundary { word_boundary: new_index, current_index: new_index };
            return ;
        }
        match self {
            Chomper::Continuous(idx) => *idx = *idx + 1,
            Chomper::WordBoundary { current_index, .. } => *current_index = *current_index + 1,
        }
    }
}

/// The entries are ordered by their character index.
pub open spec fn entries_sorted(s: Seq<(usize, Entry)>) -> bool {
    forall|i: int, j: int| 0 <= i < j < s.len() ==> #[trigger] s[i].0 <= #[trigger] s[j].0
}

/// Where an entry at index `k` goes: after every entry at or before `k`, keeping entries at
/// the same index in the order they were added.
pub open spec fn insertion_point(s: Seq<(usize, Entry)>, k: usize) -> nat
    decreases s.len(),
{
    if s.len() == 0 {
        0
    } else if s.last().0 > k {
        insertion_point(s.drop_last(), k)
    } else {
        s.len()
    }
}

/// The entries with `(k, e)` added at its place.
pub open spec fn insert_entry(s: Seq<(usize, Entry)>, k: usize, e: Entry) -> Seq<(usize, Entry)> {
    s.insert(insertion_point(s, k) as int, (k, e))
}

/// The number of line breaks among the entries.
pub open spec fn count_newlines(s: Seq<(usize, Entry)>) -> nat
    decreases s.len(),
{
    if s.len() == 0 {
        0
    } else {
        count_newlines(s.drop_last()) + if s.last().1 is Newline {
            1nat
        } else {
            0nat
        }
    }
}

/// Every line width recorded among the entries is at most `max`.
pub open spec fn line_widths_within(s: Seq<(usize, Entry)>, max: usize) -> bool {
    forall|i: int| 0 <= i < s.len() ==> (#[trigger] s[i].1 matches Entry::LineWidth(w) ==> w <= max)
}

/// Every entry is placed at or before `len`.
pub open spec fn keys_within(s: Seq<(usize, Entry)>, len: nat) -> bool {
    forall|i: int| 0 <= i < s.len() ==> #[trigger] s[i].0 <= len
}

proof fn lemma_insertion_point_bounds(s: Seq<(usize, Entry)>, k: usize)
    requires
        entries_sorted(s),
    ensures
        insertion_point(s, k) <= s.len(),
        forall|i: int| 0 <= i < insertion_point(s, k) ==> #[trigger] s[i].0 <= k,
        forall|i: int| insertion_point(s, k) <= i < s.len() ==> #[trigger] s[i].0 > k,
    decreases s.len(),
{
    if s.len() > 0 {
        let t = s.drop_last();
        if s.last().0 > k {
            assert(entries_sorted(t)) by {
                assert forall|i: int, j: int| 0 <= i < j < t.len() implies #[trigger] t[i].0 <= #[trigger] t[j].0 by {
                    assert(t[i] == s[i] && t[j] == s[j]);
                }
            }
            lemma_insertion_point_bounds(t, k);
            assert forall|i: int| 0 <= i < insertion_point(s, k) implies #[trigger] s[i].0 <= k by {
                assert(t[i] == s[i]);
            }
            assert forall|i: int| insertion_point(s, k) <= i < s.len() implies #[trigger] s[i].0 > k by {
                if i < s.len() - 1 {
                    assert(t[i] == s[i]);
                }
            }
        } else {
            assert forall|i: int| 0 <= i < insertion_point(s, k) implies #[trigger] s[i].0 <= k by {
                if i < s.len() - 1 {
                    assert(s[i].0 <= s[s.len() - 1].0);
                }
            }
        }
    }
}

proof fn lemma_count_newlines_concat(a: Seq<(usize, Entry)>, b: Seq<(usize, Entry)>)
    ensures
        count_newlines(a + b) == count_newlines(a) + count_newlines(b),
    decreases b.len(),
{
    if b.len() == 0 {
        assert(a + b =~= a);
    } else {
        lemma_count_newlines_concat(a, b.drop_last());
        assert((a + b).drop_last() =~= a + b.drop_last());
    }
}

/// Adding an entry keeps the entries ordered, counts one more line break exactly when the entry
/// is a line break, and keeps the bounds on widths and indices.
proof fn lemma_insert_entry(s: Seq<(usize, Entry)>, k: usize, e: Entry, max: usize, len: nat)
    requires
        entries_sorted(s),
    ensures
        entries_sorted(insert_entry(s, k, e)),
        count_newlines(insert_entry(s, k, e)) == count_newlines(s) + if e is Newline {
            1nat
        } else {
            0nat
        },
        line_widths_within(s, max) && (e matches Entry::LineWidth(w) ==> w <= max)
            ==> line_widths_within(insert_entry(s, k, e), max),
        keys_within(s, len) && k <= len ==> keys_within(insert_entry(s, k, e), len),
        insert_entry(s, k, e).len() == s.len() + 1,
{
    lemma_insertion_point_bounds(s, k);
    let p = insertion_point(s, k) as int;
    let t = insert_entry(s, k, e);
    assert(t =~= s.subrange(0, p) + seq![(k, e)] + s.subrange(p, s.len() as int));
    assert(s =~= s.subrange(0, p) + s.subrange(p, s.len() as int));
    lemma_count_newlines_concat(s.subrange(0, p), s.subrange(p, s.len() as int));
    lemma_count_newlines_concat(s.subrange(0, p) + seq![(k, e)], s.subrange(p, s.len() as int));
    lemma_count_newlines_concat(s.subrange(0, p), seq![(k, e)]);
    assert(seq![(k, e)].drop_last() =~= Seq::<(usize, Entry)>::empty());
    assert(count_newlines(Seq::<(usize, Entry)>::empty()) == 0);
    assert forall|i: int, j: int| 0 <= i < j < t.len() implies #[trigger] t[i].0 <= #[trigger] t[j].0 by {
        if j < p {
        } else if j == p {
        } else if i < p {
            assert(t[j] == s[j - 1]);
        } else if i == p {
            assert(t[j] == s[j - 1]);
        } else {
            assert(t[i] == s[i - 1]);
            assert(t[j] == s[j - 1]);
        }
    }
    if line_widths_within(s, max) && (e matches Entry::LineWidth(w) ==> w <= max) {
        assert forall|i: int| 0 <= i < t.len() implies (#[trigger] t[i].1 matches Entry::LineWidth(w) ==> w <= max) by {
            if i < p {
                assert(t[i] == s[i]);
            } else if i > p {
                assert(t[i] == s[i - 1]);
            }
        }
    }
    if keys_within(s, len) && k <= len {
        assert forall|i: int| 0 <= i < t.len() implies #[trigger] t[i].0 <= len by {
            if i < p {
                assert(t[i] == s[i]);
            } else if i > p {
                assert(t[i] == s[i - 1]);
            }
        }
    }
}

/// Add an entry at its place among the ordered entries.
fn push_entry(entries: &mut Vec<(usize, Entry)>, key: usize, entry: Entry)
    ensures
        final(entries)@ == insert_entry(old(entries)@, key, entry),
{
    let mut pos = entries.len();
    assert(entries@.subrange(0, pos as int) =~= entries@);
    while pos > 0 && entries[pos - 1].0 > key
        invariant
            pos <= entries.len(),
            entries@ == old(entries)@,
            insertion_point(entries@, key) == insertion_point(entries@.subrange(0, pos as int), key),
        decreases pos,
    {
        assert(entries@.subrange(0, pos as int).drop_last() =~= entries@.subrange(0, pos - 1));
        pos = pos - 1;
    }
    if pos > 0 {
        assert(entries@.subrange(0, pos as int).last() == entries@[pos - 1]);
    }
    entries.insert(pos, (key, entry));
}

/// The state of a text layout in progress.
pub struct LayoutState {
    /// The characters kept so far.
    pub text: Seq<char>,
    /// Line breaks, line widths and styles, ordered by character index.
    pub entries: Seq<(usize, Entry)>,
    pub chomper: Chomper,
    /// The width of the current line.
    pub current_width: usize,
    pub wrap: Wrap,
    pub max: Size,
    /// Index where the current line starts.
    pub line: usize,
    pub size: Size,
    pub frozen: bool,
}

impl LayoutState {
    /// The invariant of a layout in progress.
    pub open spec fn wf(self) -> bool {
        &&& self.chomper.spec_index() == self.text.len()
        &&& self.line <= self.text.len()
        &&& (self.chomper matches Chomper::WordBoundary { word_boundary, current_index } ==> self.line
            <= word_boundary <= current_index)
        &&& self.current_width == text_width(
            self.text.subrange(self.line as int, self.text.len() as int),
        )
        &&& self.current_width <= self.max.width
        &&& self.size.width <= self.max.width
        &&& self.size.height >= 1
        &&& count_newlines(self.entries) + 1 == self.size.height
        &&& entries_sorted(self.entries)
        &&& keys_within(self.entries, self.text.len())
        &&& line_widths_within(self.entries, self.max.width)
    }

    /// The state with the word boundary moved to the current index.
    pub open spec fn forced(self) -> LayoutState {
        LayoutState { chomper: self.chomper.forced(), ..self }
    }

    /// The state after breaking the line: at the word boundary if there is one, else at the
    /// current index.
    pub open spec fn newline(self) -> LayoutState {
        let size = Size {
            width: if self.size.width >= self.current_width {
                self.size.width
            } else {
                self.current_width
            },
            height: (self.size.height + 1) as usize,
        };
        match self.chomper {
            Chomper::Continuous(idx) => LayoutState {
                entries: insert_entry(
                    insert_entry(self.entries, idx, Entry::LineWidth(self.current_width as u16)),
                    idx,
                    Entry::Newline,
                ),
                current_width: 0usize,
                line: idx,
                size,
                ..self
            },
            Chomper::WordBoundary { word_boundary, current_index } => {
                let diff = (text_width(self.text.subrange(self.line as int, current_index as int))
                    - text_width(
                    self.text.subrange(self.line as int, word_boundary as int),
                )) as usize;
                let width = (self.current_width - diff) as usize;
                LayoutState {
                    entries: insert_entry(
                        insert_entry(self.entries, word_boundary, Entry::LineWidth(width as u16)),
                        word_boundary,
                        Entry::Newline,
                    ),
                    current_width: diff,
                    chomper: Chomper::Continuous(current_index),
                    line: word_boundary,
                    size,
                    ..self
                }
            },
        }
    }

    /// The state after keeping the character `c` of width `w` on the current line.
    pub open spec fn accept(self, c: char, w: usize) -> LayoutState {
        LayoutState {
            text: self.text.push(c),
            chomper: self.chomper.chomped(breaks_word(c, self.wrap)),
            current_width: (self.current_width + w) as usize,
            ..self
        }
    }

    /// Break lines until a character of width `w` fits. A whitespace that does not fit ends the
    /// line and is dropped; a line break past the maximum height stops the layout.
    /// `None` means the character fits.
    pub open spec fn wrap_loop(self, c: char, w: usize) -> (LayoutState, Option<ProcessResult>)
        decreases (if self.size.height < self.max.height {
            self.max.height - self.size.height
        } else {
            0
        }) as nat,
    {
        if w + self.current_width <= self.max.width {
            (self, None)
        } else if spec_is_whitespace(c) {
            (self.forced().newline(), Some(ProcessResult::Continue))
        } else if self.size.height >= self.max.height {
            (self, Some(ProcessResult::Break))
        } else {
            self.newline().wrap_loop(c, w)
        }
    }

    /// The state and result after laying out one character.
    pub open spec fn chomp(self, c: char) -> (LayoutState, ProcessResult) {
        let w = width_of(c) as usize;
        if w > self.max.width {
            (self, ProcessResult::Continue)
        } else if c == '\n' {
            if self.size.height >= self.max.height {
                (self, ProcessResult::Break)
            } else {
                (self.forced().newline(), ProcessResult::Continue)
            }
        } else {
            let (next, r) = self.wrap_loop(c, w);
            match r {
                Some(r) => (next, r),
                None => (next.accept(c, w), ProcessResult::Continue),
            }
        }
    }

    /// The state and result after laying out the characters `cs` one by one, stopping (and
    /// freezing the layout) at the first character that does not fit.
    pub open spec fn add_chars(self, cs: Seq<char>) -> (LayoutState, ProcessResult)
        decreases cs.len(),
    {
        if cs.len() == 0 {
            (self, ProcessResult::Continue)
        } else {
            let (next, r) = self.chomp(cs[0]);
            if r == ProcessResult::Break {
                (LayoutState { frozen: true, ..next }, ProcessResult::Break)
            } else {
                next.add_chars(cs.drop_first())
            }
        }
    }
}

/// When line breaking lets a character through, it fits the line.
proof fn lemma_wrap_loop_fits(st: LayoutState, c: char, w: usize)
    ensures
        st.wrap_loop(c, w).1 is None ==> w + st.wrap_loop(c, w).0.current_width <= st.max.width,
        st.wrap_loop(c, w).0.max == st.max,
    decreases (if st.size.height < st.max.height {
        st.max.height - st.size.height
    } else {
        0
    }) as nat,
{
    if w + st.current_width <= st.max.width {
    } else if spec_is_whitespace(c) {
    } else if st.size.height >= st.max.height {
    } else {
        lemma_wrap_loop_fits(st.newline(), c, w);
    }
}

proof fn lemma_truncate_u16(x: usize)
    ensures
        (x as u16) as usize <= x,
{
    assert((x as u16) as usize <= x) by (bit_vector);
}

/// Represents a line containing the width and the segments.
#[derive(Debug)]
pub struct Line<I> {
    pub width: u16,
    pub entries: I,
}

/// A line segment.
#[derive(Debug)]
pub enum Segment {
    /// Set the style.
    SetStyle(StyleId),
    /// A piece of text.
    Str(String),
}

/// What a segment holds.
pub enum SegmentView {
    SetStyle(StyleId),
    Str(Seq<char>),
}

/// What a segment holds.
pub open spec fn segment_view(s: Segment) -> SegmentView {
    match s {
        Segment::SetStyle(id) => SegmentView::SetStyle(id),
        Segment::Str(text) => SegmentView::Str(text@),
    }
}

/// What a line holds: its width and its segments.
pub open spec fn line_view(l: Line<Vec<Segment>>) -> (u16, Seq<SegmentView>) {
    (l.width, l.entries@.map_values(|s: Segment| segment_view(s)))
}

/// What a list of lines holds.
pub open spec fn lines_view(ls: Seq<Line<Vec<Segment>>>) -> Seq<(u16, Seq<SegmentView>)> {
    ls.map_values(|l: Line<Vec<Segment>>| line_view(l))
}

/// The lines produced so far from a prefix of the entries.
pub struct LineBuilder {
    /// Finished lines.
    pub lines: Seq<(u16, Seq<SegmentView>)>,
    /// Segments of the line being built.
    pub current: Seq<SegmentView>,
    /// The last line width seen.
    pub width: u16,
    /// Where the text not yet placed in a segment starts.
    pub from: usize,
}

/// The segments of the current line, with the text up to `key` added if there is any.
pub open spec fn with_text_up_to(b: LineBuilder, text: Seq<char>, key: usize) -> Seq<SegmentView> {
    if b.from != key {
        b.current.push(SegmentView::Str(text.subrange(b.from as int, key as int)))
    } else {
        b.current
    }
}

/// One entry's effect on the lines: a line break finishes the line, a line width or a style
/// places the text before it, and a style then starts.
pub open spec fn build_step(b: LineBuilder, e: (usize, Entry), text: Seq<char>) -> LineBuilder {
    match e.1 {
        Entry::Newline => LineBuilder {
            lines: b.lines.push((b.width, b.current)),
            current: Seq::empty(),
            ..b
        },
        Entry::LineWidth(w) => LineBuilder {
            current: with_text_up_to(b, text, e.0),
            from: e.0,
            width: w,
            ..b
        },
        Entry::Style(id) => LineBuilder {
            current: with_text_up_to(b, text, e.0).push(SegmentView::SetStyle(id)),
            from: e.0,
            ..b
        },
    }
}

/// The lines built from the first `n` entries.
pub open spec fn build_prefix(entries: Seq<(usize, Entry)>, text: Seq<char>, n: nat) -> LineBuilder
    decreases n,
{
    if n == 0 || n > entries.len() {
        LineBuilder { lines: Seq::empty(), current: Seq::empty(), width: 0, from: 0 }
    } else {
        build_step(build_prefix(entries, text, (n - 1) as nat), entries[n - 1], text)
    }
}

/// The lines of a finished layout: the text between consecutive entries, broken at every line
/// break.
pub open spec fn build_lines(entries: Seq<(usize, Entry)>, text: Seq<char>) -> Seq<(u16, Seq<SegmentView>)> {
    let b = build_prefix(entries, text, entries.len());
    b.lines.push((b.width, b.current))
}

/// The entries of a finished layout: the width of the last line closes the entries.
pub open spec fn final_entries(st: LayoutState) -> Seq<(usize, Entry)> {
    insert_entry(st.entries, st.text.len() as usize, Entry::LineWidth(st.current_width as u16))
}

/// The size of a finished layout: zero if nothing is wide.
pub open spec fn final_size(st: LayoutState) -> Size {
    let width = if st.size.width >= st.current_width {
        st.size.width
    } else {
        st.current_width
    };
    if width == 0 {
        Size { width: 0, height: 0 }
    } else {
        Size { width, height: st.size.height }
    }
}

/// Identifies a finished layout within a session.
#[derive(Debug, Default, Copy, Clone)]
pub struct LayoutKey {
    index: usize,
}

impl LayoutKey {
    /// The position of the layout in its session.
    pub closed spec fn spec_index(&self) -> nat {
        self.index as nat
    }
}

/// A session of text layouts: holds the lines of every finished layout.
#[derive(Debug)]
pub struct StringSession {
    layouts: Vec<Vec<Line<Vec<Segment>>>>,
}

impl StringSession {
    /// The lines of each finished layout.
    pub closed spec fn layouts(&self) -> Seq<Seq<(u16, Seq<SegmentView>)>> {
        self.layouts@.map_values(|ls: Vec<Line<Vec<Segment>>>| lines_view(ls@))
    }

    /// Create a new instance of string layout given a max size and rules on how to handle word
    /// wrapping.
    pub fn new_layout(&self, max: Size, wrap: Wrap) -> (r: Strings)
        ensures
            r.state().wf(),
            r.state().text.len() == 0,
            r.state().entries.len() == 0,
            r.state().chomper == Chomper::Continuous(0),
            r.state().current_width == 0,
            r.state().wrap == wrap,
            r.state().max == max,
            r.state().line == 0,
            r.state().size == (Size { width: 0, height: 1 }),
            !r.state().frozen,
    {
        Strings::new(max, wrap)
    }

    /// Access the laid out lines of a finished layout.
    pub fn lines(&self, key: LayoutKey) -> (r: &Vec<Line<Vec<Segment>>>)
        requires
            key.spec_index() < self.layouts().len(),
        ensures
            lines_view(r@) == self.layouts()[key.spec_index() as int],
    {
        &self.layouts[key.index]
    }
}

/// A shared storage for string layout.
#[derive(Debug)]
pub struct StringStorage {
    session: StringSession,
}

impl StringStorage {
    /// The finished layouts held.
    pub closed spec fn layouts(&self) -> Seq<Seq<(u16, Seq<SegmentView>)>> {
        self.session.layouts()
    }

    /// Create a new instance of string storage.
    pub fn new() -> (r: Self)
        ensures
            r.layouts().len() == 0,
    {
        let r = Self { session: StringSession { layouts: Vec::new() } };
        assert(r.layouts() =~= Seq::empty());
        r
    }

    /// Create a new session for text layout.
    pub fn new_session(&mut self) -> (r: &mut StringSession)
        ensures
            r.layouts() == old(self).layouts(),
            final(self).layouts() == final(r).layouts(),
    {
        &mut self.session
    }

    /// Clear the storage (this is done between frames to reuse the memory).
    pub fn clear(&mut self)
        ensures
            final(self).layouts().len() == 0,
    {
        self.session.layouts.clear();
        assert(self.layouts() =~= Seq::empty());
    }
}

/// `String: FromIterator<&char>`: the string of the characters, in order.
#[verifier::external_body]
fn string_from_chars(chars: &[char]) -> (s: String)
    ensures
        s@ == chars@,
{
    chars.iter().collect()
}

/// A text layout in progress: strings are added one after the other and broken into lines
/// that fit the maximum size.
#[derive(Debug)]
pub struct Strings {
    text: Vec<char>,
    entries: Vec<(usize, Entry)>,
    chomper: Chomper,
    current_width: LineWidth,
    wrap: Wrap,
    max: Size,
    line: usize,
    size: Size,
    frozen: bool,
}

impl Strings {
    /// The state of the layout.
    pub closed spec fn state(&self) -> LayoutState {
        LayoutState {
            text: self.text@,
            entries: self.entries@,
            chomper: self.chomper,
            current_width: self.current_width.0,
            wrap: self.wrap,
            max: self.max,
            line: self.line,
            size: self.size,
            frozen: self.frozen,
        }
    }

    /// A new, empty layout for text of at most `max` size, wrapping words as `wrap` says.
    pub fn new(max: Size, wrap: Wrap) -> (r: Strings)
        ensures
            r.state().wf(),
            r.state().text.len() == 0,
            r.state().entries.len() == 0,
            r.state().chomper == Chomper::Continuous(0),
            r.state().current_width == 0,
            r.state().wrap == wrap,
            r.state().max == max,
            r.state().line == 0,
            r.state().size == (Size { width: 0, height: 1 }),
            !r.state().frozen,
    {
        let r = Strings {
            text: Vec::new(),
            entries: Vec::new(),
            chomper: Chomper::Continuous(0),
            current_width: LineWidth(0),
            wrap,
            max,
            line: 0,
            size: Size { width: 0, height: 1 },
            frozen: false,
        };
        assert(r.text@.subrange(0, 0) =~= Seq::<char>::empty());
        assert(count_newlines(r.entries@) == 0);
        r
    }

    fn update_width(&mut self)
        ensures
            final(self).state() == (LayoutState {
                size: Size {
                    width: if old(self).state().size.width >= old(self).state().current_width {
                        old(self).state().size.width
                    } else {
                        old(self).state().current_width
                    },
                    ..old(self).state().size
                },
                ..old(self).state()
            }),
    {
        if self.size.width < self.current_width.0 {
            self.size.width = self.current_width.0;
        }
    }

    fn newline(&mut self)
        requires
            old(self).state().wf(),
            old(self).state().size.height < usize::MAX,
        ensures
            final(self).state() == old(self).state().newline(),
            final(self).state().wf(),
    {
        let ghost st = self.state();
        self.size.height = self.size.height + 1;
        self.update_width();
        match self.chomper {
            Chomper::Continuous(idx) => {
                let w = self.current_width.swap(0);
                proof {
                    lemma_truncate_u16(st.current_width);
                    lemma_insert_entry(st.entries, idx, Entry::LineWidth(w), st.max.width, st.text.len());
                    lemma_insert_entry(
                        insert_entry(st.entries, idx, Entry::LineWidth(w)),
                        idx,
                        Entry::Newline,
                        st.max.width,
                        st.text.len(),
                    );
                    assert(st.text.subrange(idx as int, idx as int) =~= Seq::<char>::empty());
                }
                push_entry(&mut self.entries, idx, Entry::LineWidth(w));
                push_entry(&mut self.entries, idx, Entry::Newline);
                self.line = idx;
            },
            Chomper::WordBoundary { word_boundary, current_index } => {
                proof {
                    lemma_text_width_range_split(
                        st.text,
                        st.line as int,
                        word_boundary as int,
                        current_index as int,
                    );
                    assert(st.text.subrange(st.line as int, current_index as int) =~= st.text.subrange(
                        st.line as int,
                        st.text.len() as int,
                    ));
                }
                let full = range_width(&self.text, self.line, current_index);
                let head = range_width(&self.text, self.line, word_boundary);
                let diff = full - head;
                let width = self.current_width.0 - diff;
                #[verifier::truncate]
                let width16 = width as u16;
                proof {
                    lemma_truncate_u16(width);
                    lemma_insert_entry(
                        st.entries,
                        word_boundary,
                        Entry::LineWidth(width16),
                        st.max.width,
                        st.text.len(),
                    );
                    lemma_insert_entry(
                        insert_entry(st.entries, word_boundary, Entry::LineWidth(width16)),
                        word_boundary,
                        Entry::Newline,
                        st.max.width,
                        st.text.len(),
                    );
                }
                push_entry(&mut self.entries, word_boundary, Entry::LineWidth(width16));
                push_entry(&mut self.entries, word_boundary, Entry::Newline);
                let _ = self.current_width.swap(diff);
                self.chomper = Chomper::Continuous(current_index);
                self.line = word_boundary;
            },
        }
    }

    /// Break lines until a character of width `width` fits on the current line.
    fn wrap_to_fit(&mut self, c: char, width: usize) -> (r: Option<ProcessResult>)
        requires
            old(self).state().wf(),
            old(self).state().size.height < usize::MAX,
            width <= old(self).state().max.width,
        ensures
            (final(self).state(), r) == old(self).state().wrap_loop(c, width),
            final(self).state().wf(),
            final(self).state().size.height <= old(self).state().size.height + 2,
            final(self).state().text == old(self).state().text,
            final(self).state().frozen == old(self).state().frozen,
    {
        let ghost st0 = self.state();
        let ghost mut k: nat = 0;
        while self.current_width.0 > self.max.width - width
            invariant
                self.state().wf(),
                st0 == old(self).state(),
                width <= self.max.width,
                st0.wrap_loop(c, width) == self.state().wrap_loop(c, width),
                self.state().size.height == st0.size.height + k,
                st0.size.height < usize::MAX,
                self.state().text == st0.text,
                self.state().frozen == st0.frozen,
                self.state().max == st0.max,
                k == 0 || (self.state().chomper is Continuous && (k == 1 || (k == 2
                    && self.state().current_width == 0))),
                k > 0 ==> !spec_is_whitespace(c),
            decreases self.max.height - self.size.height,
        {
            if is_whitespace(c) {
                self.chomper.force_word_boundary();
                self.newline();
                return Some(ProcessResult::Continue);
            }
            if self.size.height >= self.max.height {
                return Some(ProcessResult::Break);
            }
            self.newline();
            proof {
                k = k + 1;
            }
        }
        None
    }

    fn chomp(&mut self, c: char) -> (r: ProcessResult)
        requires
            old(self).state().wf(),
            old(self).state().size.height < usize::MAX,
            old(self).state().text.len() < usize::MAX,
        ensures
            (final(self).state(), r) == old(self).state().chomp(c),
            final(self).state().wf(),
            final(self).state().size.height <= old(self).state().size.height + 2,
            final(self).state().text.len() <= old(self).state().text.len() + 1,
            final(self).state().frozen == old(self).state().frozen,
    {
        let width = char_width_or_zero(c);
        if width > self.max.width {
            return ProcessResult::Continue;
        }
        if c == '\n' {
            if self.size.height >= self.max.height {
                return ProcessResult::Break;
            }
            self.chomper.force_word_boundary();
            self.newline();
            return ProcessResult::Continue;
        }
        let ghost before = self.state();
        if let Some(r) = self.wrap_to_fit(c, width) {
            return r;
        }
        proof {
            lemma_wrap_loop_fits(before, c, width);
            lemma_text_width_push(
                self.text@.subrange(self.line as int, self.text@.len() as int),
                c,
            );
            assert(self.text@.push(c).subrange(self.line as int, (self.text@.len() + 1) as int)
                =~= self.text@.subrange(self.line as int, self.text@.len() as int).push(c));
        }
        self.chomper.chomp(c, self.wrap);
        self.text.push(c);
        self.current_width.0 = self.current_width.0 + width;
        ProcessResult::Continue
    }

    /// Lay out another string slice.
    ///
    /// Returns `Break` once there is no more room: the layout is then frozen and every later call
    /// returns `Break` without changing it.
    pub fn add_str(&mut self, s: &str) -> (r: ProcessResult)
        requires
            old(self).state().wf(),
            old(self).state().text.len() + s@.len() < usize::MAX,
            old(self).state().size.height + 2 * s@.len() < usize::MAX,
        ensures
            final(self).state().wf(),
            old(self).state().frozen ==> r == ProcessResult::Break && final(self).state() == old(
                self,
            ).state(),
            !old(self).state().frozen ==> (final(self).state(), r) == old(self).state().add_chars(
                s@,
            ),
    {
        if self.frozen {
            return ProcessResult::Break;
        }
        broadcast use vstd::string::group_string_axioms;

        let ghost st0 = self.state();
        let ghost cs = s@;
        let mut iter = s.chars();
        let ghost mut done: nat = 0;
        proof {
            assert(cs.skip(0) =~= cs);
        }
        loop
            invariant
                self.state().wf(),
                !self.state().frozen,
                done <= cs.len(),
                st0 == old(self).state(),
                !st0.frozen,
                cs == s@,
                st0.add_chars(cs) == self.state().add_chars(cs.skip(done as int)),
                iter.remaining() == cs.skip(done as int),
                iter.obeys_prophetic_iter_laws(),
                self.state().text.len() + (cs.len() - done) < usize::MAX,
                self.state().size.height + 2 * (cs.len() - done) < usize::MAX,
            decreases cs.len() - done,
        {
            let next = iter.next();
            match next {
                None => {
                    proof {
                        assert(cs.skip(done as int).len() == 0);
                    }
                    return ProcessResult::Continue;
                },
                Some(c) => {
                    proof {
                        assert(cs.skip(done as int)[0] == c);
                        assert(cs.skip(done as int).drop_first() =~= cs.skip(done + 1 as int));
                    }
                    if let ProcessResult::Break = self.chomp(c) {
                        self.freeze();
                        return ProcessResult::Break;
                    }
                    proof {
                        done = done + 1;
                    }
                },
            }
        }
    }

    /// Set the layout to frozen: every later call to `add_str` returns `Break`, similar to how a
    /// fused iterator works.
    pub fn freeze(&mut self)
        ensures
            final(self).state() == (LayoutState { frozen: true, ..old(self).state() }),
    {
        self.frozen = true;
    }

    /// Start a style at the current end of the text.
    pub fn set_style(&mut self, style: StyleId)
        requires
            old(self).state().wf(),
        ensures
            final(self).state() == (LayoutState {
                entries: insert_entry(
                    old(self).state().entries,
                    old(self).state().text.len() as usize,
                    Entry::Style(style),
                ),
                ..old(self).state()
            }),
            final(self).state().wf(),
    {
        let ghost st = self.state();
        let index = self.text.len();
        proof {
            lemma_insert_entry(st.entries, index, Entry::Style(style), st.max.width, st.text.len());
        }
        push_entry(&mut self.entries, index, Entry::Style(style));
    }

    /// Finalize the layout, converting entries to lines. Returns the key to the lines in the
    /// session and the size of the text.
    pub fn finish(self, session: &mut StringSession) -> (r: (LayoutKey, Size))
        requires
            self.state().wf(),
        ensures
            final(session).layouts() == old(session).layouts().push(
                build_lines(final_entries(self.state()), self.state().text),
            ),
            r.0.spec_index() == old(session).layouts().len(),
            r.1 == final_size(self.state()),
    {
        let ghost st = self.state();
        let mut this = self;
        let len = this.text.len();
        proof {
            assert(st.text.subrange(st.line as int, len as int) =~= st.text.subrange(st.line as int, st.text.len() as int));
        }
        let last_line_width = range_width(&this.text, this.line, len);
        #[verifier::truncate]
        let last16 = last_line_width as u16;
        proof {
            lemma_insert_entry(st.entries, len, Entry::LineWidth(last16), st.max.width, st.text.len());
        }
        push_entry(&mut this.entries, len, Entry::LineWidth(last16));
        let ghost entries = this.entries@;
        let ghost text = this.text@;
        let mut lines: Vec<Line<Vec<Segment>>> = Vec::new();
        let mut current: Vec<Segment> = Vec::new();
        let mut width: u16 = 0;
        let mut from: usize = 0;
        let mut j: usize = 0;
        let n = this.entries.len();
        while j < n
            invariant
                n == entries.len(),
                entries == this.entries@,
                text == this.text@,
                entries_sorted(entries),
                keys_within(entries, text.len()),
                j <= n,
                from <= text.len(),
                forall|i: int| j <= i < n ==> from <= #[trigger] entries[i].0,
                ({
                    let b = build_prefix(entries, text, j as nat);
                    &&& lines_view(lines@) == b.lines
                    &&& current@.map_values(|s: Segment| segment_view(s)) == b.current
                    &&& width == b.width
                    &&& from == b.from
                }),
            decreases n - j,
        {
            let key = this.entries[j].0;
            let entry = this.entries[j].1;
            let ghost b = build_prefix(entries, text, j as nat);
            proof {
                assert(build_prefix(entries, text, (j + 1) as nat) == build_step(b, entries[j as int], text));
            }
            match entry {
                Entry::Newline => {
                    let mut done: Vec<Segment> = Vec::new();
                    std::mem::swap(&mut done, &mut current);
                    lines.push(Line { width, entries: done });
                    proof {
                        assert(lines_view(lines@) =~= b.lines.push((b.width, b.current)));
                        assert(current@.map_values(|s: Segment| segment_view(s)) =~= Seq::<SegmentView>::empty());
                    }
                },
                Entry::LineWidth(w) => {
                    if from != key {
                        let piece = string_from_chars(slice_subrange(this.text.as_slice(), from, key));
                        current.push(Segment::Str(piece));
                    }
                    proof {
                        assert(current@.map_values(|s: Segment| segment_view(s)) =~= with_text_up_to(b, text, key));
                    }
                    from = key;
                    width = w;
                },
                Entry::Style(id) => {
                    if from != key {
                        let piece = string_from_chars(slice_subrange(this.text.as_slice(), from, key));
                        current.push(Segment::Str(piece));
                    }
                    current.push(Segment::SetStyle(id));
                    proof {
                        assert(current@.map_values(|s: Segment| segment_view(s)) =~= with_text_up_to(b, text, key).push(SegmentView::SetStyle(id)));
                    }
                    from = key;
                },
            }
            proof {
                assert forall|i: int| j + 1 <= i < n implies from <= #[trigger] entries[i].0 by {
                    assert(entries[j as int].0 <= entries[i].0);
                }
            }
            j = j + 1;
        }
        lines.push(Line { width, entries: current });
        proof {
            assert(lines_view(lines@) =~= build_lines(entries, text));
        }
        let key = LayoutKey { index: session.layouts.len() };
        session.layouts.push(lines);
        proof {
            assert(final(session).layouts() =~= old(session).layouts().push(build_lines(entries, text)));
        }
        this.update_width();
        if this.size.width == 0 {
            this.size = Size { width: 0, height: 0 };
        }
        (key, this.size)
    }
}

/// A layout that answers `Break` is frozen: like a fused iterator, every later string is
/// refused with `Break` and changes nothing.
pub proof fn law_break_freezes(st: LayoutState, cs: Seq<char>)
    ensures
        st.add_chars(cs).1 == ProcessResult::Break ==> st.add_chars(cs).0.frozen,
    decreases cs.len(),
{
    if cs.len() > 0 {
        let (next, r) = st.chomp(cs[0]);
        if r != ProcessResult::Break {
            law_break_freezes(next, cs.drop_first());
        }
    }
}

/// A finished layout is never wider than the maximum width.
pub proof fn law_layout_fits_max_width(st: LayoutState)
    requires
        st.wf(),
    ensures
        final_size(st).width <= st.max.width,
{
}

/// The text held by a list of segments, in order.
pub open spec fn segments_text(segs: Seq<SegmentView>) -> Seq<char>
    decreases segs.len(),
{
    if segs.len() == 0 {
        Seq::empty()
    } else {
        segments_text(segs.drop_last()) + match segs.last() {
            SegmentView::Str(t) => t,
            SegmentView::SetStyle(_) => Seq::empty(),
        }
    }
}

/// The text held by a list of lines, in order.
pub open spec fn lines_text(lines: Seq<(u16, Seq<SegmentView>)>) -> Seq<char>
    decreases lines.len(),
{
    if lines.len() == 0 {
        Seq::empty()
    } else {
        lines_text(lines.drop_last()) + segments_text(lines.last().1)
    }
}

/// The text placed so far by a line builder.
pub open spec fn builder_text(b: LineBuilder) -> Seq<char> {
    lines_text(b.lines) + segments_text(b.current)
}

/// Building the lines of a prefix of sorted entries places the text up to where the builder
/// stands, and never past a later entry.
proof fn lemma_build_prefix_text(entries: Seq<(usize, Entry)>, text: Seq<char>, n: nat)
    requires
        entries_sorted(entries),
        keys_within(entries, text.len()),
        n <= entries.len(),
    ensures
        builder_text(build_prefix(entries, text, n)) == text.subrange(
            0,
            build_prefix(entries, text, n).from as int,
        ),
        build_prefix(entries, text, n).from <= text.len(),
        forall|j: int|
            n <= j < entries.len() ==> build_prefix(entries, text, n).from <= #[trigger] entries[j].0,
        n > 0 && !(entries[n - 1].1 is Newline) ==> build_prefix(entries, text, n).from
            == entries[n - 1].0,
    decreases n,
{
    if n == 0 {
        let b = build_prefix(entries, text, 0);
        assert(lines_text(b.lines) =~= Seq::<char>::empty());
        assert(segments_text(b.current) =~= Seq::<char>::empty());
        assert(text.subrange(0, 0) =~= Seq::<char>::empty());
        assert forall|j: int| 0 <= j < entries.len() implies b.from <= #[trigger] entries[j].0 by {}
    } else {
        lemma_build_prefix_text(entries, text, (n - 1) as nat);
        let b = build_prefix(entries, text, (n - 1) as nat);
        let e = entries[n - 1];
        let next = build_step(b, e, text);
        assert(build_prefix(entries, text, n) == next);
        assert(b.from <= e.0);
        assert(e.0 <= text.len());
        let added = with_text_up_to(b, text, e.0);
        assert(segments_text(added) =~= segments_text(b.current) + text.subrange(
            b.from as int,
            e.0 as int,
        )) by {
            if b.from != e.0 {
                assert(added.drop_last() =~= b.current);
            } else {
                assert(text.subrange(b.from as int, e.0 as int) =~= Seq::<char>::empty());
            }
        }
        assert(text.subrange(0, b.from as int) + text.subrange(b.from as int, e.0 as int)
            =~= text.subrange(0, e.0 as int));
        match e.1 {
            Entry::Newline => {
                assert(next.lines.drop_last() =~= b.lines);
                assert(segments_text(next.current) =~= Seq::<char>::empty());
                assert(builder_text(next) =~= builder_text(b));
            },
            Entry::LineWidth(w) => {
                assert(builder_text(next) =~= lines_text(b.lines) + segments_text(added));
            },
            Entry::Style(id) => {
                assert(added.push(SegmentView::SetStyle(id)).drop_last() =~= added);
                assert(builder_text(next) =~= lines_text(b.lines) + segments_text(added));
            },
        }
        assert forall|j: int| n <= j < entries.len() implies next.from <= #[trigger] entries[j].0 by {
            assert(entries[n - 1].0 <= entries[j].0);
        }
    }
}

/// A finished layout loses none of the text it kept: the text of its lines, read in order, is
/// that text.
pub proof fn law_lines_hold_the_text(st: LayoutState)
    requires
        st.wf(),
    ensures
        lines_text(build_lines(final_entries(st), st.text)) == st.text,
{
    let k = st.text.len() as usize;
    let e = Entry::LineWidth(st.current_width as u16);
    let entries = final_entries(st);
    lemma_insert_entry(st.entries, k, e, st.max.width, st.text.len());
    lemma_insertion_point_bounds(st.entries, k);
    assert(insertion_point(st.entries, k) == st.entries.len()) by {
        if insertion_point(st.entries, k) < st.entries.len() {
            let i = insertion_point(st.entries, k) as int;
            assert(st.entries[i].0 > k);
            assert(st.entries[i].0 <= st.text.len());
        }
    }
    assert(entries.last() == (k, e));
    lemma_build_prefix_text(entries, st.text, entries.len());
    let b = build_prefix(entries, st.text, entries.len());
    assert(b.from == k);
    let lines = build_lines(entries, st.text);
    assert(lines.drop_last() =~= b.lines);
    assert(lines_text(lines) =~= builder_text(b));
    assert(st.text.subrange(0, k as int) =~= st.text);
}

/// Building lines from entries whose line widths are at most `max` gives lines at most `max`
/// wide.
proof fn lemma_build_prefix_widths(entries: Seq<(usize, Entry)>, text: Seq<char>, n: nat, max: usize)
    requires
        line_widths_within(entries, max),
        n <= entries.len(),
    ensures
        build_prefix(entries, text, n).width <= max,
        forall|i: int|
            0 <= i < build_prefix(entries, text, n).lines.len() ==> (#[trigger] build_prefix(
                entries,
                text,
                n,
            ).lines[i]).0 <= max,
    decreases n,
{
    if n > 0 {
        lemma_build_prefix_widths(entries, text, (n - 1) as nat, max);
        let b = build_prefix(entries, text, (n - 1) as nat);
        let e = entries[n - 1];
        assert(build_prefix(entries, text, n) == build_step(b, e, text));
        assert(e.1 matches Entry::LineWidth(w) ==> w <= max);
    }
}

/// No line of a finished layout is wider than the maximum width.
pub proof fn law_lines_fit_max_width(st: LayoutState)
    requires
        st.wf(),
    ensures
        forall|i: int|
            0 <= i < build_lines(final_entries(st), st.text).len() ==> (#[trigger] build_lines(
                final_entries(st),
                st.text,
            )[i]).0 <= st.max.width,
{
    let k = st.text.len() as usize;
    lemma_truncate_u16(st.current_width);
    let e = Entry::LineWidth(st.current_width as u16);
    lemma_insert_entry(st.entries, k, e, st.max.width, st.text.len());
    let entries = final_entries(st);
    lemma_build_prefix_widths(entries, st.text, entries.len(), st.max.width);
}

/// Breaking lines to fit a character that is not whitespace never goes past the maximum
/// height: a line is only broken while there is a line to spare.
proof fn lemma_wrap_loop_height(st: LayoutState, c: char, w: usize)
    requires
        st.size.height <= st.max.height,
        !spec_is_whitespace(c),
    ensures
        st.wrap_loop(c, w).0.size.height <= st.max.height,
        st.wrap_loop(c, w).0.max == st.max,
    decreases (if st.size.height < st.max.height {
        st.max.height - st.size.height
    } else {
        0
    }) as nat,
{
    if w + st.current_width <= st.max.width {
    } else if spec_is_whitespace(c) {
    } else if st.size.height >= st.max.height {
    } else {
        lemma_wrap_loop_height(st.newline(), c, w);
    }
}

/// A layout that has reached its maximum height answers a line break with `Break` and stays as
/// it is; and a line break, or any character that is not whitespace, never makes a layout taller
/// than its maximum height. (A whitespace that does not fit the line ends the line without this
/// check, as the layout is written: dropping it cannot wait for a line to spare.)
pub proof fn law_height_stays_within_max(st: LayoutState, c: char)
    requires
        st.size.height <= st.max.height,
        c == '\n' || !spec_is_whitespace(c),
    ensures
        st.chomp(c).0.size.height <= st.max.height,
        st.chomp(c).0.max == st.max,
        c == '\n' && st.size.height >= st.max.height ==> st.chomp(c) == (
            st,
            ProcessResult::Break,
        ),
{
    let w = width_of(c) as usize;
    if w > st.max.width {
    } else if c == '\n' {
    } else {
        lemma_wrap_loop_height(st, c, w);
    }
}

/// Text whose only whitespace is line breaks never makes a layout taller than its maximum
/// height: the line break that would go past it stops the layout with `Break`.
pub proof fn law_text_height_within_max(st: LayoutState, cs: Seq<char>)
    requires
        st.size.height <= st.max.height,
        forall|i: int| 0 <= i < cs.len() ==> #[trigger] cs[i] == '\n' || !spec_is_whitespace(cs[i]),
    ensures
        st.add_chars(cs).0.size.height <= st.max.height,
    decreases cs.len(),
{
    if cs.len() > 0 {
        law_height_stays_within_max(st, cs[0]);
        let (next, r) = st.chomp(cs[0]);
        if r != ProcessResult::Break {
            assert forall|i: int| 0 <= i < cs.drop_first().len() implies #[trigger] cs.drop_first()[i]
                == '\n' || !spec_is_whitespace(cs.drop_first()[i]) by {
                assert(cs.drop_first()[i] == cs[i + 1]);
            }
            law_text_height_within_max(next, cs.drop_first());
        }
    }
}

} // verus!
