//! Display width of characters and strings, in terminal columns.
use vstd::prelude::*;

use unicode_width::UnicodeWidthChar;

verus! {

/// The width that the lookup tables of `unicode-width` give a character at or above U+00A0.
pub uninterp spec fn char_width_table(c: char) -> usize;

/// The width `UnicodeWidthChar::width` gives a character: `None` for control characters other
/// than NUL, `Some(0)` for NUL, `Some(1)` for printable ASCII, and the table value otherwise.
pub open spec fn spec_char_width(c: char) -> Option<usize> {
    let u = c as u32;
    if u < 0x7F {
        if u >= 0x20 {
            Some(1)
        } else if u == 0 {
            Some(0)
        } else {
            None
        }
    } else if u >= 0xA0 {
        Some(char_width_table(c))
    } else {
        None
    }
}

/// The width a character takes up in a line of text: control characters take none.
pub open spec fn width_of(c: char) -> nat {
    match spec_char_width(c) {
        Some(w) => w as nat,
        None => 0,
    }
}

/// The width of a sequence of characters: the sum of the widths of its characters.
pub open spec fn text_width(s: Seq<char>) -> nat
    decreases s.len(),
{
    if s.len() == 0 {
        0
    } else {
        text_width(s.drop_last()) + width_of(s.last())
    }
}

/// `UnicodeWidthChar::width` of `unicode-width`: below U+007F and between U+007F and U+00A0
/// the source decides by ranges (printable ASCII is one column, NUL zero, other control
/// characters have no width); from U+00A0 on it reads its tables, whose entries are at most two
/// columns wide. What the tables hold is left unsaid: it is named by `char_width_table`.
#[verifier::external_body]
pub(crate) fn char_width(c: char) -> (r: Option<usize>)
    ensures
        r == spec_char_width(c),
        (c as u32) >= 0xA0 ==> r == Some(char_width_table(c)),
        r matches Some(w) ==> w <= 2,
{
    c.width()
}

/// A character's width in a line of text: its display width, or zero for control characters.
pub fn char_width_or_zero(c: char) -> (r: usize)
    ensures
        r == width_of(c),
        r <= 2,
{
    match char_width(c) {
        Some(w) => w,
        None => 0,
    }
}

/// The character has the Unicode `White_Space` property.
pub open spec fn spec_is_whitespace(c: char) -> bool {
    let u = c as u32;
    ||| 0x09 <= u <= 0x0D
    ||| u == 0x20
    ||| u == 0x85
    ||| u == 0xA0
    ||| u == 0x1680
    ||| 0x2000 <= u <= 0x200A
    ||| u == 0x2028
    ||| u == 0x2029
    ||| u == 0x202F
    ||| u == 0x205F
    ||| u == 0x3000
}

/// Returns true if the character has the Unicode `White_Space` property.
pub fn is_whitespace(c: char) -> (r: bool)
    ensures
        r == spec_is_whitespace(c),
{
    let u = c as u32;
    (0x09 <= u && u <= 0x0D) || u == 0x20 || u == 0x85 || u == 0xA0 || u == 0x1680 || (0x2000 <= u
        && u <= 0x200A) || u == 0x2028 || u == 0x2029 || u == 0x202F || u == 0x205F || u == 0x3000
}

/// The width of a whole sequence is the width of its two halves added together.
pub proof fn lemma_text_width_split(s: Seq<char>, k: int)
    requires
        0 <= k <= s.len(),
    ensures
        text_width(s) == text_width(s.subrange(0, k)) + text_width(s.subrange(k, s.len() as int)),
    decreases s.len(),
{
    if k == s.len() {
        assert(s.subrange(0, k) =~= s);
        assert(s.subrange(k, s.len() as int) =~= Seq::<char>::empty());
    } else {
        let t = s.drop_last();
        lemma_text_width_split(t, k);
        assert(t.subrange(0, k) =~= s.subrange(0, k));
        let r = s.subrange(k, s.len() as int);
        assert(r.drop_last() =~= t.subrange(k, t.len() as int));
        assert(r.last() == s.last());
    }
}

/// The width of `s[from..to]` splits at any point in between.
pub proof fn lemma_text_width_range_split(s: Seq<char>, from: int, mid: int, to: int)
    requires
        0 <= from <= mid <= to <= s.len(),
    ensures
        text_width(s.subrange(from, to)) == text_width(s.subrange(from, mid)) + text_width(
            s.subrange(mid, to),
        ),
{
    let r = s.subrange(from, to);
    lemma_text_width_split(r, mid - from);
    assert(r.subrange(0, mid - from) =~= s.subrange(from, mid));
    assert(r.subrange(mid - from, r.len() as int) =~= s.subrange(mid, to));
}

/// Appending a character adds its width.
pub proof fn lemma_text_width_push(s: Seq<char>, c: char)
    ensures
        text_width(s.push(c)) == text_width(s) + width_of(c),
{
    assert(s.push(c).drop_last() =~= s);
}

/// The width of the characters `text[from..to]`.
pub fn range_width(text: &Vec<char>, from: usize, to: usize) -> (r: usize)
    requires
        from <= to <= text.len(),
        text_width(text@.subrange(from as int, to as int)) <= usize::MAX,
    ensures
        r == text_width(text@.subrange(from as int, to as int)),
{
    let mut sum: usize = 0;
    let mut i: usize = from;
    while i < to
        invariant
            from <= i <= to <= text.len(),
            text_width(text@.subrange(from as int, to as int)) <= usize::MAX,
            sum == text_width(text@.subrange(from as int, i as int)),
        decreases to - i,
    {
        proof {
            lemma_text_width_range_split(text@, from as int, (i + 1) as int, to as int);
            assert(text@.subrange(from as int, (i + 1) as int) =~= text@.subrange(
                from as int,
                i as int,
            ).push(text@[i as int]));
            lemma_text_width_push(text@.subrange(from as int, i as int), text@[i as int]);
        }
        sum = sum + char_width_or_zero(text[i]);
        i = i + 1;
    }
    sum
}

} // verus!
