//! Glyphs and the placement of glyphs on a surface.
use vstd::prelude::*;

use crate::border::{capped_width, str_width};
use crate::geometry::{LocalPos, Pos, Size};
use crate::width::{char_width_or_zero, width_of};

verus! {

/// Index of a glyph cluster in the glyph map.
#[derive(Debug, Copy, Clone, PartialEq, Eq, Hash, Structural)]
pub struct GlyphIndex(pub u32);

impl GlyphIndex {
    /// The index as a `usize`.
    pub fn as_usize(&self) -> (r: usize)
        ensures
            r == self.0,
    {
        self.0 as usize
    }

    /// The index of a position in the glyph map (truncated to 32 bits).
    pub fn from_usize(index: usize) -> (r: Self)
        ensures
            r.0 == index as u32,
    {
        #[verifier::truncate]
        let i: u32 = index as u32;
        GlyphIndex(i)
    }
}

/// A glyph: a single character or a cluster of characters stored in the glyph map, with its
/// display width.
#[derive(Debug, Copy, Clone, PartialEq, Eq, Hash, Structural)]
pub enum Glyph {
    Single(char, u8),
    Cluster(GlyphIndex, u8),
}

impl Glyph {
    /// The display width of the glyph.
    pub open spec fn spec_width(self) -> u8 {
        match self {
            Glyph::Single(_, w) => w,
            Glyph::Cluster(_, w) => w,
        }
    }

    /// A single space.
    pub fn space() -> (r: Self)
        ensures
            r == Glyph::Single(' ', 1),
    {
        Self::Single(' ', 1)
    }

    /// Returns true if the glyph is a newline character.
    pub fn is_newline(&self) -> (r: bool)
        ensures
            r == (*self matches Glyph::Single(c, _) && c == '\n'),
    {
        match self {
            Glyph::Single(c, _) => *c == '\n',
            Glyph::Cluster(..) => false,
        }
    }

    /// The display width of the glyph.
    pub fn width(&self) -> (r: usize)
        ensures
            r == self.spec_width(),
    {
        match self {
            Glyph::Single(_, width) => *width as usize,
            Glyph::Cluster(_, width) => *width as usize,
        }
    }

    /// The glyph of a grapheme cluster: a single character is a glyph of its own, with its
    /// width; a longer cluster is stored in the glyph map at `index` and keeps the width of the
    /// whole cluster. An empty string is no glyph. Widths are cut to eight bits.
    pub fn from_cluster(cluster: &str, index: GlyphIndex) -> (r: Option<Self>)
        ensures
            cluster@.len() == 0 ==> r is None,
            cluster@.len() == 1 ==> r == Some(Glyph::Single(cluster@[0], width_of(cluster@[0]) as u8)),
            cluster@.len() > 1 ==> r == Some(Glyph::Cluster(index, capped_width(cluster@) as u8)),
    {
        broadcast use vstd::string::group_string_axioms;

        let mut chars = cluster.chars();
        let first = chars.next();
        match first {
            None => None,
            Some(c) => {
                proof {
                    assert(cluster@.skip(1) =~= cluster@.drop_first());
                }
                match chars.next() {
                    None => {
                        #[verifier::truncate]
                        let w: u8 = char_width_or_zero(c) as u8;
                        Some(Glyph::Single(c, w))
                    },
                    Some(_) => {
                        #[verifier::truncate]
                        let w: u8 = str_width(cluster) as u8;
                        Some(Glyph::Cluster(index, w))
                    },
                }
            },
        }
    }

    /// A single character glyph.
    pub fn from_char(c: char, width: u8) -> (r: Self)
        ensures
            r == Glyph::Single(c, width),
    {
        Self::Single(c, width)
    }
}

/// A paint context that has not yet been given a size.
#[derive(Debug, Copy, Clone)]
pub struct Unsized;

/// The size of a paint context in local space and its position in global space.
#[derive(Debug, Copy, Clone, PartialEq, Eq, Structural)]
pub struct SizePos {
    pub local_size: Size,
    pub global_pos: Pos,
}

impl SizePos {
    /// A new size and position.
    pub fn new(local_size: Size, global_pos: Pos) -> (r: Self)
        ensures
            r.local_size == local_size,
            r.global_pos == global_pos,
    {
        Self { local_size, global_pos }
    }
}

/// What placing a glyph does: draw it at a position of the surface (or nowhere), and where the
/// next glyph goes (`None`: nothing more fits).
#[derive(Debug, Copy, Clone, PartialEq, Eq, Structural)]
pub struct Placement {
    pub draw_at: Option<Pos>,
    pub next: Option<LocalPos>,
}

/// The start of the line below, if it is inside the context.
pub open spec fn next_line(pos: LocalPos, ctx: SizePos) -> Option<LocalPos> {
    let y = pos.y + 1;
    if y >= ctx.local_size.height {
        None
    } else {
        Some(LocalPos { x: 0, y: y as u16 })
    }
}

/// The glyph fits inside the context at this position.
pub open spec fn inside_local_region(pos: LocalPos, width: nat, ctx: SizePos) -> bool {
    pos.x + width <= ctx.local_size.width && pos.y < ctx.local_size.height
}

/// The global position of a local position, if it is on the surface.
pub open spec fn to_global(pos: LocalPos, ctx: SizePos, surface: (i32, i32)) -> Option<Pos> {
    let x = pos.x + ctx.global_pos.x;
    let y = pos.y + ctx.global_pos.y;
    if x < 0 || y < 0 || x >= surface.0 || y >= surface.1 {
        None
    } else {
        Some(Pos { x: x as i32, y: y as i32 })
    }
}

/// Placing a glyph at `pos`: a position outside the clipping region is skipped; a newline moves
/// to the next line; a glyph that does not fit the context ends painting; a glyph off the
/// surface is skipped; otherwise it is drawn and the cursor advances (to the next line if the
/// cursor is at the right edge).
pub open spec fn placement(
    glyph: Glyph,
    pos: LocalPos,
    ctx: SizePos,
    surface: (i32, i32),
    inside_clip: Option<bool>,
) -> Placement {
    let width = glyph.spec_width() as nat;
    let next = LocalPos { x: (pos.x + width) as u16, y: pos.y };
    if inside_clip == Some(false) {
        Placement { draw_at: None, next: Some(next) }
    } else if glyph matches Glyph::Single(c, _) && c == '\n' {
        Placement { draw_at: None, next: next_line(pos, ctx) }
    } else if !inside_local_region(pos, width, ctx) {
        Placement { draw_at: None, next: None }
    } else {
        match to_global(pos, ctx, surface) {
            None => Placement { draw_at: None, next: Some(next) },
            Some(at) => Placement {
                draw_at: Some(at),
                next: if pos.x >= ctx.local_size.width as u16 {
                    next_line(pos, ctx)
                } else {
                    Some(next)
                },
            },
        }
    }
}

/// The arithmetic of placing a glyph stays in range: the cursor's column, the next line and the
/// global position fit their types on the path taken.
pub open spec fn placement_in_range(
    glyph: Glyph,
    pos: LocalPos,
    ctx: SizePos,
    inside_clip: Option<bool>,
) -> bool {
    let width = glyph.spec_width() as nat;
    let newline = glyph matches Glyph::Single(c, _) && c == '\n';
    &&& pos.x + width <= u16::MAX
    &&& inside_clip != Some(false) && newline ==> pos.y < u16::MAX
    &&& inside_clip != Some(false) && !newline && inside_local_region(pos, width, ctx) ==> {
        &&& i32::MIN <= pos.x + ctx.global_pos.x <= i32::MAX
        &&& i32::MIN <= pos.y + ctx.global_pos.y <= i32::MAX
        &&& pos.y < u16::MAX
    }
}

/// Place a glyph at a position in local space: where to draw it on the surface (if anywhere)
/// and where the next glyph goes. `surface` is the size of the surface, `inside_clip` whether
/// the position is inside the clipping region (`None` when there is none).
pub fn place_glyph(
    glyph: Glyph,
    input_pos: LocalPos,
    ctx: SizePos,
    surface: (i32, i32),
    inside_clip: Option<bool>,
) -> (r: Placement)
    requires
        placement_in_range(glyph, input_pos, ctx, inside_clip),
    ensures
        r == placement(glyph, input_pos, ctx, surface, inside_clip),
{
    let width = glyph.width();
    let next = LocalPos { x: input_pos.x + width as u16, y: input_pos.y };

    // Ensure that the position is inside the provided clipping region
    if let Some(false) = inside_clip {
        return Placement { draw_at: None, next: Some(next) };
    }
    // 1. Newline
    if glyph.is_newline() {
        return Placement { draw_at: None, next: newline(input_pos, ctx) };
    }
    // 2. Check if the glyph can be placed
    if !((input_pos.x as usize) <= ctx.local_size.width && width <= ctx.local_size.width - input_pos.x as usize
        && (input_pos.y as usize) < ctx.local_size.height) {
        return Placement { draw_at: None, next: None };
    }
    // 3. Find the position on the surface
    let screen_x = input_pos.x as i32 + ctx.global_pos.x;
    let screen_y = input_pos.y as i32 + ctx.global_pos.y;
    if screen_x < 0 || screen_y < 0 || screen_x >= surface.0 || screen_y >= surface.1 {
        return Placement { draw_at: None, next: Some(next) };
    }
    let at = Pos { x: screen_x, y: screen_y };
    // 4. Advance the cursor (which might move to the next line)
    #[verifier::truncate]
    let local_width = ctx.local_size.width as u16;
    if input_pos.x >= local_width {
        Placement { draw_at: Some(at), next: newline(input_pos, ctx) }
    } else {
        Placement { draw_at: Some(at), next: Some(next) }
    }
}

/// The start of the line below `pos`, if it is inside the context.
fn newline(pos: LocalPos, ctx: SizePos) -> (r: Option<LocalPos>)
    requires
        pos.y < u16::MAX,
    ensures
        r == next_line(pos, ctx),
{
    let y = pos.y + 1;
    if y as usize >= ctx.local_size.height {
        None
    } else {
        Some(LocalPos { x: 0, y })
    }
}

/// Where placing a glyph puts things: whenever the cursor stays on the glyph's line it moves
/// on by exactly the glyph's width (whether the glyph was drawn, clipped away or fell off the
/// surface); a drawn glyph lands at its local position moved by the context's global position,
/// on the surface, and was not clipped away; a glyph that does not fit the context ends
/// painting.
pub proof fn law_cursor_advances_by_width(
    glyph: Glyph,
    pos: LocalPos,
    ctx: SizePos,
    surface: (i32, i32),
    inside_clip: Option<bool>,
)
    requires
        placement_in_range(glyph, pos, ctx, inside_clip),
    ensures
        ({
            let r = placement(glyph, pos, ctx, surface, inside_clip);
            &&& (r.next matches Some(n) && n.y == pos.y) ==> r.next->0.x == pos.x
                + glyph.spec_width()
            &&& inside_clip == Some(false) ==> r.draw_at is None && r.next == Some(
                LocalPos { x: (pos.x + glyph.spec_width()) as u16, y: pos.y },
            )
            &&& r.draw_at is Some ==> {
                &&& r.draw_at->0.x == pos.x + ctx.global_pos.x
                &&& r.draw_at->0.y == pos.y + ctx.global_pos.y
                &&& 0 <= r.draw_at->0.x < surface.0 && 0 <= r.draw_at->0.y < surface.1
                &&& inside_clip != Some(false)
                &&& pos.x + glyph.spec_width() <= ctx.local_size.width
                &&& pos.y < ctx.local_size.height
            }
            &&& (r.next matches Some(n) && n.y != pos.y) ==> r.next->0.x == 0 && r.next->0.y
                == pos.y + 1 && r.next->0.y < ctx.local_size.height
        }),
{
}

} // verus!
