use anathema_widgets::constraints::Constraints;
use anathema_widgets::geometry::{LocalPos, Pos, Size};
use anathema_widgets::layout::{Axis, BorderLayout, Padding};
use anathema_widgets::paint::{place_glyph, Glyph, SizePos};
use anathema_widgets::place::{Align, Alignment, Expand, HorzEdge, Position, VertEdge};
use anathema_widgets::text::{StringStorage, Wrap};

/// The size of a laid out text.
fn text_size(text: &str, max: Size) -> Size {
    let mut storage = StringStorage::new();
    let session = storage.new_session();
    let mut strings = session.new_layout(max, Wrap::Normal);
    strings.add_str(text);
    let (_, size) = strings.finish(session);
    size
}

/// Where an aligned "AB" lands in a terminal of the given size.
fn align_widget(align: Align, term: Size) -> Pos {
    let child = text_size("AB", term);
    assert_eq!(child, Size::new(2, 1));
    Alignment::new(align).position(Pos::zero(), term, child)
}

#[test]
fn align_top_left() {
    assert_eq!(align_widget(Align::TopLeft, Size::new(16, 4)), Pos::new(0, 0));
}

#[test]
fn align_top() {
    assert_eq!(align_widget(Align::Top, Size::new(20, 3)), Pos::new(9, 0));
}

#[test]
fn align_top_right() {
    assert_eq!(align_widget(Align::TopRight, Size::new(16, 3)), Pos::new(14, 0));
}

#[test]
fn align_right() {
    assert_eq!(align_widget(Align::Right, Size::new(16, 3)), Pos::new(14, 1));
}

#[test]
fn align_bottom_right() {
    assert_eq!(align_widget(Align::BottomRight, Size::new(16, 3)), Pos::new(14, 2));
}

#[test]
fn align_bottom() {
    assert_eq!(align_widget(Align::Bottom, Size::new(16, 3)), Pos::new(7, 2));
}

#[test]
fn align_bottom_left() {
    assert_eq!(align_widget(Align::BottomLeft, Size::new(16, 3)), Pos::new(0, 2));
}

#[test]
fn align_left() {
    assert_eq!(align_widget(Align::Left, Size::new(16, 3)), Pos::new(0, 1));
}

#[test]
fn align_centre() {
    assert_eq!(align_widget(Align::Centre, Size::new(16, 3)), Pos::new(7, 1));
}

#[test]
fn alignment_of_a_wider_child_starts_left_of_its_parent() {
    // A child wider than its parent: half the parent less half the child is negative.
    let pos = Alignment::new(Align::Centre).position(Pos::new(10, 10), Size::new(3, 3), Size::new(8, 1));
    assert_eq!(pos, Pos::new(10 + 1 - 4, 10 + 1));
}

/// Where a positioned text lands in a terminal of the given size.
fn position_widget(left: Option<i32>, right: Option<i32>, top: Option<i32>, bottom: Option<i32>, text: &str, term: Size) -> Pos {
    let position = Position::from_attributes(left, right, top, bottom);
    let child = text_size(text, term);
    let constraints = Constraints::new(Some(term.width), Some(term.height));
    let inner = position.size(&constraints, child);
    position.position(Pos::zero(), inner, child)
}

#[test]
fn top_left() {
    assert_eq!(position_widget(Some(0), None, Some(0), None, "top left", Size::new(15, 4)), Pos::new(0, 0));
}

#[test]
fn top_right() {
    assert_eq!(position_widget(None, Some(0), Some(0), None, "top right", Size::new(15, 4)), Pos::new(6, 0));
}

#[test]
fn bottom_right() {
    assert_eq!(position_widget(None, Some(0), None, Some(0), "bottom right", Size::new(15, 4)), Pos::new(3, 3));
}

#[test]
fn bottom_left() {
    assert_eq!(position_widget(Some(0), None, None, Some(0), "bottom left", Size::new(15, 4)), Pos::new(0, 3));
}

#[test]
fn position_defaults_to_right_and_top() {
    let p = Position::from_attributes(None, None, None, None);
    assert_eq!(p, Position::new(HorzEdge::Right(Some(0)), VertEdge::Top(Some(0))));
    let p = Position::from_attributes(Some(1), Some(2), Some(3), Some(4));
    assert_eq!(p, Position::new(HorzEdge::Left(Some(1)), VertEdge::Top(Some(3))));
    // Distances from the far edges.
    let pos = Position::new(HorzEdge::Right(Some(2)), VertEdge::Bottom(Some(1)))
        .position(Pos::new(1, 1), Size::new(10, 5), Size::new(3, 2));
    assert_eq!(pos, Pos::new(1 + 10 - 2 - 3, 1 + 5 - 1 - 2));
}

/// A border around an expansion: the size of the border and of the text inside it.
fn border_around_expand(axis: Option<Axis>, text: Option<&str>, term: Size, padding: Padding) -> Size {
    let border = BorderLayout { min_width: None, min_height: None, width: None, height: None, border_size: Size::new(2, 2) };
    let expand = Expand { axis, fill: None, factor: None };
    let mut progress = border.start(Constraints::new(Some(term.width), Some(term.height)), padding).unwrap();
    let c = border.child_constraints(&mut progress).unwrap();
    let child = match text {
        Some(t) => text_size(t, Size::new(c.max_width(), c.max_height())),
        None => Size::zero(),
    };
    let inner = expand.size(&c, child);
    border.child_size(&mut progress, inner);
    border.size(&progress)
}

#[test]
fn expand_border() {
    assert_eq!(border_around_expand(None, None, Size::new(15, 6), Padding::zero()), Size::new(15, 6));
}

#[test]
fn expand_horz() {
    let text = Some("A cup of tea please");
    assert_eq!(border_around_expand(Some(Axis::Horizontal), text, Size::new(30, 5), Padding::zero()), Size::new(30, 3));
}

#[test]
fn expand_vert() {
    let text = Some("A cup of tea please");
    assert_eq!(border_around_expand(Some(Axis::Vertical), text, Size::new(30, 7), Padding::zero()), Size::new(21, 7));
}

#[test]
fn expand_all() {
    let text = Some("A cup of tea please");
    assert_eq!(border_around_expand(None, text, Size::new(30, 7), Padding::zero()), Size::new(30, 7));
}

#[test]
fn expand_with_padding() {
    let text = Some("A cup of tea please");
    assert_eq!(border_around_expand(None, text, Size::new(30, 8), Padding::new(1)), Size::new(30, 8));
}

#[test]
fn expand_factor_defaults_to_zero() {
    assert_eq!(Expand { axis: None, fill: None, factor: None }.factor_or_default(), 0);
    assert_eq!(Expand { axis: None, fill: None, factor: Some(3) }.factor_or_default(), 3);
}

#[test]
fn put() {
    // Put a character on a 10 x 5 screen, in a 2 x 2 context at (3, 2).
    let ctx = SizePos::new(Size::new(2, 2), Pos::new(3, 2));
    let placement = place_glyph(Glyph::from_char('x', 1), LocalPos::new(1, 1), ctx, (10, 5), None);
    assert_eq!(placement.draw_at, Some(Pos::new(4, 3)));
}

#[test]
fn clip() {
    // A 20 x 20 context at (1, 1) on a 25 x 25 screen, clipped to (1, 1)..(3, 3).
    let ctx = SizePos::new(Size::new(20, 20), Pos::new(1, 1));
    let inside = |p: LocalPos| {
        let x = p.x as i32 + 1;
        let y = p.y as i32 + 1;
        (1..=3).contains(&x) && (1..=3).contains(&y)
    };
    let first = LocalPos::new(1, 1);
    let placed = place_glyph(Glyph::from_char('y', 1), first, ctx, (25, 25), Some(inside(first)));
    assert_eq!(placed.draw_at, Some(Pos::new(2, 2)));
    let second = LocalPos::new(15, 15);
    let placed = place_glyph(Glyph::from_char('z', 1), second, ctx, (25, 25), Some(inside(second)));
    assert_eq!(placed.draw_at, None);
}

#[test]
fn put_outside_of_screen() {
    // A 2 x 2 context on a 1 x 1 screen: nothing lands outside the screen.
    let ctx = SizePos::new(Size::new(2, 2), Pos::zero());
    let a = place_glyph(Glyph::from_char('a', 1), LocalPos::new(2, 2), ctx, (1, 1), None);
    assert_eq!(a.draw_at, None);
    let b = place_glyph(Glyph::from_char('b', 1), LocalPos::new(100, 100), ctx, (1, 1), None);
    assert_eq!(b.draw_at, None);
    // Inside the context but off the screen: skipped, the cursor moves on.
    let c = place_glyph(Glyph::from_char('c', 1), LocalPos::new(1, 0), ctx, (1, 1), None);
    assert_eq!(c.draw_at, None);
    assert_eq!(c.next, Some(LocalPos::new(2, 0)));
}

#[test]
fn newline_moves_to_next_line_or_ends() {
    let ctx = SizePos::new(Size::new(5, 2), Pos::zero());
    let nl = place_glyph(Glyph::from_char('\n', 0), LocalPos::new(3, 0), ctx, (10, 10), None);
    assert_eq!(nl.next, Some(LocalPos::new(0, 1)));
    let last = place_glyph(Glyph::from_char('\n', 0), LocalPos::new(3, 1), ctx, (10, 10), None);
    assert_eq!(last.next, None);
}
