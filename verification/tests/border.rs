use anathema_widgets::border::{
    str_width, Border, BorderStyle, DEFAULT_ROUND_EDGES, DEFAULT_SLIM_EDGES, DEFAULT_THICK_EDGES,
};
use anathema_widgets::geometry::{Pos, Size};

#[test]
fn empty_style_is_slim() {
    let style = BorderStyle::empty();
    assert_eq!(style.edges(), DEFAULT_SLIM_EDGES);
    assert_eq!(style.corners, [0, 3, 6, 9, 12, 15, 18, 21]);
    assert_eq!(style.size(), Size::new(2, 2));
}

#[test]
fn slim_edges() {
    let style = BorderStyle::empty();
    assert_eq!(style.top_left(), "┌");
    assert_eq!(style.top(), "─");
    assert_eq!(style.top_right(), "┐");
    assert_eq!(style.right(), "│");
    assert_eq!(style.bottom_right(), "┘");
    assert_eq!(style.bottom(), "─");
    assert_eq!(style.bottom_left(), "└");
    assert_eq!(style.left(), "│");
    assert_eq!(style.slice(0, 2), "┌─");
}

#[test]
fn fix_if_expired_same_kind_changes_nothing() {
    let mut style = BorderStyle::empty();
    style.corners = [9; 8];
    style.fix_if_expired(DEFAULT_SLIM_EDGES);
    assert_eq!(style.corners, [9; 8]);
    assert_eq!(style.left_width, 1);
}

#[test]
fn fix_if_expired_reads_the_edges_of_the_style() {
    // Edges of mixed byte lengths: the starts of the edges are read from the clusters.
    let mut style = BorderStyle::with_edges("+-+|+-+|");
    style.fix_if_expired(DEFAULT_THICK_EDGES);
    assert_eq!(style.corners, [0, 1, 2, 3, 4, 5, 6, 7]);
    assert_eq!(style.edges(), "+-+|+-+|");
    assert_eq!(style.left_width, 1);
    assert_eq!(style.right_width, 1);
    assert_eq!(style.top_left(), "+");
    assert_eq!(style.left(), "|");

    // A combining mark stays in the cluster of its base: "e\u{301}" is one edge.
    let mut style = BorderStyle::with_edges("e\u{301}ab");
    style.fix_if_expired(DEFAULT_ROUND_EDGES);
    assert_eq!(&style.corners[..3], &[0, 3, 4]);
    // Edges past the last cluster keep their starts.
    assert_eq!(&style.corners[3..], &[9, 12, 15, 18, 21]);
}

#[test]
fn fix_if_expired_counts_wide_edges_on_the_left() {
    let mut style = BorderStyle::with_edges("ab🐇cdefgh");
    style.fix_if_expired(DEFAULT_SLIM_EDGES);
    // The rabbit is two cells wide; it is one of the first eight edges.
    assert_eq!(style.left_width, 2);
    assert_eq!(style.right_width, 1);
    assert_eq!(style.corners, [0, 1, 2, 6, 7, 8, 9, 10]);
    assert_eq!(style.size(), Size::new(3, 2));
}

#[test]
fn str_width_sums_char_widths() {
    assert_eq!(str_width("abc"), 3);
    assert_eq!(str_width("🐇a"), 3);
    assert_eq!(str_width("a\u{7}b"), 2);
    assert_eq!(str_width(""), 0);
}

#[test]
fn border_places_child_inside() {
    let border = Border::new();
    assert_eq!(border.child_position(Pos::new(4, 5)), Pos::new(5, 6));
}

#[test]
fn thick_and_round_edges() {
    let mut style = BorderStyle::with_edges(DEFAULT_THICK_EDGES);
    style.fix_if_expired(DEFAULT_SLIM_EDGES);
    assert_eq!(style.corners, [0, 3, 6, 9, 12, 15, 18, 21]);
    assert_eq!(style.top_left(), "╔");
    assert_eq!(style.bottom(), "═");
    let mut style = BorderStyle::with_edges(DEFAULT_ROUND_EDGES);
    style.fix_if_expired(DEFAULT_SLIM_EDGES);
    assert_eq!(style.bottom_right(), "╯");
    assert_eq!(style.left(), "│");
}

#[test]
fn checked_edges() {
    let style = BorderStyle::empty();
    assert_eq!(style.edge(0), Some("┌"));
    assert_eq!(style.edge(7), Some("│"));
    let mut style = BorderStyle::with_edges("ab");
    // Starts of the slim style fall inside or past these edges.
    assert_eq!(style.edge(0), None);
    style.fix_if_expired(DEFAULT_SLIM_EDGES);
    assert_eq!(style.edge(0), Some("a"));
    assert_eq!(style.edge(1), None);
}
