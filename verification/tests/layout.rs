use anathema_widgets::constraints::Constraints;
use anathema_widgets::geometry::{Pos, Size};
use anathema_widgets::layout::{fix_size, BorderLayout, LayoutError, Padding, PaddingValues};

fn bounds(c: &Constraints) -> (usize, usize, usize, usize) {
    (c.min_width(), c.min_height(), c.max_width(), c.max_height())
}

fn plain_border() -> BorderLayout {
    BorderLayout {
        min_width: None,
        min_height: None,
        width: None,
        height: None,
        border_size: Size::new(2, 2),
    }
}

/// Run a border layout whose single child takes `child(constraints)`.
fn border_layout(
    border: &BorderLayout,
    constraints: Constraints,
    padding: Padding,
    child: Option<&dyn Fn(&Constraints) -> Size>,
) -> Size {
    let mut progress = match border.start(constraints, padding) {
        Some(p) => p,
        None => return Size::zero(),
    };
    if let Some(child) = child {
        if let Ok(c) = border.child_constraints(&mut progress) {
            let inner = child(&c);
            border.child_size(&mut progress, inner);
        }
    }
    border.size(&progress)
}

#[test]
fn padding_size_adds_up_each_axis() {
    let p = Padding { top: 1, right: 2, bottom: 3, left: 4 };
    assert_eq!(p.size(), Size::new(6, 4));
    assert_eq!(Padding::zero().size(), Size::zero());
    assert_eq!(Padding::new(2), Padding { top: 2, right: 2, bottom: 2, left: 2 });
}

#[test]
fn apply_padding_shrinks_max_and_clamps_min() {
    let mut c = Constraints::new(Some(10), Some(5));
    c.set_min_width(9);
    c.set_min_height(1);
    c.apply_padding(Padding { top: 1, right: 1, bottom: 1, left: 1 });
    assert_eq!(bounds(&c), (8, 1, 8, 3));

    // Padding larger than the room leaves nothing, not an underflow.
    let mut c = Constraints::new(Some(1), Some(1));
    c.apply_padding(Padding::new(5));
    assert_eq!(bounds(&c), (0, 0, 0, 0));

    // No padding changes nothing, even a minimum above the maximum.
    let mut c = Constraints::new(Some(3), Some(3));
    c.set_min_width(7);
    c.apply_padding(Padding::zero());
    assert_eq!(bounds(&c), (7, 0, 3, 3));
}

#[test]
fn border_around_child_adds_border_size() {
    let border = plain_border();
    let size = border_layout(
        &border,
        Constraints::new(Some(15), Some(6)),
        Padding::zero(),
        Some(&|c: &Constraints| Size::new(c.max_width(), c.max_height())),
    );
    assert_eq!(size, Size::new(15, 6));

    let size = border_layout(
        &border,
        Constraints::new(Some(15), Some(6)),
        Padding::zero(),
        Some(&|_: &Constraints| Size::new(3, 1)),
    );
    assert_eq!(size, Size::new(5, 3));
}

#[test]
fn border_child_constraints_take_off_the_border() {
    let border = plain_border();
    let mut progress = border.start(Constraints::new(Some(15), Some(6)), Padding::zero()).unwrap();
    let c = border.child_constraints(&mut progress).unwrap();
    assert_eq!(bounds(&c), (0, 0, 13, 4));
}

#[test]
fn border_too_small_for_its_border_fails() {
    let border = plain_border();
    // Not enough width: nothing changes.
    let mut progress = border.start(Constraints::new(Some(1), Some(6)), Padding::zero()).unwrap();
    assert_eq!(border.child_constraints(&mut progress), Err(LayoutError::InsufficientSpaceAvailble));
    assert_eq!(bounds(&progress.constraints), (0, 0, 1, 6));
    // Not enough height: the width was already taken off.
    let mut progress = border.start(Constraints::new(Some(6), Some(1)), Padding::zero()).unwrap();
    assert_eq!(border.child_constraints(&mut progress), Err(LayoutError::InsufficientSpaceAvailble));
    assert_eq!(bounds(&progress.constraints), (0, 0, 4, 1));
    // Exactly the border: no room for the child.
    let mut progress = border.start(Constraints::new(Some(2), Some(5)), Padding::zero()).unwrap();
    assert_eq!(border.child_constraints(&mut progress), Err(LayoutError::InsufficientSpaceAvailble));
    assert_eq!(bounds(&progress.constraints), (0, 0, 0, 3));
}

#[test]
fn border_without_child_takes_min_size_or_tight_max() {
    let border = plain_border();
    let mut c = Constraints::new(Some(10), Some(4));
    c.set_min_width(3);
    c.set_min_height(4);
    // Width is not tight: min width; height is tight: max height.
    assert_eq!(border_layout(&border, c, Padding::zero(), None), Size::new(3, 4));
}

#[test]
fn border_with_zero_constraints_has_zero_size() {
    let border = plain_border();
    assert!(border.start(Constraints::zero(), Padding::zero()).is_none());
}

#[test]
fn border_fixed_width_and_minimum_height() {
    let border = BorderLayout {
        min_width: None,
        min_height: Some(5),
        width: Some(8),
        height: None,
        border_size: Size::new(2, 2),
    };
    let mut progress = border.start(Constraints::new(Some(20), Some(20)), Padding::zero()).unwrap();
    assert_eq!(bounds(&progress.constraints), (8, 5, 8, 20));
    assert!(progress.width_tight);
    assert!(!progress.height_tight);
    let c = border.child_constraints(&mut progress).unwrap();
    assert_eq!(bounds(&c), (6, 5, 6, 18));
    border.child_size(&mut progress, Size::new(6, 1));
    // 1 + 2 = 3 is raised to the minimum height.
    assert_eq!(border.size(&progress), Size::new(8, 5));
}

#[test]
fn border_with_padding() {
    let border = plain_border();
    let size = border_layout(
        &border,
        Constraints::new(Some(30), Some(8)),
        Padding::new(1),
        Some(&|c: &Constraints| {
            assert_eq!(bounds(c), (0, 0, 26, 4));
            Size::new(c.max_width(), c.max_height())
        }),
    );
    assert_eq!(size, Size::new(30, 8));
}

#[test]
fn fix_size_applies_fixed_and_minimum_sizes() {
    let c = Constraints::new(Some(10), Some(10));
    let s = Size::new(3, 3);
    assert_eq!(fix_size(s, Some(7), None, None, None, &c), Size::new(7, 3));
    assert_eq!(fix_size(s, None, Some(5), None, Some(20), &c), Size::new(5, 10));
    assert_eq!(fix_size(s, None, Some(2), Some(1), None, &c), Size::new(3, 1));
}

#[test]
fn padding_values_fall_back_to_padding() {
    let p = PaddingValues::new(Some(2), Some(5), None, None, Some(0));
    assert_eq!(p, PaddingValues { left: 5, top: 2, right: 2, bottom: 0 });
    assert_eq!(p.size(), Size::new(7, 2));
    assert_eq!(p.top_left(), Pos::new(5, 2));
    let none = PaddingValues::new(None, None, None, None, None);
    assert_eq!(none.size(), Size::zero());
}
