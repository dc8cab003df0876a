use anathema_widgets::constraints::Constraints;
use anathema_widgets::fill::{expansion_constraints, spacer_constraints, total_along, SpacerLayout};
use anathema_widgets::geometry::Size;
use anathema_widgets::index::Direction;
use anathema_widgets::layout::{Axis, Padding};
use anathema_widgets::many::{Many, Offset, Placement, SizeMod};
use anathema_widgets::stack::{Container, Single, Stacked};

fn bounds(c: &Constraints) -> (usize, usize, usize, usize) {
    (c.min_width(), c.min_height(), c.max_width(), c.max_height())
}

/// Lay out fixed-size children one after the other, as a stack does; fillers are skipped.
fn run(many: &mut Many, constraints: Constraints, children: &[(&str, Size)]) -> (Size, Vec<Placement>) {
    let mut progress = many.start(constraints);
    let mut placements = vec![];
    for (kind, size) in children {
        if Many::is_filler(kind) {
            continue;
        }
        let _c = many.child_constraints(&progress);
        let p = many.place_child(&mut progress, *size);
        placements.push(p);
        if p == Placement::Full {
            break;
        }
    }
    (many.size(&progress), placements)
}

#[test]
fn size_mod_caps_along_axis_and_takes_max_across() {
    let mut m = SizeMod::new(Size::new(10, 4), Axis::Vertical);
    m.apply(Size::new(3, 2));
    m.apply(Size::new(7, 1));
    assert_eq!(m.inner, Size::new(7, 3));
    assert!(!m.no_space_left());
    m.apply(Size::new(1, 5));
    assert_eq!(m.inner, Size::new(7, 4));
    assert!(m.no_space_left());
    assert_eq!(bounds(&m.to_constraints()), (0, 0, 10, 0));

    let mut m = SizeMod::new(Size::new(10, 4), Axis::Horizontal);
    m.apply(Size::new(3, 2));
    assert_eq!(bounds(&m.to_constraints()), (0, 0, 7, 4));
}

#[test]
fn offset_skips_whole_children_then_cuts_one() {
    let mut o = Offset { axis: Axis::Vertical, inner: 3, enabled: true };
    let mut a = Size::new(5, 2);
    assert!(o.skip(&mut a));
    assert_eq!(o.inner, 1);
    let mut b = Size::new(5, 4);
    assert!(!o.skip(&mut b));
    assert_eq!(b, Size::new(5, 3));
    assert!(!o.enabled);
    let mut c = Size::new(5, 4);
    assert!(!o.skip(&mut c));
    assert_eq!(c, Size::new(5, 4));
}

#[test]
fn vertical_stack_of_children() {
    let mut many = Many::new(Direction::Forward, Axis::Vertical, 0, false);
    let (size, placements) = run(
        &mut many,
        Constraints::new(Some(10), Some(10)),
        &[("Text", Size::new(3, 1)), ("Spacer", Size::new(9, 9)), ("Border", Size::new(5, 3))],
    );
    assert_eq!(placements, vec![Placement::Placed, Placement::Placed]);
    assert_eq!(size, Size::new(5, 4));
}

#[test]
fn stack_stops_when_full() {
    let mut many = Many::new(Direction::Forward, Axis::Horizontal, 0, false);
    let (size, placements) = run(
        &mut many,
        Constraints::new(Some(6), Some(3)),
        &[("A", Size::new(3, 3)), ("B", Size::new(3, 3)), ("C", Size::new(3, 3))],
    );
    assert_eq!(placements, vec![Placement::Placed, Placement::Full]);
    assert_eq!(size, Size::new(6, 3));
}

#[test]
fn stack_with_offset_skips_leading_children() {
    let mut many = Many::new(Direction::Forward, Axis::Vertical, 2, false);
    let (size, placements) = run(
        &mut many,
        Constraints::new(Some(10), Some(10)),
        &[("A", Size::new(1, 1)), ("B", Size::new(1, 2)), ("C", Size::new(1, 1))],
    );
    assert_eq!(placements, vec![Placement::Skipped, Placement::Placed, Placement::Placed]);
    assert_eq!(size, Size::new(1, 2));
}

#[test]
fn backward_stack_takes_all_the_room() {
    let mut many = Many::new(Direction::Backward, Axis::Vertical, 0, false);
    let (size, _) = run(&mut many, Constraints::new(Some(10), Some(7)), &[("A", Size::new(1, 1))]);
    assert_eq!(size, Size::new(10, 7));
}

#[test]
fn stack_size_is_at_least_the_minimum() {
    let mut many = Many::new(Direction::Forward, Axis::Vertical, 0, false);
    let mut c = Constraints::new(Some(10), Some(10));
    c.set_min_width(4);
    c.set_min_height(6);
    let (size, _) = run(&mut many, c, &[("A", Size::new(1, 1))]);
    assert_eq!(size, Size::new(4, 6));
}

#[test]
fn unconstrained_stack_has_no_fill_and_unbounded_children() {
    let many = Many::new(Direction::Forward, Axis::Vertical, 0, true);
    let progress = many.start(Constraints::new(Some(10), Some(10)));
    assert!(many.fill_constraints(&progress).is_none());
    let c = many.child_constraints(&progress);
    assert!(c.is_height_unbounded());
    assert_eq!(c.max_width(), 10);

    let constrained = Many::new(Direction::Forward, Axis::Vertical, 0, false);
    let progress = constrained.start(Constraints::new(Some(10), Some(10)));
    let c = constrained.fill_constraints(&progress).unwrap();
    assert_eq!(bounds(&c), (0, 0, 10, 10));
}

#[test]
fn fillers_are_spacers_and_expansions() {
    assert!(Many::is_filler("Spacer"));
    assert!(Many::is_filler("Expand"));
    assert!(!Many::is_filler("Text"));
}

#[test]
fn total_along_adds_along_and_maxes_across() {
    let sizes = vec![Size::new(2, 3), Size::new(4, 1), Size::new(1, 5)];
    assert_eq!(total_along(Axis::Horizontal, &sizes), Size::new(7, 5));
    assert_eq!(total_along(Axis::Vertical, &sizes), Size::new(4, 9));
    assert_eq!(total_along(Axis::Vertical, &vec![]), Size::zero());
}

#[test]
fn expansion_and_spacer_constraints() {
    let mut c = Constraints::new(Some(20), Some(9));
    c.set_min_height(2);
    assert_eq!(bounds(&expansion_constraints(Axis::Horizontal, &c, 7)), (7, 0, 7, 9));
    assert_eq!(bounds(&expansion_constraints(Axis::Vertical, &c, 3)), (0, 3, 20, 3));
    assert_eq!(bounds(&spacer_constraints(Axis::Horizontal, &c, 3)), (6, 2, 6, 9));
    assert_eq!(bounds(&spacer_constraints(Axis::Vertical, &c, 2)), (0, 4, 20, 4));
    let spacer = spacer_constraints(Axis::Horizontal, &c, 3);
    assert_eq!(SpacerLayout.size(&spacer), Size::new(6, 2));
}

#[test]
fn stacked_children_take_the_largest_size() {
    let c = Stacked.child_constraints(Constraints::new(Some(10), Some(10)), Padding::new(1));
    assert_eq!(bounds(&c), (0, 0, 8, 8));
    let sizes = vec![Size::new(2, 7), Size::new(5, 1)];
    assert_eq!(Stacked.size(&sizes), Size::new(5, 7));
    assert_eq!(Stacked.size(&vec![]), Size::zero());
}

#[test]
fn single_and_container_sizes() {
    assert_eq!(Single.size(Some(Size::new(3, 4))), Size::new(3, 4));
    assert_eq!(Single.size(None), Size::zero());
    let mut c = Constraints::new(Some(10), Some(10));
    c.set_min_width(2);
    assert_eq!(Container.size(&c, None), Size::new(2, 0));
    assert_eq!(Container.size(&c, Some(Size::new(5, 5))), Size::new(5, 5));
}
