use std::time::Duration;

use anathema_widgets::animation::Animation;
use anathema_widgets::events::Event;
use anathema_widgets::filter::PaintFilter;

#[test]
fn set_dst_reports_changes() {
    let mut a: Animation<i32, ()> = Animation::new(Duration::from_millis(100), ());
    assert!(a.set_dst(1));
    assert!(!a.set_dst(1));
    assert!(a.set_dst(2));
    a.set_src(0);
    assert!(!a.set_dst(2));
}

#[test]
fn stopping_an_event_keeps_its_names() {
    let mut e = Event::new("child", "clicked", "on_click");
    assert!(!e.should_stop_propagation());
    e.stop_propagation();
    assert!(e.should_stop_propagation());
    e.stop_propagation();
    assert!(e.should_stop_propagation());
    assert_eq!(e.sender, "child");
    assert_eq!(e.internal_ident, "on_click");
    assert_eq!(e.name(), "clicked");
}

#[test]
fn paint_filter_is_built() {
    let attributes = vec![1u8];
    let _filter = PaintFilter::new(true, &attributes);
}
