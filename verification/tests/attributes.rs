use anathema_widgets::attributes::{Attribute, Attributes};
use anathema_widgets::display::Display;
use anathema_widgets::lookup::{Lookup, LookupError};

#[test]
fn to_and_from_attributes() {
    let mut attribs: Attributes<String> = Attributes::empty();
    attribs.set("disp", Display::Show.name().to_string());
    assert_eq!(Display::Show, Display::from_name(attribs.get("disp").unwrap()).unwrap());

    attribs.set("disp", Display::Hide.name().to_string());
    assert_eq!(Display::Hide, Display::from_name(attribs.get("disp").unwrap()).unwrap());

    attribs.set("disp", Display::Exclude.name().to_string());
    assert_eq!(Display::Exclude, Display::from_name(attribs.get("disp").unwrap()).unwrap());
}

#[test]
fn get_gives_back_what_was_set() {
    let mut attribs = Attributes::new("width", 10usize);
    assert!(attribs.has("width"));
    assert!(!attribs.has("height"));
    assert!(!attribs.is_empty());
    assert_eq!(attribs.get("width"), Some(&10));
    attribs.set("height", 4);
    attribs.set("width", 12);
    assert_eq!(attribs.get("width"), Some(&12));
    assert_eq!(attribs.get("height"), Some(&4));
    assert_eq!(attribs.get("depth"), None);
}

#[test]
fn empty_attributes() {
    let attribs: Attributes<u8> = Attributes::empty();
    assert!(attribs.is_empty());
    assert!(!attribs.has(""));
}

#[test]
fn later_attributes_replace_earlier_ones() {
    let list = vec![
        Attribute { key: "a", val: 1 },
        Attribute { key: "b", val: 2 },
        Attribute { key: "a", val: 3 },
    ];
    let attribs = Attributes::from_list(list);
    assert_eq!(attribs.get("a"), Some(&3));
    assert_eq!(attribs.get("b"), Some(&2));
}

#[test]
fn register_refuses_reserved_and_existing_names() {
    let mut lookup: Lookup<u32> = Lookup::new();
    assert_eq!(lookup.register("text".to_string(), 1), Ok(()));
    assert_eq!(lookup.register("border".to_string(), 2), Ok(()));
    assert_eq!(lookup.register("text".to_string(), 3), Err(LookupError::ExistingName("text".to_string())));
    assert_eq!(lookup.get("text"), Some(&1));
    for reserved in ["if", "for", "else"] {
        assert_eq!(
            lookup.register(reserved.to_string(), 4),
            Err(LookupError::ReservedName(reserved.to_string()))
        );
        assert_eq!(lookup.get(reserved), None);
    }
    assert!(Lookup::<u32>::reserved("for"));
    assert!(!Lookup::<u32>::reserved("fork"));
}

#[test]
fn factory_of_unregistered_widget_is_an_error() {
    let mut lookup: Lookup<&str> = Lookup::new();
    lookup.register("text".to_string(), "text factory").unwrap();
    assert_eq!(lookup.factory("text"), Ok(&"text factory"));
    assert_eq!(lookup.factory("vstack"), Err(LookupError::UnregisteredWidget("vstack".to_string())));
}

#[test]
fn attributes_are_not_empty_after_set() {
    let mut attribs: Attributes<u8> = Attributes::empty();
    assert!(attribs.is_empty());
    attribs.set("a", 1);
    assert!(!attribs.is_empty());
}
