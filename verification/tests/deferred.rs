use anathema_widgets::attributes::Attributes;
use anathema_widgets::deferred::{AttributeValue, CommandKind, ComponentInfo, DeferredComponents, Filter};

fn component(name: &str, widget_id: usize) -> ComponentInfo {
    ComponentInfo { name: name.to_string(), widget_id }
}

fn no_attributes() -> Attributes<AttributeValue> {
    Attributes::empty()
}

#[test]
fn drain_gives_the_last_command_first() {
    let mut deferred: DeferredComponents<&str> = DeferredComponents::new();
    deferred.by_name("a".to_string()).send("first");
    deferred.by_id(4).focus();
    deferred.nth(1).send("third");
    let commands = deferred.drain();
    assert_eq!(commands.len(), 3);
    assert!(matches!(commands[0].kind, CommandKind::SendMessage("third")));
    assert!(matches!(commands[1].kind, CommandKind::Focus));
    assert!(matches!(commands[2].kind, CommandKind::SendMessage("first")));
    assert!(deferred.drain().is_empty());
}

#[test]
fn name_and_id_filters() {
    let attrs = no_attributes();
    let mut by_name = Filter::Name("list".to_string());
    assert!(by_name.filter(&component("list", 1), &attrs));
    assert!(!by_name.filter(&component("lists", 1), &attrs));
    let mut by_id = Filter::Id(7);
    assert!(by_id.filter(&component("x", 7), &attrs));
    assert!(!by_id.filter(&component("x", 8), &attrs));
}

#[test]
fn nth_passes_over_n_components() {
    let attrs = no_attributes();
    let mut nth = Filter::Nth(2);
    let answers: Vec<bool> = (0..5).map(|i| nth.filter(&component("c", i), &attrs)).collect();
    assert_eq!(answers, vec![false, false, true, true, true]);
}

#[test]
fn chain_asks_second_only_about_what_passes_first() {
    let attrs = no_attributes();
    // The second component named "b" is picked: "a" does not reach the nth filter.
    let mut f = Filter::Name("b".to_string()).chain(Filter::Nth(1));
    let picked: Vec<bool> = ["b", "a", "b", "b"].iter().map(|n| f.filter(&component(n, 0), &attrs)).collect();
    assert_eq!(picked, vec![false, false, true, true]);
}

#[test]
fn attribute_filter_compares_primitives() {
    let mut attrs = Attributes::empty();
    attrs.set("count", AttributeValue::Int(3));
    attrs.set("title", AttributeValue::Str("hi".to_string()));
    attrs.set("items", AttributeValue::Other);
    attrs.set("zero", AttributeValue::Float((-0.0f64).to_bits()));
    attrs.set("nan", AttributeValue::Float(f64::NAN.to_bits()));
    attrs.set("colour", AttributeValue::Hex(1, 2, 3));
    attrs.set("none", AttributeValue::Null);
    let c = component("c", 0);
    let mut check = |key: &str, value: AttributeValue| {
        Filter::Attribute { key: key.to_string(), value }.filter(&c, &attrs)
    };
    assert!(check("count", AttributeValue::Int(3)));
    assert!(!check("count", AttributeValue::Int(4)));
    assert!(!check("count", AttributeValue::Float(3.0f64.to_bits())));
    assert!(check("title", AttributeValue::Str("hi".to_string())));
    assert!(!check("items", AttributeValue::Other));
    assert!(check("zero", AttributeValue::Float(0.0f64.to_bits())));
    assert!(!check("nan", AttributeValue::Float(f64::NAN.to_bits())));
    assert!(check("colour", AttributeValue::Hex(1, 2, 3)));
    assert!(check("none", AttributeValue::Null));
    assert!(!check("missing", AttributeValue::Null));
}

#[test]
fn query_builder_chains_filters() {
    let mut deferred: DeferredComponents<u8> = DeferredComponents::new();
    deferred
        .by_name("x".to_string())
        .by_attribute("k".to_string(), AttributeValue::Bool(true))
        .by_id(2)
        .nth(0)
        .focus();
    let mut commands = deferred.drain();
    let mut attrs = Attributes::empty();
    attrs.set("k", AttributeValue::Bool(true));
    assert!(commands[0].filter_component(&component("x", 2), &attrs));
    assert!(!commands[0].filter_component(&component("x", 3), &attrs));
}
