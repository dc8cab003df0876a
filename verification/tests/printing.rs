use anathema_widgets::error::{Error, ErrorKind};
use anathema_widgets::id::{Id, NodeId};
use anathema_widgets::stringify::{NodeSummary, Stringify};

#[test]
fn error_messages() {
    assert_eq!(ErrorKind::InvalidElement("box".to_string()).message(), "element `box` does not exist");
    assert_eq!(
        Error::transaction_failed().message(),
        "failed to insert into the widget tree (most likely the parent was removed)"
    );
    assert!(Error::transaction_failed().path.is_none());
    assert_eq!(ErrorKind::ComponentConsumed("list".to_string()).message(), "`@list` has already been used");
}

#[test]
fn node_ids_print_joined() {
    assert_eq!(NodeId::empty().to_string(), "");
    assert_eq!(NodeId::empty().append(0).to_string(), "0");
    assert_eq!(NodeId::empty().append(1).append(20).append(305).to_string(), "1::20::305");
    assert_eq!(Id::Node(7).to_string(), "7");
    assert_eq!(Id::For(12).to_string(), "F12");
    assert_eq!(Id::ControlFlow(0).to_string(), "?0");
}

#[test]
fn stringify_indents_by_depth() {
    let mut s = Stringify::new();
    s.visit(&NodeSummary::Element {
        ident: "vstack".to_string(),
        attributes: vec![],
        value: None,
    });
    s.push();
    s.visit(&NodeSummary::For);
    s.push();
    s.visit(&NodeSummary::Iteration { binding: "x".to_string(), index: 10 });
    s.pop();
    s.visit(&NodeSummary::If { cond: true });
    s.visit(&NodeSummary::Else { cond: Some(false) });
    s.visit(&NodeSummary::Else { cond: None });
    s.pop();
    s.visit(&NodeSummary::ControlFlow);
    s.visit(&NodeSummary::Component);
    let expected = "vstack\n    <for>\n        <iter binding = x, index = 10>\n    <if cond = true>\n    <else cond = false>\n    <else>\n<control flow>\n<component>\n";
    assert_eq!(s.finish(), expected);
}

#[test]
fn stringify_prints_attributes_and_value() {
    let mut s = Stringify::new();
    s.visit(&NodeSummary::Element {
        ident: "text".to_string(),
        attributes: vec![
            ("bold".to_string(), Some("true".to_string())),
            ("fg".to_string(), Some("\"red\"".to_string())),
        ],
        value: Some(Some("\"hi\"".to_string())),
    });
    // An attribute without a value to print is left out; the comma still counts its place.
    s.visit(&NodeSummary::Element {
        ident: "border".to_string(),
        attributes: vec![("sides".to_string(), None), ("width".to_string(), Some("5".to_string()))],
        value: Some(None),
    });
    assert_eq!(s.finish(), "text[bold: true, fg: \"red\"] \"hi\"\nborder[, width: 5]\n");
}
