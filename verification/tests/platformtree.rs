use std::rc::Rc;
use zinc::platformtree::node::{
    Attribute, AttributeValue, Attributes, Node, PlatformTree, Span,
};

fn span(lo: u32, hi: u32) -> Span {
    Span { lo, hi }
}

fn attr(value: AttributeValue) -> Attribute {
    Attribute::new(value, span(0, 1), span(2, 3))
}

fn sample() -> Node {
    let mut node = Node::new(Some("led".to_string()), span(0, 3), "gpio".to_string(), span(4, 8));
    node.attributes.insert("pin".to_string(), attr(AttributeValue::UIntValue(13)));
    node.attributes.insert("mode".to_string(), attr(AttributeValue::StrValue("out".to_string())));
    node.attributes.insert("clock".to_string(), attr(AttributeValue::RefValue("tick".to_string())));
    node
}

#[test]
fn attribute_new_keeps_its_parts() {
    let a = Attribute::new(AttributeValue::UIntValue(7), span(1, 2), span(3, 4));
    assert!(matches!(a.value, AttributeValue::UIntValue(7)));
    assert_eq!(a.key_span, span(1, 2));
    assert_eq!(a.value_span, span(3, 4));
}

#[test]
fn node_new_is_bare() {
    let node = Node::new(None, span(0, 0), "mcu".to_string(), span(1, 4));
    assert_eq!(node.name, None);
    assert_eq!(node.name_span, span(0, 0));
    assert_eq!(node.path, "mcu");
    assert_eq!(node.path_span, span(1, 4));
    assert!(node.subnodes.is_empty());
    assert!(node.attributes.find("anything").is_none());
    assert_eq!(node.get_int_attr("anything"), None);
}

#[test]
fn typed_lookups_find_their_kind() {
    let node = sample();
    assert_eq!(node.get_int_attr("pin"), Some(13));
    assert_eq!(node.get_string_attr("mode"), Some(&"out".to_string()));
    assert_eq!(node.get_ref_attr("clock"), Some(&"tick".to_string()));
}

#[test]
fn typed_lookups_reject_other_kinds() {
    let node = sample();
    assert_eq!(node.get_int_attr("mode"), None);
    assert_eq!(node.get_int_attr("clock"), None);
    assert_eq!(node.get_string_attr("pin"), None);
    assert_eq!(node.get_string_attr("clock"), None);
    assert_eq!(node.get_ref_attr("pin"), None);
    assert_eq!(node.get_ref_attr("mode"), None);
}

#[test]
fn typed_lookups_miss_unknown_keys() {
    let node = sample();
    assert_eq!(node.get_int_attr("pins"), None);
    assert_eq!(node.get_string_attr(""), None);
    assert_eq!(node.get_ref_attr("Clock"), None);
}

#[test]
fn insert_replaces_and_hands_back_the_old_attribute() {
    let mut attrs = Attributes::new();
    assert!(attrs.insert("a".to_string(), attr(AttributeValue::UIntValue(1))).is_none());
    assert!(attrs.insert("b".to_string(), attr(AttributeValue::UIntValue(2))).is_none());
    let old = attrs.insert("a".to_string(), attr(AttributeValue::StrValue("x".to_string())));
    assert!(matches!(old.unwrap().value, AttributeValue::UIntValue(1)));
    assert!(matches!(&attrs.find("a").unwrap().value, AttributeValue::StrValue(s) if s == "x"));
    assert!(matches!(attrs.find("b").unwrap().value, AttributeValue::UIntValue(2)));
    let old = attrs.insert("b".to_string(), attr(AttributeValue::UIntValue(3)));
    assert!(matches!(old.unwrap().value, AttributeValue::UIntValue(2)));
    assert!(matches!(attrs.find("b").unwrap().value, AttributeValue::UIntValue(3)));
    assert!(attrs.find("c").is_none());
}

#[test]
fn tree_holds_its_nodes() {
    let child = Rc::new(sample());
    let mut root = Node::new(None, span(0, 0), "board".to_string(), span(0, 5));
    root.subnodes.push(child.clone());
    let tree = PlatformTree::new(vec![Rc::new(root), child]);
    assert_eq!(tree.nodes.len(), 2);
    assert_eq!(tree.nodes[0].subnodes[0].get_int_attr("pin"), Some(13));
    assert_eq!(tree.nodes[1].path, "gpio");
}
