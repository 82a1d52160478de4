use macro_railroad_ext::dom::{
    classlist_add, classlist_remove, classlist_toggle, Attribute, Command, Element, EventKind,
    Listener, Node,
};
use macro_railroad_ext::error::Error;
use macro_railroad_ext::options::OptionKey;

fn classes(element: &Element) -> Vec<&str> {
    element.classes.iter().map(|c| c.as_str()).collect()
}

#[test]
fn new_element_is_bare() {
    let element = Element::new("div");
    assert_eq!(element.tag, "div");
    assert!(element.classes.is_empty());
    assert!(element.attributes.is_empty());
    assert!(element.children.is_empty());
    assert!(element.listeners.is_empty());
    assert_eq!(element.child_count(), 0);
    assert!(element.first_child().is_none());
}

#[test]
fn set_attribute_adds_then_replaces() {
    let mut element = Element::new("img");
    assert_eq!(element.get_attribute("src"), None);
    element.set_attribute("src", "a.svg");
    element.set_attribute("style", "margin-right: 8px");
    assert_eq!(element.get_attribute("src"), Some("a.svg".to_string()));
    assert_eq!(element.get_attribute("style"), Some("margin-right: 8px".to_string()));
    element.set_attribute("src", "b.svg");
    assert_eq!(element.get_attribute("src"), Some("b.svg".to_string()));
    assert_eq!(element.get_attribute("style"), Some("margin-right: 8px".to_string()));
    assert_eq!(element.attributes.len(), 2);
    assert_eq!(element.get_attribute("Src"), None);
}

#[test]
fn later_entry_of_a_name_counts() {
    let mut element = Element::new("div");
    element.attributes.push(Attribute { name: "style".to_string(), value: "a".to_string() });
    element.attributes.push(Attribute { name: "id".to_string(), value: "x".to_string() });
    element.attributes.push(Attribute { name: "style".to_string(), value: "b".to_string() });
    assert_eq!(element.get_attribute("style"), Some("b".to_string()));
    element.set_attribute("style", "c");
    assert_eq!(element.get_attribute("style"), Some("c".to_string()));
    assert_eq!(element.get_attribute("id"), Some("x".to_string()));
    element.remove_attribute("style");
    assert_eq!(element.get_attribute("style"), None);
    assert_eq!(element.get_attribute("id"), Some("x".to_string()));
}

#[test]
fn remove_attribute_takes_the_name_away() {
    let mut element = Element::new("div");
    element.set_attribute("style", "display: none");
    element.set_attribute("id", "x");
    element.remove_attribute("style");
    assert_eq!(element.get_attribute("style"), None);
    assert_eq!(element.get_attribute("id"), Some("x".to_string()));
    element.remove_attribute("style");
    assert_eq!(element.get_attribute("style"), None);
    assert_eq!(element.attributes.len(), 1);
}

#[test]
fn set_text_content_leaves_one_text_child() {
    let mut element = Element::new("label");
    element.append_child(Node::Element(Element::new("b")));
    element.append_child(Node::Text("old".to_string()));
    element.set_text_content("Generate legend");
    assert_eq!(element.children, vec![Node::Text("Generate legend".to_string())]);
    element.set_text_content("");
    assert_eq!(element.children, vec![Node::Text(String::new())]);
}

#[test]
fn append_child_keeps_document_order() {
    let mut element = Element::new("ul");
    element.append_child(Node::Text("a".to_string()));
    element.append_child(Node::Block);
    element.append_child(Node::Element(Element::new("li")));
    assert_eq!(element.child_count(), 3);
    assert_eq!(element.first_child(), Some(&Node::Text("a".to_string())));
    assert_eq!(element.children[1], Node::Block);
    assert_eq!(element.children[2], Node::Element(Element::new("li")));
}

#[test]
fn replace_first_child_swaps_one_node_for_another() {
    let mut element = Element::new("div");
    element.append_child(Node::Element(Element::new("svg")));
    element.append_child(Node::Text("tail".to_string()));
    let former = element.replace_first_child(Node::Markup("<svg/>".to_string()));
    assert_eq!(former, Ok(Node::Element(Element::new("svg"))));
    assert_eq!(
        element.children,
        vec![Node::Markup("<svg/>".to_string()), Node::Text("tail".to_string())]
    );
}

#[test]
fn replace_first_child_needs_a_child() {
    let mut element = Element::new("div");
    element.set_attribute("id", "x");
    let result = element.replace_first_child(Node::Markup("<svg/>".to_string()));
    assert_eq!(result, Err(Error::NodeNotFound));
    assert!(element.children.is_empty());
    assert_eq!(element.get_attribute("id"), Some("x".to_string()));
}

#[test]
fn listeners_queue_in_order() {
    let mut element = Element::new("div");
    element.add_event_listener(EventKind::Click, Command::OpenModal);
    element.add_event_listener(EventKind::Change, Command::SetOption(OptionKey::KeepGroups));
    assert_eq!(
        element.listeners,
        vec![
            Listener { event: EventKind::Click, command: Command::OpenModal },
            Listener {
                event: EventKind::Change,
                command: Command::SetOption(OptionKey::KeepGroups)
            },
        ]
    );
}

#[test]
fn classlist_add_adds_a_token_once() {
    let mut element = Element::new("div");
    classlist_add(&mut element, "railroad_modal");
    classlist_add(&mut element, "railroad_active");
    classlist_add(&mut element, "railroad_modal");
    assert_eq!(classes(&element), vec!["railroad_modal", "railroad_active"]);
}

#[test]
fn classlist_remove_takes_every_occurrence() {
    let mut element = Element::new("div");
    element.classes = vec!["a".to_string(), "b".to_string(), "a".to_string(), "c".to_string()];
    classlist_remove(&mut element, "a");
    assert_eq!(classes(&element), vec!["b", "c"]);
    classlist_remove(&mut element, "a");
    assert_eq!(classes(&element), vec!["b", "c"]);
    classlist_remove(&mut element, "c");
    classlist_remove(&mut element, "b");
    assert!(element.classes.is_empty());
}

#[test]
fn classlist_toggle_flips_membership() {
    let mut element = Element::new("div");
    classlist_add(&mut element, "railroad_dropdown_content");
    classlist_toggle(&mut element, "railroad_dropdown_show");
    assert_eq!(classes(&element), vec!["railroad_dropdown_content", "railroad_dropdown_show"]);
    classlist_toggle(&mut element, "railroad_dropdown_show");
    assert_eq!(classes(&element), vec!["railroad_dropdown_content"]);
    classlist_toggle(&mut element, "railroad_dropdown_show");
    assert_eq!(classes(&element), vec!["railroad_dropdown_content", "railroad_dropdown_show"]);
}

#[test]
fn class_tokens_leave_the_rest_alone() {
    let mut element = Element::new("div");
    element.set_attribute("style", "display: none");
    element.append_child(Node::Block);
    element.add_event_listener(EventKind::Click, Command::CloseModal);
    classlist_add(&mut element, "x");
    classlist_toggle(&mut element, "y");
    classlist_remove(&mut element, "x");
    assert_eq!(element.tag, "div");
    assert_eq!(element.get_attribute("style"), Some("display: none".to_string()));
    assert_eq!(element.children, vec![Node::Block]);
    assert_eq!(element.listeners.len(), 1);
    assert_eq!(classes(&element), vec!["y"]);
}

#[test]
fn class_name_joins_tokens_with_single_spaces() {
    let mut element = Element::new("div");
    assert_eq!(element.class_name(), "");
    classlist_add(&mut element, "railroad_modal");
    assert_eq!(element.class_name(), "railroad_modal");
    classlist_add(&mut element, "railroad_active");
    assert_eq!(element.class_name(), "railroad_modal railroad_active");
    classlist_add(&mut element, "x");
    assert_eq!(element.class_name(), "railroad_modal railroad_active x");
    classlist_remove(&mut element, "railroad_active");
    assert_eq!(element.class_name(), "railroad_modal x");
}
