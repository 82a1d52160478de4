//! Document nodes as plain values.
//!
//! The engine never touches a live document. It builds and edits values of
//! [`Element`], and a host adapter mirrors them into real nodes. An element
//! here is what the engine can say about a node: its tag, its class tokens,
//! its attributes, its children in order, and the commands wired to its
//! events.

use vstd::prelude::*;
use vstd::string::*;
use crate::error::Error;
use crate::options::OptionKey;

verus! {

/// The events the engine listens for.
#[derive(Clone, Copy, Debug, PartialEq, Eq, Structural)]
pub enum EventKind {
    Click,
    Change,
}

/// What a widget is asked to do when one of its events fires.
#[derive(Clone, Copy, Debug, PartialEq, Eq, Structural)]
pub enum Command {
    /// Leave the fullscreen view.
    CloseModal,
    /// Enter the fullscreen view.
    OpenModal,
    /// Show or hide the options menu.
    ToggleDropdown,
    /// Take over the state of one option's checkbox and draw again.
    SetOption(OptionKey),
}

/// A command wired to an event of one element.
#[derive(Clone, Copy, Debug, PartialEq, Eq, Structural)]
pub struct Listener {
    pub event: EventKind,
    pub command: Command,
}

/// The nodes of a widget that change after it has been built.
#[derive(Clone, Copy, Debug, PartialEq, Eq, Hash, Structural)]
pub enum Role {
    /// The container of the fullscreen view.
    Modal,
    /// The node inside the fullscreen view that holds the diagram.
    ModalContent,
    /// The container that holds the diagram on the page.
    Diagram,
    /// The container of the options menu.
    Dropdown,
}

/// One attribute of an element.
#[derive(Clone, Debug, PartialEq, Eq)]
pub struct Attribute {
    pub name: String,
    pub value: String,
}

/// A child of an element.
#[derive(Debug, PartialEq, Eq)]
pub enum Node {
    /// A nested element.
    Element(Element),
    /// Plain text.
    Text(String),
    /// Markup that the host parses into a node.
    Markup(String),
    /// The macro block a widget was built for.
    Block,
    /// One of the widget's changing nodes, which the widget keeps itself.
    Part(Role),
}

/// An element: tag, class tokens, attributes, children and listeners.
///
/// Where an attribute is listed twice, the later entry counts.
#[derive(Debug, PartialEq, Eq)]
pub struct Element {
    pub tag: String,
    pub classes: Vec<String>,
    pub attributes: Vec<Attribute>,
    pub children: Vec<Node>,
    pub listeners: Vec<Listener>,
}

/// The mathematical content of a [`Node`].
pub enum NodeView {
    Element(ElementView),
    Text(Seq<char>),
    Markup(Seq<char>),
    Block,
    Part(Role),
}

/// The mathematical content of an [`Element`].
pub struct ElementView {
    pub tag: Seq<char>,
    pub classes: Seq<Seq<char>>,
    pub attributes: Map<Seq<char>, Seq<char>>,
    pub children: Seq<NodeView>,
    pub listeners: Seq<Listener>,
}

/// The texts of a sequence of strings.
pub open spec fn texts(strings: Seq<String>) -> Seq<Seq<char>> {
    Seq::new(strings.len(), |i: int| strings[i]@)
}

/// The attributes as a map from name to value; a later entry overrides an
/// earlier one of the same name.
pub open spec fn attribute_map(attributes: Seq<Attribute>) -> Map<Seq<char>, Seq<char>>
    decreases attributes.len(),
{
    if attributes.len() == 0 {
        Map::empty()
    } else {
        attribute_map(attributes.drop_last()).insert(
            attributes.last().name@,
            attributes.last().value@,
        )
    }
}

/// The tokens without any occurrence of `name`, in their old order.
pub open spec fn without_token(tokens: Seq<Seq<char>>, name: Seq<char>) -> Seq<Seq<char>>
    decreases tokens.len(),
{
    if tokens.len() == 0 {
        tokens
    } else if tokens.last() == name {
        without_token(tokens.drop_last(), name)
    } else {
        without_token(tokens.drop_last(), name).push(tokens.last())
    }
}

/// The tokens in one line, a single space between neighbours: the value of
/// a `class` attribute that carries exactly these tokens.
pub open spec fn joined(tokens: Seq<Seq<char>>) -> Seq<char>
    decreases tokens.len(),
{
    if tokens.len() == 0 {
        Seq::empty()
    } else if tokens.len() == 1 {
        tokens[0]
    } else {
        joined(tokens.drop_last()) + seq![' '] + tokens.last()
    }
}

/// The content of a node.
pub open spec fn node_view(node: Node) -> NodeView
    decreases node,
{
    match node {
        Node::Element(element) => NodeView::Element(element_view(element)),
        Node::Text(text) => NodeView::Text(text@),
        Node::Markup(markup) => NodeView::Markup(markup@),
        Node::Block => NodeView::Block,
        Node::Part(role) => NodeView::Part(role),
    }
}

/// The content of an element, children included.
pub open spec fn element_view(element: Element) -> ElementView
    decreases element,
{
    ElementView {
        tag: element.tag@,
        classes: texts(element.classes@),
        attributes: attribute_map(element.attributes@),
        children: Seq::new(
            element.children@.len(),
            |i: int|
                if 0 <= i < element.children@.len() {
                    node_view(element.children@[i])
                } else {
                    NodeView::Block
                },
        ),
        listeners: element.listeners@,
    }
}

impl View for Node {
    type V = NodeView;

    open spec fn view(&self) -> NodeView {
        node_view(*self)
    }
}

impl View for Element {
    type V = ElementView;

    open spec fn view(&self) -> ElementView {
        element_view(*self)
    }
}

impl ElementView {
    /// An element with the given tag and nothing else.
    pub open spec fn empty(tag: Seq<char>) -> ElementView {
        ElementView {
            tag,
            classes: Seq::empty(),
            attributes: Map::empty(),
            children: Seq::empty(),
            listeners: Seq::empty(),
        }
    }

    /// This element with one attribute set.
    pub open spec fn attr(self, name: Seq<char>, value: Seq<char>) -> ElementView {
        ElementView { attributes: self.attributes.insert(name, value), ..self }
    }

    /// This element without the attribute of the given name.
    pub open spec fn without_attr(self, name: Seq<char>) -> ElementView {
        ElementView { attributes: self.attributes.remove(name), ..self }
    }

    /// This element with a class token added, unless it is there already.
    pub open spec fn class(self, name: Seq<char>) -> ElementView {
        if self.classes.contains(name) {
            self
        } else {
            ElementView { classes: self.classes.push(name), ..self }
        }
    }

    /// This element without a class token.
    pub open spec fn without_class(self, name: Seq<char>) -> ElementView {
        ElementView { classes: without_token(self.classes, name), ..self }
    }

    /// This element with a class token removed if present, added if not.
    pub open spec fn toggled(self, name: Seq<char>) -> ElementView {
        if self.classes.contains(name) {
            self.without_class(name)
        } else {
            self.class(name)
        }
    }

    /// This element with one more child at the end.
    pub open spec fn child(self, node: NodeView) -> ElementView {
        ElementView { children: self.children.push(node), ..self }
    }

    /// This element with a text as its only child.
    pub open spec fn text(self, text: Seq<char>) -> ElementView {
        ElementView { children: seq![NodeView::Text(text)], ..self }
    }

    /// This element with its first child exchanged.
    pub open spec fn first_child_replaced(self, node: NodeView) -> ElementView {
        ElementView { children: self.children.update(0, node), ..self }
    }

    /// This element with one more listener.
    pub open spec fn on(self, event: EventKind, command: Command) -> ElementView {
        ElementView { listeners: self.listeners.push(Listener { event, command }), ..self }
    }
}

/// Replacing the last entry of a name by a new value for that name is the
/// same, to the map, as setting the name.
proof fn lemma_update_last_match(attributes: Seq<Attribute>, index: int, entry: Attribute)
    requires
        0 <= index < attributes.len(),
        attributes[index].name@ == entry.name@,
        forall|j: int| index < j < attributes.len() ==> attributes[j].name@ != entry.name@,
    ensures
        attribute_map(attributes.update(index, entry)) == attribute_map(attributes).insert(
            entry.name@,
            entry.value@,
        ),
    decreases attributes.len(),
{
    let updated = attributes.update(index, entry);
    if index == attributes.len() - 1 {
        assert(updated.drop_last() =~= attributes.drop_last());
        assert(attribute_map(updated) =~= attribute_map(attributes).insert(
            entry.name@,
            entry.value@,
        ));
    } else {
        lemma_update_last_match(attributes.drop_last(), index, entry);
        assert(updated.drop_last() =~= attributes.drop_last().update(index, entry));
        assert(updated.last() == attributes.last());
        assert(attribute_map(updated) =~= attribute_map(attributes).insert(
            entry.name@,
            entry.value@,
        ));
    }
}

/// A name that no entry carries is no key of the map.
proof fn lemma_absent_name(attributes: Seq<Attribute>, name: Seq<char>)
    requires
        forall|j: int| 0 <= j < attributes.len() ==> attributes[j].name@ != name,
    ensures
        !attribute_map(attributes).contains_key(name),
    decreases attributes.len(),
{
    if attributes.len() > 0 {
        lemma_absent_name(attributes.drop_last(), name);
    }
}

/// The map gives a name the value of the last entry that carries it.
proof fn lemma_last_match_wins(attributes: Seq<Attribute>, index: int)
    requires
        0 <= index < attributes.len(),
        forall|j: int|
            index < j < attributes.len() ==> attributes[j].name@ != attributes[index].name@,
    ensures
        attribute_map(attributes).contains_key(attributes[index].name@),
        attribute_map(attributes)[attributes[index].name@] == attributes[index].value@,
    decreases attributes.len(),
{
    if index < attributes.len() - 1 {
        lemma_last_match_wins(attributes.drop_last(), index);
    }
}

/// The position of the last attribute called `name`, if there is one.
fn last_match(attributes: &Vec<Attribute>, name: &String) -> (found: Option<usize>)
    ensures
        match found {
            Some(index) => index < attributes@.len() && attributes@[index as int].name@ == name@
                && forall|j: int|
                index < j < attributes@.len() ==> attributes@[j].name@ != name@,
            None => forall|j: int| 0 <= j < attributes@.len() ==> attributes@[j].name@ != name@,
        },
{
    let mut index = attributes.len();
    while index > 0
        invariant
            index <= attributes@.len(),
            forall|j: int| index <= j < attributes@.len() ==> attributes@[j].name@ != name@,
        decreases index,
    {
        index -= 1;
        if attributes[index].name == *name {
            return Some(index);
        }
    }
    None
}

/// Whether `name` is among the tokens.
fn has_token(tokens: &Vec<String>, name: &String) -> (found: bool)
    ensures
        found == texts(tokens@).contains(name@),
{
    let mut index: usize = 0;
    while index < tokens.len()
        invariant
            index <= tokens@.len(),
            forall|j: int| 0 <= j < index ==> texts(tokens@)[j] != name@,
        decreases tokens@.len() - index,
    {
        if tokens[index] == *name {
            assert(texts(tokens@)[index as int] == name@);
            return true;
        }
        index += 1;
    }
    false
}

impl Element {
    /// A fresh element without classes, attributes, children or listeners.
    pub fn new(tag: &str) -> (element: Element)
        ensures
            element@ == ElementView::empty(tag@),
    {
        let element = Element {
            tag: String::from_str(tag),
            classes: Vec::new(),
            attributes: Vec::new(),
            children: Vec::new(),
            listeners: Vec::new(),
        };
        assert(element@.classes =~= Seq::empty());
        assert(element@.children =~= Seq::empty());
        element
    }

    /// The class tokens as the value of a `class` attribute.
    pub fn class_name(&self) -> (value: String)
        ensures
            value@ == joined(self@.classes),
    {
        let mut value = String::new();
        let mut index: usize = 0;
        while index < self.classes.len()
            invariant
                index <= self.classes@.len(),
                value@ == joined(texts(self.classes@).take(index as int)),
            decreases self.classes@.len() - index,
        {
            let ghost seen = texts(self.classes@).take(index as int);
            let ghost next = texts(self.classes@).take(index as int + 1);
            proof {
                reveal_strlit(" ");
                assert(next.drop_last() =~= seen);
                assert(next.last() == self.classes@[index as int]@);
            }
            if index > 0 {
                value.append(" ");
                assert(value@ =~= joined(seen) + seq![' ']);
            }
            value.append(self.classes[index].as_str());
            index += 1;
            assert(value@ =~= joined(next));
        }
        assert(texts(self.classes@).take(index as int) =~= texts(self.classes@));
        value
    }

    /// Sets an attribute, replacing the value it had.
    pub fn set_attribute(&mut self, name: &str, value: &str)
        ensures
            final(self)@ == old(self)@.attr(name@, value@),
    {
        let entry = Attribute { name: String::from_str(name), value: String::from_str(value) };
        match last_match(&self.attributes, &entry.name) {
            Some(index) => {
                proof {
                    lemma_update_last_match(self.attributes@, index as int, entry);
                }
                self.attributes.set(index, entry);
            },
            None => {
                proof {
                    assert(self.attributes@.push(entry).drop_last() =~= self.attributes@);
                }
                self.attributes.push(entry);
            },
        }
        assert(self@.children =~= old(self)@.children);
    }

    /// Reads an attribute.
    pub fn get_attribute(&self, name: &str) -> (value: Option<String>)
        ensures
            match value {
                Some(text) => self@.attributes.contains_key(name@) && self@.attributes[name@]
                    == text@,
                None => !self@.attributes.contains_key(name@),
            },
    {
        let wanted = String::from_str(name);
        match last_match(&self.attributes, &wanted) {
            Some(index) => {
                proof {
                    lemma_last_match_wins(self.attributes@, index as int);
                }
                Some(self.attributes[index].value.clone())
            },
            None => {
                proof {
                    lemma_absent_name(self.attributes@, name@);
                }
                None
            },
        }
    }

    /// Makes a text the element's only child.
    pub fn set_text_content(&mut self, text: &str)
        ensures
            final(self)@ == old(self)@.text(text@),
    {
        let mut children: Vec<Node> = Vec::new();
        children.push(Node::Text(String::from_str(text)));
        self.children = children;
        assert(self@.children =~= seq![NodeView::Text(text@)]);
    }

    /// Adds a child after the children already there.
    pub fn append_child(&mut self, child: Node)
        ensures
            final(self)@ == old(self)@.child(child@),
    {
        self.children.push(child);
        assert(self@.children =~= old(self)@.children.push(child@));
    }

    /// The number of children.
    pub fn child_count(&self) -> (count: usize)
        ensures
            count == self@.children.len(),
    {
        self.children.len()
    }

    /// The first child, if the element has children.
    pub fn first_child(&self) -> (first: Option<&Node>)
        ensures
            match first {
                Some(node) => self@.children.len() > 0 && node@ == self@.children[0],
                None => self@.children.len() == 0,
            },
    {
        if self.children.len() == 0 {
            None
        } else {
            Some(&self.children[0])
        }
    }

    /// Puts `node` in the place of the first child and hands the old child
    /// back. An element without children is left as it is and reported with
    /// [`Error::NodeNotFound`].
    pub fn replace_first_child(&mut self, node: Node) -> (result: Result<Node, Error>)
        ensures
            match result {
                Ok(former) => old(self)@.children.len() > 0 && former@ == old(self)@.children[0]
                    && final(self)@ == old(self)@.first_child_replaced(node@),
                Err(error) => old(self)@.children.len() == 0 && error == Error::NodeNotFound
                    && *final(self) == *old(self),
            },
    {
        if self.children.len() == 0 {
            return Err(Error::NodeNotFound);
        }
        let former = self.children.remove(0);
        self.children.insert(0, node);
        assert(self@.children =~= old(self)@.children.update(0, node@));
        Ok(former)
    }

    /// Wires a command to an event of this element.
    pub fn add_event_listener(&mut self, event: EventKind, command: Command)
        ensures
            final(self)@ == old(self)@.on(event, command),
    {
        self.listeners.push(Listener { event, command });
        assert(self@.children =~= old(self)@.children);
    }

    /// Removes an attribute, whether it is listed once, often or not at all.
    pub fn remove_attribute(&mut self, name: &str)
        ensures
            final(self)@ == old(self)@.without_attr(name@),
    {
        let unwanted = String::from_str(name);
        let mut kept: Vec<Attribute> = Vec::new();
        let mut index: usize = 0;
        while index < self.attributes.len()
            invariant
                index <= self.attributes@.len(),
                unwanted@ == name@,
                attribute_map(kept@) == attribute_map(self.attributes@.take(index as int)).remove(
                    name@,
                ),
            decreases self.attributes@.len() - index,
        {
            let ghost before = kept@;
            let ghost seen = self.attributes@.take(index as int);
            let ghost next = self.attributes@.take(index as int + 1);
            proof {
                assert(next.drop_last() =~= seen);
                assert(next.last() == self.attributes@[index as int]);
            }
            if self.attributes[index].name != unwanted {
                let entry = Attribute {
                    name: self.attributes[index].name.clone(),
                    value: self.attributes[index].value.clone(),
                };
                kept.push(entry);
                proof {
                    assert(kept@.drop_last() =~= before);
                    assert(attribute_map(kept@) =~= attribute_map(next).remove(name@));
                }
            } else {
                proof {
                    assert(attribute_map(kept@) =~= attribute_map(next).remove(name@));
                }
            }
            index += 1;
        }
        proof {
            assert(self.attributes@.take(index as int) =~= self.attributes@);
        }
        self.attributes = kept;
        assert(self@.children =~= old(self)@.children);
    }
}

/// Adds a class token to the element unless it carries the token already.
pub fn classlist_add(element: &mut Element, name: &str)
    ensures
        final(element)@ == old(element)@.class(name@),
{
    let token = String::from_str(name);
    if !has_token(&element.classes, &token) {
        element.classes.push(token);
        assert(element@.classes =~= old(element)@.classes.push(name@));
    }
    assert(element@.children =~= old(element)@.children);
}

/// Removes every occurrence of a class token from the element.
pub fn classlist_remove(element: &mut Element, name: &str)
    ensures
        final(element)@ == old(element)@.without_class(name@),
{
    let token = String::from_str(name);
    let mut kept: Vec<String> = Vec::new();
    let mut index: usize = 0;
    while index < element.classes.len()
        invariant
            index <= element.classes@.len(),
            token@ == name@,
            texts(kept@) == without_token(texts(element.classes@.take(index as int)), name@),
        decreases element.classes@.len() - index,
    {
        let ghost before = texts(kept@);
        let ghost next = texts(element.classes@.take(index as int + 1));
        proof {
            assert(next.drop_last() =~= texts(element.classes@.take(index as int)));
            assert(next.last() == element.classes@[index as int]@);
        }
        if element.classes[index] != token {
            kept.push(element.classes[index].clone());
            proof {
                assert(texts(kept@) =~= before.push(element.classes@[index as int]@));
            }
        }
        index += 1;
    }
    proof {
        assert(element.classes@.take(index as int) =~= element.classes@);
    }
    element.classes = kept;
    assert(element@.children =~= old(element)@.children);
}

/// Removes a class token if the element carries it, and adds it if not.
pub fn classlist_toggle(element: &mut Element, name: &str)
    ensures
        final(element)@ == old(element)@.toggled(name@),
{
    let token = String::from_str(name);
    if has_token(&element.classes, &token) {
        classlist_remove(element, name);
    } else {
        classlist_add(element, name);
    }
}

} // verus!
