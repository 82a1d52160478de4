//! One interactive widget per macro block.
//!
//! A widget owns the source text it was built for, its options, and the
//! nodes that change while the page lives: the container of the diagram on
//! the page, the container of the diagram in the fullscreen view, the
//! fullscreen view itself, and the options menu. Everything else hangs in a
//! fixed frame that refers to those nodes by their [`Role`].

use vstd::prelude::*;
use vstd::string::*;
use crate::dom::{
    classlist_add, classlist_remove, classlist_toggle, Command, Element, ElementView, EventKind,
    Listener, Node, NodeView, Role,
};
use crate::error::{Error, ErrorView};
use crate::options::{DiagramOptions, OptionKey};
use crate::pipeline::{render, rendering_of, Rendering, RenderingView};
use crate::util::{
    bool_str, bool_text, decimal, decimal_text, is_checked, is_widget_id, random_id, Assets,
    AssetsView, HostValue,
};

verus! {

/// The element ids that tie each option's label to its checkbox.
#[derive(Clone, Debug)]
pub struct CheckboxIds {
    pub hide_internal: String,
    pub keep_groups: String,
    pub foldcommontails: String,
    pub show_legend: String,
}

/// The mathematical content of [`CheckboxIds`].
pub struct CheckboxIdsView {
    pub hide_internal: Seq<char>,
    pub keep_groups: Seq<char>,
    pub foldcommontails: Seq<char>,
    pub show_legend: Seq<char>,
}

impl View for CheckboxIds {
    type V = CheckboxIdsView;

    open spec fn view(&self) -> CheckboxIdsView {
        CheckboxIdsView {
            hide_internal: self.hide_internal@,
            keep_groups: self.keep_groups@,
            foldcommontails: self.foldcommontails@,
            show_legend: self.show_legend@,
        }
    }
}

impl CheckboxIdsView {
    /// The id of one option's checkbox.
    pub open spec fn of(self, key: OptionKey) -> Seq<char> {
        match key {
            OptionKey::HideInternal => self.hide_internal,
            OptionKey::KeepGroups => self.keep_groups,
            OptionKey::FoldCommonTails => self.foldcommontails,
            OptionKey::ShowLegend => self.show_legend,
        }
    }

    /// All four ids have the shape of a generated identifier.
    pub open spec fn generated(self) -> bool {
        &&& is_widget_id(self.hide_internal)
        &&& is_widget_id(self.keep_groups)
        &&& is_widget_id(self.foldcommontails)
        &&& is_widget_id(self.show_legend)
    }
}

impl CheckboxIds {
    /// Four fresh identifiers.
    pub fn random() -> (ids: CheckboxIds)
        ensures
            ids@.generated(),
    {
        let hide_internal = random_id();
        let keep_groups = random_id();
        let foldcommontails = random_id();
        let show_legend = random_id();
        CheckboxIds { hide_internal, keep_groups, foldcommontails, show_legend }
    }

    /// The id of one option's checkbox.
    pub fn of(&self, key: OptionKey) -> (id: &str)
        ensures
            id@ == self@.of(key),
    {
        match key {
            OptionKey::HideInternal => self.hide_internal.as_str(),
            OptionKey::KeepGroups => self.keep_groups.as_str(),
            OptionKey::FoldCommonTails => self.foldcommontails.as_str(),
            OptionKey::ShowLegend => self.show_legend.as_str(),
        }
    }
}

/// The placeholder that stands where a diagram will be drawn.
pub open spec fn placeholder_view() -> NodeView {
    NodeView::Element(ElementView::empty("svg"@))
}

/// The node of the fullscreen view that holds the diagram, as first built.
pub open spec fn modal_content_view() -> ElementView {
    ElementView::empty("div"@).class("railroad_modal_content"@).child(placeholder_view())
}

/// The fullscreen view as first built: hidden until the stylesheet has
/// loaded, closed by a click anywhere on it.
pub open spec fn modal_view() -> ElementView {
    ElementView::empty("div"@).class("railroad_modal"@).attr("style"@, "display: none"@).child(
        NodeView::Part(Role::ModalContent),
    ).on(EventKind::Click, Command::CloseModal)
}

/// The container of the diagram on the page, as first built.
pub open spec fn container_view() -> ElementView {
    ElementView::empty("div"@).class("railroad_container"@).child(placeholder_view())
}

/// The checkbox of one option.
pub open spec fn checkbox_view(key: OptionKey, id: Seq<char>, checked: bool) -> ElementView {
    ElementView::empty("input"@).attr("type"@, "checkbox"@).attr("id"@, id).attr(
        "checked"@,
        bool_text(checked),
    ).on(EventKind::Change, Command::SetOption(key))
}

/// The label of one option.
pub open spec fn label_view(key: OptionKey, id: Seq<char>) -> ElementView {
    ElementView::empty("label"@).attr("style"@, "padding-left: 8px"@).attr("for"@, id).text(
        key.label_text(),
    )
}

/// One entry of the options menu: a checkbox and its label.
pub open spec fn option_item_view(key: OptionKey, id: Seq<char>, checked: bool) -> ElementView {
    ElementView::empty("li"@).child(NodeView::Element(checkbox_view(key, id, checked))).child(
        NodeView::Element(label_view(key, id)),
    )
}

/// The entry of the options menu for `key`, under given options and ids.
pub open spec fn menu_entry(
    key: OptionKey,
    options: DiagramOptions,
    ids: CheckboxIdsView,
) -> NodeView {
    NodeView::Element(option_item_view(key, ids.of(key), options.value_of(key)))
}

/// The list of the four options, one entry each, in their fixed order.
pub open spec fn option_list_view(options: DiagramOptions, ids: CheckboxIdsView) -> ElementView {
    ElementView::empty("ul"@).attr(
        "style"@,
        "list-style-type: none; padding: 0px; margin: 0px"@,
    ).child(menu_entry(OptionKey::HideInternal, options, ids)).child(
        menu_entry(OptionKey::KeepGroups, options, ids),
    ).child(menu_entry(OptionKey::FoldCommonTails, options, ids)).child(
        menu_entry(OptionKey::ShowLegend, options, ids),
    )
}

/// The options menu as first built.
pub open spec fn dropdown_view(options: DiagramOptions, ids: CheckboxIdsView) -> ElementView {
    ElementView::empty("div"@).attr("style"@, "position: absolute"@).class(
        "railroad_dropdown_content"@,
    ).child(NodeView::Element(option_list_view(options, ids)))
}

/// The icon that shows and hides the options menu.
pub open spec fn options_icon_view(url: Seq<char>) -> ElementView {
    ElementView::empty("img"@).class("railroad_icon"@).attr("style"@, "margin-right: 8px"@).attr(
        "src"@,
        url,
    ).on(EventKind::Click, Command::ToggleDropdown)
}

/// The icon that opens the fullscreen view.
pub open spec fn fullscreen_icon_view(url: Seq<char>) -> ElementView {
    ElementView::empty("img"@).class("railroad_icon"@).attr("src"@, url).on(
        EventKind::Click,
        Command::OpenModal,
    )
}

/// The box that holds the options icon and, below it, the options menu.
pub open spec fn options_box_view(url: Seq<char>) -> ElementView {
    ElementView::empty("div"@).attr("style"@, "position: relative; display: inline"@).child(
        NodeView::Element(options_icon_view(url)),
    ).child(NodeView::Part(Role::Dropdown))
}

/// The icon bar: the options box, then the fullscreen icon.
pub open spec fn icons_view(assets: AssetsView) -> ElementView {
    ElementView::empty("div"@).class("railroad_icons"@).child(
        NodeView::Element(options_box_view(assets.options_icon)),
    ).child(NodeView::Element(fullscreen_icon_view(assets.fullscreen_icon)))
}

/// The frame that takes the place of the macro block: the block itself, the
/// fullscreen view, the diagram and the icon bar, in this order.
pub open spec fn frame_view(assets: AssetsView) -> ElementView {
    ElementView::empty("div"@).attr("style"@, "width: 100%;"@).child(NodeView::Block).child(
        NodeView::Part(Role::Modal),
    ).child(NodeView::Part(Role::Diagram)).child(NodeView::Element(icons_view(assets)))
}

/// The inline style that caps the diagram at its preferred width.
pub open spec fn max_width_style(width: i64) -> Seq<char> {
    "max-width: "@ + decimal_text(width as int) + "px"@
}

/// The page's diagram container once it shows the given rendering: its
/// first child is the new markup and its width is capped.
pub open spec fn redrawn(container: ElementView, rendering: RenderingView) -> ElementView {
    container.first_child_replaced(NodeView::Markup(rendering.svg)).attr(
        "style"@,
        max_width_style(rendering.width),
    )
}

/// The fullscreen view's content once it shows the given rendering.
pub open spec fn refilled(content: ElementView, rendering: RenderingView) -> ElementView {
    content.first_child_replaced(NodeView::Markup(rendering.svg))
}

/// What drawing a rendering into two containers leaves behind.
pub struct Patch {
    /// The page's diagram container afterwards.
    pub diagram: ElementView,
    /// The fullscreen view's content afterwards.
    pub modal_content: ElementView,
    /// Whether both containers took the rendering.
    pub complete: bool,
}

/// Draws a rendering into the page's container first and the fullscreen
/// view's second. A container without a child to replace stops the work
/// where it stands.
pub open spec fn patch(
    diagram: ElementView,
    modal_content: ElementView,
    rendering: RenderingView,
) -> Patch {
    if diagram.children.len() == 0 {
        Patch { diagram, modal_content, complete: false }
    } else if modal_content.children.len() == 0 {
        Patch { diagram: redrawn(diagram, rendering), modal_content, complete: false }
    } else {
        Patch {
            diagram: redrawn(diagram, rendering),
            modal_content: refilled(modal_content, rendering),
            complete: true,
        }
    }
}

/// Builds the fullscreen view. Returns the node that will hold the diagram
/// and the view's container, which refers to that node by its role.
pub fn create_modal() -> (parts: (Element, Element))
    ensures
        parts.0@ == modal_content_view(),
        parts.1@ == modal_view(),
{
    let mut modal_content = Element::new("div");
    modal_content.append_child(Node::Element(Element::new("svg")));
    classlist_add(&mut modal_content, "railroad_modal_content");

    let mut modal_container = Element::new("div");
    modal_container.append_child(Node::Part(Role::ModalContent));
    classlist_add(&mut modal_container, "railroad_modal");
    // The stylesheet arrives after the page has been drawn; until then
    // the view stays out of sight.
    modal_container.set_attribute("style", "display: none");
    modal_container.add_event_listener(EventKind::Click, Command::CloseModal);

    (modal_content, modal_container)
}

/// Builds the container that holds the diagram on the page.
pub fn create_container() -> (container: Element)
    ensures
        container@ == container_view(),
{
    let mut container = Element::new("div");
    classlist_add(&mut container, "railroad_container");
    container.append_child(Node::Element(Element::new("svg")));
    container
}

/// Builds one entry of the options menu.
pub fn create_option(key: OptionKey, id: &str, checked: bool) -> (item: Element)
    ensures
        item@ == option_item_view(key, id@, checked),
{
    let mut list_item = Element::new("li");

    let mut input_item = Element::new("input");
    input_item.set_attribute("type", "checkbox");
    input_item.set_attribute("id", id);
    input_item.set_attribute("checked", bool_str(checked));
    input_item.add_event_listener(EventKind::Change, Command::SetOption(key));
    list_item.append_child(Node::Element(input_item));

    let mut label_item = Element::new("label");
    label_item.set_attribute("style", "padding-left: 8px");
    label_item.set_attribute("for", id);
    label_item.set_text_content(key.label());
    list_item.append_child(Node::Element(label_item));

    list_item
}

/// Builds the icons in the lower-right corner and the options menu.
///
/// Returns the icon bar and the menu. The bar refers to the menu by its
/// role, so that the menu can be shown and hidden on its own.
pub fn create_icons(options: &DiagramOptions, ids: &CheckboxIds, assets: &Assets) -> (parts: (
    Element,
    Element,
))
    ensures
        parts.0@ == icons_view(assets@),
        parts.1@ == dropdown_view(*options, ids@),
{
    let mut icons_container = Element::new("div");
    classlist_add(&mut icons_container, "railroad_icons");

    let mut options_container = Element::new("div");
    options_container.set_attribute("style", "position: relative; display: inline");

    let mut dropdown_container = Element::new("div");
    dropdown_container.set_attribute("style", "position: absolute");
    classlist_add(&mut dropdown_container, "railroad_dropdown_content");

    let mut options_list = Element::new("ul");
    options_list.set_attribute("style", "list-style-type: none; padding: 0px; margin: 0px");
    let mut position: usize = 0;
    while position < 4
        invariant
            position <= 4,
            options_list@.tag == "ul"@,
            options_list@.classes == Seq::<Seq<char>>::empty(),
            options_list@.attributes == Map::<Seq<char>, Seq<char>>::empty().insert(
                "style"@,
                "list-style-type: none; padding: 0px; margin: 0px"@,
            ),
            options_list@.listeners == Seq::<Listener>::empty(),
            options_list@.children == Seq::new(
                position as nat,
                |i: int| menu_entry(OptionKey::at(i), *options, ids@),
            ),
        decreases 4 - position,
    {
        let key = OptionKey::from_position(position);
        let item = create_option(key, ids.of(key), options.get(key));
        options_list.append_child(Node::Element(item));
        position += 1;
        assert(options_list@.children =~= Seq::new(
            position as nat,
            |i: int| menu_entry(OptionKey::at(i), *options, ids@),
        ));
    }
    assert(options_list@ == option_list_view(*options, ids@)) by {
        assert(options_list@.children =~= option_list_view(*options, ids@).children);
    }
    dropdown_container.append_child(Node::Element(options_list));

    let mut options_icon = Element::new("img");
    classlist_add(&mut options_icon, "railroad_icon");
    options_icon.set_attribute("style", "margin-right: 8px");
    options_icon.set_attribute("src", assets.options_icon.as_str());
    options_icon.add_event_listener(EventKind::Click, Command::ToggleDropdown);
    options_container.append_child(Node::Element(options_icon));
    options_container.append_child(Node::Part(Role::Dropdown));
    icons_container.append_child(Node::Element(options_container));

    let mut fullscreen_icon = Element::new("img");
    classlist_add(&mut fullscreen_icon, "railroad_icon");
    fullscreen_icon.set_attribute("src", assets.fullscreen_icon.as_str());
    fullscreen_icon.add_event_listener(EventKind::Click, Command::OpenModal);
    icons_container.append_child(Node::Element(fullscreen_icon));

    (icons_container, dropdown_container)
}

/// Builds the frame that takes the macro block's place.
pub fn create_frame(icons: Element) -> (frame: Element)
    ensures
        frame@ == ElementView::empty("div"@).attr("style"@, "width: 100%;"@).child(
            NodeView::Block,
        ).child(NodeView::Part(Role::Modal)).child(NodeView::Part(Role::Diagram)).child(
            NodeView::Element(icons@),
        ),
{
    let mut frame = Element::new("div");
    frame.set_attribute("style", "width: 100%;");
    frame.append_child(Node::Block);
    frame.append_child(Node::Part(Role::Modal));
    frame.append_child(Node::Part(Role::Diagram));
    frame.append_child(Node::Element(icons));
    frame
}

/// The inline style that caps the diagram at `width` pixels.
pub fn max_width(width: i64) -> (style: String)
    ensures
        style@ == max_width_style(width),
{
    let mut style = String::from_str("max-width: ");
    let number = decimal(width);
    style.append(number.as_str());
    style.append("px");
    style
}

/// Draws a rendering into the page's diagram container and into the
/// fullscreen view's content: the first child of each is replaced by the
/// new markup, and the page's container is capped at the rendering's width.
///
/// A container without a child is reported with [`Error::NodeNotFound`];
/// what had been drawn before the discovery stays drawn.
pub fn apply(rendering: &Rendering, diagram: &mut Element, modal_content: &mut Element) -> (result:
    Result<(), Error>)
    ensures
        final(diagram)@ == patch(old(diagram)@, old(modal_content)@, rendering@).diagram,
        final(modal_content)@ == patch(
            old(diagram)@,
            old(modal_content)@,
            rendering@,
        ).modal_content,
        patch(old(diagram)@, old(modal_content)@, rendering@).complete ==> result == Ok::<
            (),
            Error,
        >(()),
        !patch(old(diagram)@, old(modal_content)@, rendering@).complete ==> result == Err::<
            (),
            Error,
        >(Error::NodeNotFound),
{
    match diagram.replace_first_child(Node::Markup(rendering.svg.clone())) {
        Ok(_) => {},
        Err(error) => {
            return Err(error);
        },
    }
    let style = max_width(rendering.width);
    diagram.set_attribute("style", style.as_str());
    match modal_content.replace_first_child(Node::Markup(rendering.svg.clone())) {
        Ok(_) => Ok(()),
        Err(error) => Err(error),
    }
}

/// Renders `source` under `options` and draws the result into both
/// containers. Called when an option is set and to draw the first diagram.
///
/// Source text that does not parse leaves both containers as they are and
/// is reported with the parser's message.
pub fn update(
    options: &DiagramOptions,
    diagram: &mut Element,
    modal_content: &mut Element,
    source: &str,
) -> (result: Result<(), Error>)
    ensures
        match rendering_of(source@, *options) {
            Ok(rendering) => {
                let outcome = patch(old(diagram)@, old(modal_content)@, rendering);
                &&& final(diagram)@ == outcome.diagram
                &&& final(modal_content)@ == outcome.modal_content
                &&& outcome.complete ==> result == Ok::<(), Error>(())
                &&& !outcome.complete ==> result == Err::<(), Error>(Error::NodeNotFound)
            },
            Err(message) => {
                &&& result is Err
                &&& result->Err_0@ == ErrorView::SynParsing(message)
                &&& final(diagram)@ == old(diagram)@
                &&& final(modal_content)@ == old(modal_content)@
            },
        },
{
    match render(source, options) {
        Ok(rendering) => apply(&rendering, diagram, modal_content),
        Err(error) => Err(error),
    }
}

/// The widget built for one macro block.
///
/// The source text is fixed when the widget is built. The options change
/// one switch at a time, and every change is followed by a fresh drawing.
#[derive(Debug)]
pub struct Widget {
    source: String,
    options: DiagramOptions,
    ids: CheckboxIds,
    frame: Element,
    modal: Element,
    modal_content: Element,
    diagram: Element,
    dropdown: Element,
}

/// The mathematical content of a [`Widget`].
pub struct WidgetView {
    /// The macro source captured when the widget was built.
    pub source: Seq<char>,
    /// The current options.
    pub options: DiagramOptions,
    /// The ids of the four checkboxes.
    pub ids: CheckboxIdsView,
    /// The fixed frame around the changing nodes.
    pub frame: ElementView,
    /// The fullscreen view.
    pub modal: ElementView,
    /// The node of the fullscreen view that holds the diagram.
    pub modal_content: ElementView,
    /// The container of the diagram on the page.
    pub diagram: ElementView,
    /// The options menu.
    pub dropdown: ElementView,
}

impl View for Widget {
    type V = WidgetView;

    closed spec fn view(&self) -> WidgetView {
        WidgetView {
            source: self.source@,
            options: self.options,
            ids: self.ids@,
            frame: self.frame@,
            modal: self.modal@,
            modal_content: self.modal_content@,
            diagram: self.diagram@,
            dropdown: self.dropdown@,
        }
    }
}

impl WidgetView {
    /// Each of the two diagram containers holds exactly one node.
    pub open spec fn wf(self) -> bool {
        &&& self.diagram.children.len() == 1
        &&& self.modal_content.children.len() == 1
    }

    /// The node with the given role.
    pub open spec fn part(self, role: Role) -> ElementView {
        match role {
            Role::Modal => self.modal,
            Role::ModalContent => self.modal_content,
            Role::Diagram => self.diagram,
            Role::Dropdown => self.dropdown,
        }
    }

    /// The markup this widget shows on the page, if its container's first
    /// child is markup.
    pub open spec fn shown(self) -> Option<Seq<char>> {
        if self.diagram.children.len() > 0 && self.diagram.children[0] is Markup {
            Some(self.diagram.children[0]->Markup_0)
        } else {
            None
        }
    }

    /// The widget as first built for a source text whose first rendering is
    /// given: all options on, both containers showing that rendering, the
    /// fullscreen view hidden and closed, the options menu closed.
    pub open spec fn initial(
        source: Seq<char>,
        ids: CheckboxIdsView,
        assets: AssetsView,
        rendering: RenderingView,
    ) -> WidgetView {
        WidgetView {
            source,
            options: DiagramOptions::all_enabled(),
            ids,
            frame: frame_view(assets),
            modal: modal_view(),
            modal_content: refilled(modal_content_view(), rendering),
            diagram: redrawn(container_view(), rendering),
            dropdown: dropdown_view(DiagramOptions::all_enabled(), ids),
        }
    }

    /// The widget after the pipeline's outcome has been drawn: a rendering
    /// goes into both containers, a parse failure changes nothing.
    pub open spec fn drawn(self, outcome: Result<RenderingView, Seq<char>>) -> WidgetView {
        match outcome {
            Ok(rendering) => {
                let outcome = patch(self.diagram, self.modal_content, rendering);
                WidgetView {
                    diagram: outcome.diagram,
                    modal_content: outcome.modal_content,
                    ..self
                }
            },
            Err(_) => self,
        }
    }

    /// The widget after its source has been rendered under its current
    /// options and drawn.
    pub open spec fn updated(self) -> WidgetView {
        self.drawn(rendering_of(self.source, self.options))
    }

    /// The widget after one switch has been set and the diagram drawn again.
    pub open spec fn with_option(self, key: OptionKey, value: bool) -> WidgetView {
        (WidgetView { options: self.options.with(key, value), ..self }).updated()
    }

    /// The widget after a command has been carried out. `checked` is the
    /// state of the checkbox that a `SetOption` command reports.
    pub open spec fn after(self, command: Command, checked: bool) -> WidgetView {
        match command {
            Command::CloseModal => WidgetView {
                modal: self.modal.without_class("railroad_active"@),
                ..self
            },
            Command::OpenModal => WidgetView {
                modal: self.modal.class("railroad_active"@),
                ..self
            },
            Command::ToggleDropdown => WidgetView {
                dropdown: self.dropdown.toggled("railroad_dropdown_show"@),
                ..self
            },
            Command::SetOption(key) => self.with_option(key, checked),
        }
    }
}

impl Widget {
    /// Builds the widget for a macro block with the given checkbox ids and
    /// draws its first diagram.
    ///
    /// Fails exactly when the source does not parse; no widget exists then.
    pub fn assemble(source: String, ids: CheckboxIds, assets: &Assets) -> (result: Result<
        Widget,
        Error,
    >)
        ensures
            match rendering_of(source@, DiagramOptions::all_enabled()) {
                Ok(rendering) => result is Ok && result->Ok_0@ == WidgetView::initial(
                    source@,
                    ids@,
                    assets@,
                    rendering,
                ) && result->Ok_0@.wf(),
                Err(message) => result is Err && result->Err_0@ == ErrorView::SynParsing(message),
            },
    {
        let options = DiagramOptions::default();
        let (modal_content, modal) = create_modal();
        let diagram = create_container();
        let (icons, dropdown) = create_icons(&options, &ids, assets);
        let frame = create_frame(icons);
        let mut widget = Widget {
            source,
            options,
            ids,
            frame,
            modal,
            modal_content,
            diagram,
            dropdown,
        };
        match update(
            &widget.options,
            &mut widget.diagram,
            &mut widget.modal_content,
            widget.source.as_str(),
        ) {
            Ok(()) => Ok(widget),
            Err(error) => Err(error),
        }
    }

    /// Builds the widget for a macro block, with fresh ids for its
    /// checkboxes, and draws its first diagram.
    ///
    /// Fails exactly when the source does not parse. The ids differ from
    /// call to call; everything else about the widget is determined.
    pub fn new(source: String, assets: &Assets) -> (result: Result<Widget, Error>)
        ensures
            match rendering_of(source@, DiagramOptions::all_enabled()) {
                Ok(rendering) => result is Ok && result->Ok_0@.ids.generated() && result->Ok_0@
                    == WidgetView::initial(source@, result->Ok_0@.ids, assets@, rendering)
                    && result->Ok_0@.wf(),
                Err(message) => result is Err && result->Err_0@ == ErrorView::SynParsing(message),
            },
    {
        Widget::assemble(source, CheckboxIds::random(), assets)
    }

    /// The macro source captured when the widget was built.
    pub fn source(&self) -> (source: &str)
        ensures
            source@ == self@.source,
    {
        self.source.as_str()
    }

    /// The current options.
    pub fn options(&self) -> (options: DiagramOptions)
        ensures
            options == self@.options,
    {
        self.options
    }

    /// The ids of the four checkboxes.
    pub fn ids(&self) -> (ids: &CheckboxIds)
        ensures
            ids@ == self@.ids,
    {
        &self.ids
    }

    /// The fixed frame around the changing nodes.
    pub fn frame(&self) -> (frame: &Element)
        ensures
            frame@ == self@.frame,
    {
        &self.frame
    }

    /// The node with the given role, as it stands now.
    pub fn part(&self, role: Role) -> (element: &Element)
        ensures
            element@ == self@.part(role),
    {
        match role {
            Role::Modal => &self.modal,
            Role::ModalContent => &self.modal_content,
            Role::Diagram => &self.diagram,
            Role::Dropdown => &self.dropdown,
        }
    }

    /// Renders the source under the current options and draws the result
    /// into both containers.
    ///
    /// Fails exactly when the source does not parse; the widget then shows
    /// what it showed before.
    pub fn update(&mut self) -> (result: Result<(), Error>)
        requires
            old(self)@.wf(),
        ensures
            final(self)@ == old(self)@.updated(),
            final(self)@.wf(),
            match rendering_of(old(self)@.source, old(self)@.options) {
                Ok(_) => result == Ok::<(), Error>(()),
                Err(message) => result is Err && result->Err_0@ == ErrorView::SynParsing(message),
            },
    {
        update(&self.options, &mut self.diagram, &mut self.modal_content, self.source.as_str())
    }

    /// Sets one switch, leaves the other three alone, and draws again.
    ///
    /// The switch stays set even where drawing fails.
    pub fn set_option(&mut self, key: OptionKey, value: bool) -> (result: Result<(), Error>)
        requires
            old(self)@.wf(),
        ensures
            final(self)@ == old(self)@.with_option(key, value),
            final(self)@.options == old(self)@.options.with(key, value),
            final(self)@.wf(),
            match rendering_of(old(self)@.source, old(self)@.options.with(key, value)) {
                Ok(_) => result == Ok::<(), Error>(()),
                Err(message) => result is Err && result->Err_0@ == ErrorView::SynParsing(message),
            },
    {
        self.options.set(key, value);
        self.update()
    }

    /// Carries out the command of an event that fired on one of the
    /// widget's nodes. `checked` is what the host reports as the state of
    /// the checkbox concerned; only a `SetOption` command reads it.
    ///
    /// Only drawing can fail, and only for source that does not parse.
    pub fn handle(&mut self, command: Command, checked: &HostValue) -> (result: Result<(), Error>)
        requires
            old(self)@.wf(),
        ensures
            final(self)@ == old(self)@.after(command, *checked == HostValue::Bool(true)),
            final(self)@.wf(),
            !(command is SetOption) ==> result == Ok::<(), Error>(()),
            command matches Command::SetOption(key) ==> match rendering_of(
                old(self)@.source,
                old(self)@.options.with(key, *checked == HostValue::Bool(true)),
            ) {
                Ok(_) => result == Ok::<(), Error>(()),
                Err(message) => result is Err && result->Err_0@ == ErrorView::SynParsing(message),
            },
    {
        match command {
            Command::CloseModal => {
                classlist_remove(&mut self.modal, "railroad_active");
                Ok(())
            },
            Command::OpenModal => {
                classlist_add(&mut self.modal, "railroad_active");
                Ok(())
            },
            Command::ToggleDropdown => {
                classlist_toggle(&mut self.dropdown, "railroad_dropdown_show");
                Ok(())
            },
            Command::SetOption(key) => self.set_option(key, is_checked(checked)),
        }
    }

    /// Takes note that the stylesheet has loaded: the fullscreen view loses
    /// the inline style that kept it out of sight.
    pub fn stylesheet_loaded(&mut self)
        ensures
            final(self)@ == (WidgetView {
                modal: old(self)@.modal.without_attr("style"@),
                ..old(self)@
            }),
    {
        self.modal.remove_attribute("style");
    }
}

/// Drawing is idempotent: with source and options unchanged, a second
/// drawing leaves the widget exactly as the first one left it.
pub proof fn lemma_update_is_idempotent(widget: WidgetView)
    ensures
        widget.updated().updated() == widget.updated(),
{
    match rendering_of(widget.source, widget.options) {
        Ok(rendering) => {
            let once = patch(widget.diagram, widget.modal_content, rendering);
            let twice = patch(once.diagram, once.modal_content, rendering);
            assert(twice.diagram.children =~= once.diagram.children);
            assert(twice.diagram.attributes =~= once.diagram.attributes);
            assert(twice.modal_content.children =~= once.modal_content.children);
        },
        Err(_) => {},
    }
}

/// Whatever the pipeline yields, drawing replaces and never adds or
/// removes: each container keeps the number of children it had. A widget
/// whose containers hold one node each still does so after any command, and
/// after a drawing that succeeded both show the new markup.
pub proof fn lemma_single_child_is_kept(widget: WidgetView, command: Command, checked: bool)
    ensures
        widget.updated().diagram.children.len() == widget.diagram.children.len(),
        widget.updated().modal_content.children.len() == widget.modal_content.children.len(),
        widget.wf() ==> widget.after(command, checked).wf(),
        widget.wf() ==> match rendering_of(widget.source, widget.options) {
            Ok(rendering) => widget.updated().diagram.children == seq![
                NodeView::Markup(rendering.svg),
            ] && widget.updated().modal_content.children == seq![NodeView::Markup(rendering.svg)],
            Err(_) => widget.updated() == widget,
        },
{
    match rendering_of(widget.source, widget.options) {
        Ok(rendering) => {
            assert(widget.wf() ==> widget.updated().diagram.children =~= seq![
                NodeView::Markup(rendering.svg),
            ]);
            assert(widget.wf() ==> widget.updated().modal_content.children =~= seq![
                NodeView::Markup(rendering.svg),
            ]);
        },
        Err(_) => {},
    }
}

/// Setting one switch through the widget changes that switch and no other,
/// whether or not the drawing that follows succeeds; and no command at all
/// touches the source text.
pub proof fn lemma_option_change_is_isolated(
    widget: WidgetView,
    key: OptionKey,
    value: bool,
    other: OptionKey,
    command: Command,
)
    ensures
        widget.with_option(key, value).options.value_of(key) == value,
        other != key ==> widget.with_option(key, value).options.value_of(other)
            == widget.options.value_of(other),
        widget.after(command, value).source == widget.source,
        !(command is SetOption) ==> widget.after(command, value).options == widget.options,
{
}

} // verus!
