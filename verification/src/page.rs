//! The pass over a page: gate, styles, one widget per macro block.

use vstd::prelude::*;
use vstd::string::*;
use crate::dom::{Command, Element, ElementView};
use crate::error::{Error, ErrorView};
use crate::options::DiagramOptions;
use crate::pipeline::rendering_of;
use crate::util::{Assets, AssetsView, Deployment, HostValue};
use crate::widget::{CheckboxIds, CheckboxIdsView, Widget, WidgetView};

verus! {

/// The selector that finds the generator tag in the document's head.
pub const GENERATOR_SELECTOR: &'static str = "head > meta[name=\"generator\"]";

/// The script that runs once the stylesheet has loaded: it takes the inline
/// style off every fullscreen view, so that the stylesheet decides from then
/// on whether the view shows.
pub const STYLESHEET_ONLOAD: &'static str = "
for (let n of document.getElementsByClassName(\"railroad_modal\")) {
    n.removeAttribute(\"style\");
}
";

/// The generator tag of a page: the value of its `content` attribute, if it
/// has one.
#[derive(Clone, Debug)]
pub struct MetaTag {
    pub content: Option<String>,
}

/// A macro block as the scan found it.
#[derive(Clone, Debug)]
pub struct MacroBlock {
    /// The block's text, or nothing where the node yields no text.
    pub text: Option<String>,
    /// Whether the block hangs in the document, so that a frame can take
    /// its place.
    pub attached: bool,
}

/// Why a macro block was left as it is.
#[derive(Clone, Debug, PartialEq, Eq)]
pub enum Skip {
    /// The node yields no text.
    NoText,
    /// The node has no parent.
    Detached,
    /// Building the widget failed.
    Failed(Error),
}

/// What became of one macro block.
#[derive(Debug)]
pub enum Slot {
    /// The block is untouched.
    Skipped(Skip),
    /// A widget stands in the block's place.
    Widget(Widget),
}

/// The outcome of a pass: what to add to the document's head, and what
/// became of each macro block, in document order.
#[derive(Debug)]
pub struct Page {
    head: Vec<Element>,
    slots: Vec<Slot>,
}

/// The mathematical content of a [`Skip`].
pub enum SkipView {
    NoText,
    Detached,
    Failed(ErrorView),
}

/// The mathematical content of a [`Slot`].
pub enum SlotView {
    Skipped(SkipView),
    Widget(WidgetView),
}

/// The mathematical content of a [`Page`].
pub struct PageView {
    pub head: Seq<ElementView>,
    pub slots: Seq<SlotView>,
}

impl View for Skip {
    type V = SkipView;

    open spec fn view(&self) -> SkipView {
        match self {
            Skip::NoText => SkipView::NoText,
            Skip::Detached => SkipView::Detached,
            Skip::Failed(error) => SkipView::Failed(error@),
        }
    }
}

impl View for Slot {
    type V = SlotView;

    open spec fn view(&self) -> SlotView {
        match self {
            Slot::Skipped(skip) => SlotView::Skipped(skip@),
            Slot::Widget(widget) => SlotView::Widget(widget@),
        }
    }
}

/// The contents of a list of elements.
pub open spec fn element_views(elements: Seq<Element>) -> Seq<ElementView> {
    Seq::new(elements.len(), |i: int| elements[i]@)
}

/// The contents of a list of slots.
pub open spec fn slot_views(slots: Seq<Slot>) -> Seq<SlotView> {
    Seq::new(slots.len(), |i: int| slots[i]@)
}

impl View for Page {
    type V = PageView;

    closed spec fn view(&self) -> PageView {
        PageView { head: element_views(self.head@), slots: slot_views(self.slots@) }
    }
}

/// Whether a generator tag names the documentation generator.
pub open spec fn names_rustdoc(tag: MetaTag) -> bool {
    tag.content matches Some(content) && content@ == "rustdoc"@
}

/// What [`is_rustdoc`] returns for the outcome of the tag query.
pub open spec fn classified(lookup: Result<Option<MetaTag>, Error>) -> Result<bool, Error> {
    match lookup {
        Ok(Some(tag)) => Ok(names_rustdoc(tag)),
        Ok(None) => Ok(false),
        Err(error) => Err(error),
    }
}

/// Decides from the outcome of the query for the generator tag whether the
/// page was generated by rustdoc.
///
/// A page without the tag, or with another generator, is simply not one;
/// a query that failed is passed on as the failure it is.
pub fn is_rustdoc(lookup: Result<Option<MetaTag>, Error>) -> (result: Result<bool, Error>)
    ensures
        result == classified(lookup),
{
    let tag = match lookup {
        Ok(Some(tag)) => tag,
        Ok(None) => {
            return Ok(false);
        },
        Err(error) => {
            return Err(error);
        },
    };
    match tag.content {
        Some(content) => Ok(content == String::from_str("rustdoc")),
        None => Ok(false),
    }
}

/// The link that loads the widgets' stylesheet.
pub open spec fn stylesheet_link_view(href: Seq<char>) -> ElementView {
    ElementView::empty("link"@).attr("type"@, "text/css"@).attr("rel"@, "stylesheet"@).attr(
        "href"@,
        href,
    ).attr("onload"@, STYLESHEET_ONLOAD@)
}

/// A style element that holds the given rules.
pub open spec fn style_view(css: Seq<char>) -> ElementView {
    ElementView::empty("style"@).text(css).attr("type"@, "text/css"@)
}

/// Whether an element is a style element, whatever its rules.
pub open spec fn is_style(element: ElementView) -> bool {
    exists|css: Seq<char>| element == style_view(css)
}

/// The three elements every qualifying page gets in its head: the link to
/// the stylesheet, the layout's rules, the diagram's rules.
pub open spec fn head_views(href: Seq<char>, layout_css: Seq<char>, diagram_css: Seq<char>) -> Seq<
    ElementView,
> {
    seq![stylesheet_link_view(href), style_view(layout_css), style_view(diagram_css)]
}

/// Hands out `railroad::DEFAULT_CSS`, the rules of the layout's default
/// theme. Nothing is claimed of the text.
#[verifier::external_body]
fn layout_css() -> (css: &'static str) {
    railroad::DEFAULT_CSS
}

/// Hands out the rules `macro_railroad::diagram::Stylesheet::Light` stands
/// for. Nothing is claimed of the text.
#[verifier::external_body]
fn diagram_css() -> (css: &'static str) {
    macro_railroad::diagram::Stylesheet::Light.stylesheet()
}

/// Queues the elements that style the widgets for the document's head: the
/// stylesheet link with its load script first, then the two sets of rules.
pub fn inject_css(head: &mut Vec<Element>, href: &str, layout_css: &str, diagram_css: &str)
    ensures
        element_views(final(head)@) == element_views(old(head)@) + head_views(
            href@,
            layout_css@,
            diagram_css@,
        ),
{
    let mut mrext_css = Element::new("link");
    mrext_css.set_attribute("type", "text/css");
    mrext_css.set_attribute("rel", "stylesheet");
    mrext_css.set_attribute("href", href);
    // The stylesheet loads after the widgets have been drawn. The
    // fullscreen views are therefore built hidden, and the script unhides
    // them once the stylesheet is in charge.
    mrext_css.set_attribute("onload", STYLESHEET_ONLOAD);
    head.push(mrext_css);

    let mut rr_css = Element::new("style");
    rr_css.set_text_content(layout_css);
    rr_css.set_attribute("type", "text/css");
    head.push(rr_css);

    let mut mrr_css = Element::new("style");
    mrr_css.set_text_content(diagram_css);
    mrr_css.set_attribute("type", "text/css");
    head.push(mrr_css);

    assert(element_views(head@) =~= element_views(old(head)@) + head_views(
        href@,
        layout_css@,
        diagram_css@,
    ));
}

/// The selector for macro blocks on pages of the older layout.
pub const LEGACY_BLOCK_SELECTOR: &'static str = "pre.macro";

/// The selector for macro blocks on pages of the newer layout.
pub const BLOCK_SELECTOR: &'static str = "div.item-decl pre.rust";

/// The selectors that find macro blocks, in the order in which they are to
/// be tried: the older page layout first, then the newer one.
pub fn block_selectors() -> (selectors: Vec<&'static str>)
    ensures
        selectors@ == seq![LEGACY_BLOCK_SELECTOR, BLOCK_SELECTOR],
{
    let mut selectors: Vec<&'static str> = Vec::new();
    selectors.push(LEGACY_BLOCK_SELECTOR);
    selectors.push(BLOCK_SELECTOR);
    assert(selectors@ =~= seq![LEGACY_BLOCK_SELECTOR, BLOCK_SELECTOR]);
    selectors
}

/// The macro blocks of a page and the selector that found them.
#[derive(Clone, Debug)]
pub struct Found {
    /// The position, in the order of trial, of the selector whose blocks
    /// these are; the number of selectors where none matched.
    pub selector: usize,
    /// The blocks, in document order.
    pub blocks: Vec<MacroBlock>,
}

/// What a list of query outcomes, one per selector and in the selectors'
/// order, amounts to from position `from` on: the position and the blocks
/// of the first selector that matched any, unless a query failed before one
/// matched.
pub open spec fn first_found(
    answers: Seq<Result<Vec<MacroBlock>, Error>>,
    from: int,
) -> Result<(int, Seq<MacroBlock>), Error>
    decreases answers.len() - from,
{
    if from < 0 || from >= answers.len() {
        Ok((answers.len() as int, Seq::empty()))
    } else {
        match answers[from] {
            Ok(blocks) => if blocks@.len() > 0 {
                Ok((from, blocks@))
            } else {
                first_found(answers, from + 1)
            },
            Err(error) => Err(error),
        }
    }
}

/// Picks the macro blocks from the outcomes of the block queries, one
/// outcome per selector and in the selectors' order. A later selector
/// counts only where every earlier one matched nothing; a failed query ends
/// the search with its failure.
pub fn first_match(answers: Vec<Result<Vec<MacroBlock>, Error>>) -> (result: Result<Found, Error>)
    ensures
        match first_found(answers@, 0) {
            Ok((selector, blocks)) => result is Ok && result->Ok_0.selector == selector
                && result->Ok_0.blocks@ == blocks,
            Err(error) => result == Err::<Found, Error>(error),
        },
{
    let count = answers.len();
    let mut pending = answers;
    let mut position: usize = 0;
    while pending.len() > 0
        invariant
            position + pending@.len() == count,
            count == answers@.len(),
            pending@ == answers@.skip(position as int),
            first_found(answers@, position as int) == first_found(answers@, 0),
        decreases pending@.len(),
    {
        let answer = pending.remove(0);
        assert(pending@ =~= answers@.skip(position as int + 1));
        assert(answers@[position as int] == answer);
        match answer {
            Ok(blocks) => {
                if blocks.len() > 0 {
                    return Ok(Found { selector: position, blocks });
                }
            },
            Err(error) => {
                return Err(error);
            },
        }
        position += 1;
    }
    Ok(Found { selector: count, blocks: Vec::new() })
}

/// What becomes of a macro block whose widget gets the given checkbox ids:
/// a block without text or without a parent is left alone, a block whose
/// source does not parse is left alone with the parser's message, and every
/// other block gets its widget.
pub open spec fn placement(
    block: MacroBlock,
    ids: CheckboxIdsView,
    assets: AssetsView,
) -> SlotView {
    match block.text {
        None => SlotView::Skipped(SkipView::NoText),
        Some(text) => if !block.attached {
            SlotView::Skipped(SkipView::Detached)
        } else {
            match rendering_of(text@, DiagramOptions::all_enabled()) {
                Ok(rendering) => SlotView::Widget(
                    WidgetView::initial(text@, ids, assets, rendering),
                ),
                Err(message) => SlotView::Skipped(
                    SkipView::Failed(ErrorView::SynParsing(message)),
                ),
            }
        },
    }
}

impl SlotView {
    /// Whether this is what becomes of `block` for some generated ids.
    pub open spec fn places(self, block: MacroBlock, assets: AssetsView) -> bool {
        match self {
            SlotView::Widget(widget) => widget.ids.generated() && widget.wf() && self
                == placement(block, widget.ids, assets),
            SlotView::Skipped(_) => forall|ids: CheckboxIdsView|
                self == #[trigger] placement(block, ids, assets),
        }
    }

    /// The slot once the stylesheet has loaded: a widget's fullscreen view
    /// has lost its inline style.
    pub open spec fn unhidden(self) -> SlotView {
        match self {
            SlotView::Widget(widget) => SlotView::Widget(
                WidgetView { modal: widget.modal.without_attr("style"@), ..widget },
            ),
            SlotView::Skipped(_) => self,
        }
    }
}

impl PageView {
    /// The page once the stylesheet has loaded.
    pub open spec fn unhidden(self) -> PageView {
        PageView {
            slots: Seq::new(self.slots.len(), |i: int| self.slots[i].unhidden()),
            ..self
        }
    }

    /// The page after the host has refused to build the widget at `index`:
    /// the block is left alone, with the host's failure on record. An index
    /// without a widget changes nothing.
    pub open spec fn failed(self, index: int, error: ErrorView) -> PageView {
        if self.has_widget(index) {
            PageView {
                slots: self.slots.update(index, SlotView::Skipped(SkipView::Failed(error))),
                ..self
            }
        } else {
            self
        }
    }

    /// Every widget's containers hold one node each.
    pub open spec fn wf(self) -> bool {
        forall|i: int|
            0 <= i < self.slots.len() ==> (#[trigger] self.slots[i] matches SlotView::Widget(
                widget,
            ) ==> widget.wf())
    }

    /// Whether the slot at `index` holds a widget.
    pub open spec fn has_widget(self, index: int) -> bool {
        0 <= index < self.slots.len() && self.slots[index] is Widget
    }

    /// The page after the widget at `index` has carried out a command. An
    /// index without a widget changes nothing.
    pub open spec fn after(self, index: int, command: Command, checked: bool) -> PageView {
        if self.has_widget(index) {
            PageView {
                slots: self.slots.update(
                    index,
                    SlotView::Widget(self.slots[index]->Widget_0.after(command, checked)),
                ),
                ..self
            }
        } else {
            self
        }
    }
}

/// Decides what becomes of one macro block, given the ids for its
/// checkboxes.
pub fn place_with(block: &MacroBlock, ids: CheckboxIds, assets: &Assets) -> (slot: Slot)
    ensures
        slot@ == placement(*block, ids@, assets@),
        slot@ matches SlotView::Widget(widget) ==> widget.wf(),
{
    let text = match &block.text {
        Some(text) => text.clone(),
        None => {
            return Slot::Skipped(Skip::NoText);
        },
    };
    if !block.attached {
        return Slot::Skipped(Skip::Detached);
    }
    match Widget::assemble(text, ids, assets) {
        Ok(widget) => Slot::Widget(widget),
        Err(error) => Slot::Skipped(Skip::Failed(error)),
    }
}

/// Decides what becomes of one macro block. The ids of a widget's
/// checkboxes are drawn afresh; all else follows from the block.
pub fn place(block: &MacroBlock, assets: &Assets) -> (slot: Slot)
    ensures
        slot@.places(*block, assets@),
{
    let ids = CheckboxIds::random();
    place_with(block, ids, assets)
}

/// Whether the scan's findings call for a pass at all and allow one: the
/// page is a rustdoc page, its assets resolve, and its blocks were found.
pub open spec fn admitted(
    generator: Result<Option<MetaTag>, Error>,
    blocks: Result<Vec<MacroBlock>, Error>,
    deployment: Deployment,
) -> bool {
    &&& classified(generator) == Ok::<bool, Error>(true)
    &&& Assets::resolved(deployment) is Ok
    &&& blocks is Ok
}

/// The failure that ends the pass, if one does: a failed tag query first,
/// then an asset that does not resolve, then a failed block query. A page
/// that is no rustdoc page fails nothing.
pub open spec fn refusal(
    generator: Result<Option<MetaTag>, Error>,
    blocks: Result<Vec<MacroBlock>, Error>,
    deployment: Deployment,
) -> Option<Error> {
    match classified(generator) {
        Err(error) => Some(error),
        Ok(false) => None,
        Ok(true) => match Assets::resolved(deployment) {
            Err(error) => Some(error),
            Ok(_) => match blocks {
                Err(error) => Some(error),
                Ok(_) => None,
            },
        },
    }
}

/// Runs the pass over a scanned page.
///
/// `generator` is the outcome of the query for the generator tag, `blocks`
/// the outcome of the query for macro blocks, in document order.
///
/// - A page that is no rustdoc page yields an empty outcome: nothing for
///   the head and no slots.
/// - A failed query or an asset that does not resolve ends the pass with
///   that failure, before any widget is built.
/// - Otherwise the head gets the stylesheet link and two style elements,
///   and every block gets a slot, in document order. A block that cannot be
///   turned into a widget is skipped and does not hold up the others.
pub fn load(
    generator: Result<Option<MetaTag>, Error>,
    blocks: Result<Vec<MacroBlock>, Error>,
    deployment: &Deployment,
) -> (result: Result<Page, Error>)
    ensures
        match refusal(generator, blocks, *deployment) {
            Some(error) => result == Err::<Page, Error>(error),
            None => result is Ok,
        },
        result matches Ok(page) ==> page@.wf(),
        result matches Ok(page) ==> !admitted(generator, blocks, *deployment) ==> page@.head.len()
            == 0 && page@.slots.len() == 0,
        result matches Ok(page) ==> admitted(generator, blocks, *deployment) ==> {
            &&& page@.head.len() == 3
            &&& page@.head[0] == stylesheet_link_view(
                Assets::resolved(*deployment)->Ok_0.stylesheet,
            )
            &&& is_style(page@.head[1])
            &&& is_style(page@.head[2])
            &&& page@.slots.len() == blocks->Ok_0@.len()
            &&& forall|i: int|
                0 <= i < page@.slots.len() ==> (#[trigger] page@.slots[i]).places(
                    blocks->Ok_0@[i],
                    Assets::resolved(*deployment)->Ok_0,
                )
        },
{
    let mut page = Page { head: Vec::new(), slots: Vec::new() };
    assert(page@.head =~= Seq::empty());
    assert(page@.slots =~= Seq::empty());

    // If this page was not generated by rustdoc, do nothing at all
    match is_rustdoc(generator) {
        Ok(true) => {},
        Ok(false) => {
            return Ok(page);
        },
        Err(error) => {
            return Err(error);
        },
    }

    let assets = match Assets::resolve(deployment) {
        Ok(assets) => assets,
        Err(error) => {
            return Err(error);
        },
    };
    let blocks = match blocks {
        Ok(blocks) => blocks,
        Err(error) => {
            return Err(error);
        },
    };

    let layout = layout_css();
    let diagram = diagram_css();
    inject_css(&mut page.head, assets.stylesheet.as_str(), layout, diagram);
    proof {
        let head = head_views(assets@.stylesheet, layout@, diagram@);
        assert(element_views(page.head@) =~= head);
        assert(head[1] == style_view(layout@));
        assert(head[2] == style_view(diagram@));
    }

    // Although there is most likely ever going to be exactly one
    // macro-definition per rustdoc-page, let's do it all anyway.
    let mut index: usize = 0;
    while index < blocks.len()
        invariant
            index <= blocks@.len(),
            page.slots@.len() == index,
            page.head@.len() == 3,
            element_views(page.head@) == head_views(assets@.stylesheet, layout@, diagram@),
            forall|i: int|
                0 <= i < index ==> (#[trigger] slot_views(page.slots@)[i]).places(
                    blocks@[i],
                    assets@,
                ),
        decreases blocks@.len() - index,
    {
        let ghost before = slot_views(page.slots@);
        let slot = place(&blocks[index], &assets);
        page.slots.push(slot);
        index += 1;
        assert(slot_views(page.slots@) =~= before.push(slot@));
    }
    Ok(page)
}

impl Page {
    /// The elements to add to the document's head, in order.
    pub fn head(&self) -> (head: &Vec<Element>)
        ensures
            element_views(head@) == self@.head,
    {
        &self.head
    }

    /// What became of each macro block, in document order.
    pub fn slots(&self) -> (slots: &Vec<Slot>)
        ensures
            slot_views(slots@) == self@.slots,
    {
        &self.slots
    }

    /// The widget that stands in the place of the macro block at `index`,
    /// if that block got one.
    pub fn widget(&self, index: usize) -> (widget: Option<&Widget>)
        ensures
            match widget {
                Some(widget) => self@.has_widget(index as int) && self@.slots[index as int]
                    == SlotView::Widget(widget@),
                None => !self@.has_widget(index as int),
            },
    {
        if index >= self.slots.len() {
            return None;
        }
        match &self.slots[index] {
            Slot::Widget(widget) => Some(widget),
            Slot::Skipped(_) => None,
        }
    }

    /// Passes the command of an event on to the widget at `index`. No other
    /// widget is touched.
    ///
    /// An index without a widget is reported with [`Error::NodeNotFound`];
    /// a widget reports only source that does not parse.
    pub fn handle(&mut self, index: usize, command: Command, checked: &HostValue) -> (result:
        Result<(), Error>)
        requires
            old(self)@.wf(),
        ensures
            final(self)@ == old(self)@.after(
                index as int,
                command,
                *checked == HostValue::Bool(true),
            ),
            final(self)@.wf(),
            !old(self)@.has_widget(index as int) ==> result == Err::<(), Error>(
                Error::NodeNotFound,
            ),
            old(self)@.has_widget(index as int) && !(command is SetOption) ==> result == Ok::<
                (),
                Error,
            >(()),
            old(self)@.has_widget(index as int) ==> (command matches Command::SetOption(key)
                ==> match rendering_of(
                old(self)@.slots[index as int]->Widget_0.source,
                old(self)@.slots[index as int]->Widget_0.options.with(
                    key,
                    *checked == HostValue::Bool(true),
                ),
            ) {
                Ok(_) => result == Ok::<(), Error>(()),
                Err(message) => result is Err && result->Err_0@ == ErrorView::SynParsing(message),
            }),
    {
        if index >= self.slots.len() {
            return Err(Error::NodeNotFound);
        }
        let slot = self.slots.remove(index);
        assert(old(self)@.slots[index as int] == slot@);
        match slot {
            Slot::Widget(widget) => {
                let mut widget = widget;
                let result = widget.handle(command, checked);
                self.slots.insert(index, Slot::Widget(widget));
                assert(self@.slots =~= old(self)@.slots.update(
                    index as int,
                    SlotView::Widget(widget@),
                ));
                assert(self@.head =~= old(self)@.head);
                result
            },
            Slot::Skipped(skip) => {
                self.slots.insert(index, Slot::Skipped(skip));
                assert(self@.slots =~= old(self)@.slots);
                assert(self@.head =~= old(self)@.head);
                Err(Error::NodeNotFound)
            },
        }
    }

    /// Takes note that the host refused to build the widget at `index`:
    /// the slot records the failure, and the widget is gone. No other slot
    /// is touched.
    pub fn fail(&mut self, index: usize, error: Error)
        ensures
            final(self)@ == old(self)@.failed(index as int, error@),
            old(self)@.wf() ==> final(self)@.wf(),
    {
        if index < self.slots.len() {
            let slot = self.slots.remove(index);
            assert(old(self)@.slots[index as int] == slot@);
            match slot {
                Slot::Widget(_) => {
                    self.slots.insert(index, Slot::Skipped(Skip::Failed(error)));
                    assert(self@.slots =~= old(self)@.slots.update(
                        index as int,
                        SlotView::Skipped(SkipView::Failed(error@)),
                    ));
                },
                Slot::Skipped(skip) => {
                    self.slots.insert(index, Slot::Skipped(skip));
                    assert(self@.slots =~= old(self)@.slots);
                },
            }
            assert(self@.head =~= old(self)@.head);
        }
    }

    /// Takes note that the stylesheet has loaded: every widget's fullscreen
    /// view loses the inline style that kept it out of sight.
    pub fn stylesheet_loaded(&mut self)
        ensures
            final(self)@ == old(self)@.unhidden(),
            old(self)@.wf() ==> final(self)@.wf(),
    {
        let ghost before = self@;
        let mut index: usize = 0;
        while index < self.slots.len()
            invariant
                index <= self.slots@.len(),
                self@.head == before.head,
                self@.slots.len() == before.slots.len(),
                forall|i: int| 0 <= i < index ==> self@.slots[i] == before.slots[i].unhidden(),
                forall|i: int| index <= i < self@.slots.len() ==> self@.slots[i] == before.slots[i],
            decreases self.slots@.len() - index,
        {
            let ghost entering = self@;
            let slot = self.slots.remove(index);
            assert(entering.slots[index as int] == slot@);
            match slot {
                Slot::Widget(widget) => {
                    let mut widget = widget;
                    widget.stylesheet_loaded();
                    self.slots.insert(index, Slot::Widget(widget));
                    assert(self@.slots =~= entering.slots.update(
                        index as int,
                        entering.slots[index as int].unhidden(),
                    ));
                },
                Slot::Skipped(skip) => {
                    self.slots.insert(index, Slot::Skipped(skip));
                    assert(self@.slots =~= entering.slots);
                },
            }
            assert(self@.head =~= entering.head);
            index += 1;
        }
        assert(self@.slots =~= before.unhidden().slots);
    }
}

/// Widgets do not share state: a command carried out by one widget leaves
/// every other slot of the page, and with it every other widget's options
/// and markup, exactly as it was. The head is not touched either, and the
/// number of slots stays the same.
pub proof fn lemma_widgets_are_independent(
    page: PageView,
    index: int,
    command: Command,
    checked: bool,
    other: int,
)
    requires
        0 <= other < page.slots.len(),
        other != index,
    ensures
        page.after(index, command, checked).slots[other] == page.slots[other],
        page.after(index, command, checked).slots.len() == page.slots.len(),
        page.after(index, command, checked).head == page.head,
{
}

/// Every block that has text, hangs in the document and parses gets a
/// widget, and that widget starts from the block's text with every option
/// on; every other block is skipped. A page whose blocks are all sound thus
/// carries as many widgets as it has blocks.
pub proof fn lemma_sound_blocks_get_widgets(slot: SlotView, block: MacroBlock, assets: AssetsView)
    requires
        slot.places(block, assets),
    ensures
        slot is Widget <==> (block.text is Some && block.attached && rendering_of(
            block.text->Some_0@,
            DiagramOptions::all_enabled(),
        ) is Ok),
        slot matches SlotView::Widget(widget) ==> widget.source == block.text->Some_0@
            && widget.options == DiagramOptions::all_enabled() && widget.wf(),
{
    match slot {
        SlotView::Widget(widget) => {},
        SlotView::Skipped(_) => {
            let ids = CheckboxIdsView {
                hide_internal: Seq::empty(),
                keep_groups: Seq::empty(),
                foldcommontails: Seq::empty(),
                show_legend: Seq::empty(),
            };
            assert(slot == placement(block, ids, assets));
        },
    }
}

} // verus!
