//! From macro source text to diagram markup.
//!
//! Parsing, the tree transformations and the layout are the work of the
//! `macro_railroad` and `railroad` crates. This module fixes the order in
//! which they run and which of them the options switch on, and it is the only
//! place that calls them. What each call returns is given a name; the
//! contracts of the verified functions are stated over those names.

use vstd::prelude::*;
use vstd::string::*;
use crate::error::{Error, ErrorView};
use crate::options::DiagramOptions;

verus! {

/// The parser's tree of a `macro_rules!` block, token by token.
#[verifier::external_type_specification]
#[verifier::external_body]
pub struct ExParsedRules(macro_railroad::parser::MacroRules);

/// The coarser tree on which the transformations work.
#[verifier::external_type_specification]
#[verifier::external_body]
pub struct ExMacroTree(macro_railroad::lowering::MacroRules);

/// A laid-out diagram, ready to be measured and serialised.
///
/// Holds a `railroad::Diagram` whose root is a boxed `railroad::Node`; the
/// boxed trait object keeps the type from being declared to the verifier
/// directly, so it travels inside this opaque struct.
#[verifier::external_body]
pub struct Diagram {
    inner: railroad::Diagram<Box<dyn railroad::Node>>,
}

/// What `macro_railroad::parser::parse` returns for the given source text:
/// the parser's tree, or the message of the parser's error.
pub uninterp spec fn parsed(src: Seq<char>) -> Result<macro_railroad::parser::MacroRules, Seq<char>>;

/// What converting the parser's tree into a `lowering::MacroRules` gives.
pub uninterp spec fn lowered(rules: macro_railroad::parser::MacroRules) -> macro_railroad::lowering::MacroRules;

/// The tree after `MacroRules::remove_internal`.
pub uninterp spec fn without_internal(tree: macro_railroad::lowering::MacroRules) -> macro_railroad::lowering::MacroRules;

/// The tree after `MacroRules::ungroup`.
pub uninterp spec fn ungrouped(tree: macro_railroad::lowering::MacroRules) -> macro_railroad::lowering::MacroRules;

/// The tree after `MacroRules::foldcommontails`.
pub uninterp spec fn folded(tree: macro_railroad::lowering::MacroRules) -> macro_railroad::lowering::MacroRules;

/// The tree after `MacroRules::normalize`.
pub uninterp spec fn normalized(tree: macro_railroad::lowering::MacroRules) -> macro_railroad::lowering::MacroRules;

/// The macro's name as the tree records it.
pub uninterp spec fn name_of(tree: macro_railroad::lowering::MacroRules) -> Seq<char>;

/// What `macro_railroad::diagram::into_diagram` lays out for a tree.
pub uninterp spec fn diagram_of(tree: macro_railroad::lowering::MacroRules, legend: bool) -> Diagram;

/// The diagram after `macro_railroad::diagram::add_default_css` has added
/// the rules of the light theme.
pub uninterp spec fn styled(diagram: Diagram) -> Diagram;

/// The text a diagram formats to.
pub uninterp spec fn markup_of(diagram: Diagram) -> Seq<char>;

/// What `railroad::Node::width` returns for a diagram.
pub uninterp spec fn width_of(diagram: Diagram) -> i64;

/// What `railroad::Node::height` returns for a diagram.
pub uninterp spec fn height_of(diagram: Diagram) -> i64;

/// Calls `macro_railroad::parser::parse` and, where it fails, formats the
/// error to its message. The parser reads nothing but its argument, so its
/// result is named as a function of the source text.
#[verifier::external_body]
fn parse(src: &str) -> (result: Result<macro_railroad::parser::MacroRules, String>)
    ensures
        match result {
            Ok(rules) => parsed(src@) == Ok::<macro_railroad::parser::MacroRules, Seq<char>>(rules),
            Err(message) => parsed(src@) == Err::<macro_railroad::parser::MacroRules, Seq<char>>(
                message@,
            ),
        },
{
    match macro_railroad::parser::parse(src) {
        Ok(rules) => Ok(rules),
        Err(error) => Err(error.to_string()),
    }
}

/// Calls `From<parser::MacroRules>` of `lowering::MacroRules`, which maps the
/// parser's tree to the coarser one, rule by rule. The conversion counts on
/// what the parser guarantees of its trees (an optional repetition has no
/// separator), so it is asked only for trees the parser made.
#[verifier::external_body]
fn lower(rules: macro_railroad::parser::MacroRules) -> (tree: macro_railroad::lowering::MacroRules)
    requires
        is_parsed(rules),
    ensures
        tree == lowered(rules),
{
    macro_railroad::lowering::MacroRules::from(rules)
}

/// Calls `MacroRules::remove_internal`, which rewrites the tree in place from
/// the tree alone.
#[verifier::external_body]
fn remove_internal(tree: &mut macro_railroad::lowering::MacroRules)
    ensures
        *final(tree) == without_internal(*old(tree)),
{
    tree.remove_internal();
}

/// Calls `MacroRules::ungroup`, which rewrites the tree in place from the tree
/// alone.
#[verifier::external_body]
fn ungroup(tree: &mut macro_railroad::lowering::MacroRules)
    ensures
        *final(tree) == ungrouped(*old(tree)),
{
    tree.ungroup();
}

/// Calls `MacroRules::foldcommontails`, which rewrites the tree in place from
/// the tree alone.
#[verifier::external_body]
fn foldcommontails(tree: &mut macro_railroad::lowering::MacroRules)
    ensures
        *final(tree) == folded(*old(tree)),
{
    tree.foldcommontails();
}

/// Calls `MacroRules::normalize`, which rewrites the tree in place from the
/// tree alone.
#[verifier::external_body]
fn normalize(tree: &mut macro_railroad::lowering::MacroRules)
    ensures
        *final(tree) == normalized(*old(tree)),
{
    tree.normalize();
}

/// Reads the public field `name` of `lowering::MacroRules`.
#[verifier::external_body]
fn macro_name(tree: &macro_railroad::lowering::MacroRules) -> (name: String)
    ensures
        name@ == name_of(*tree),
{
    tree.name.clone()
}

/// Calls `macro_railroad::diagram::into_diagram`. The legend's entries are
/// sorted before they are laid out, so the diagram depends on the tree and
/// the flag alone. The layout divides by the number of columns of a choice,
/// which is zero for a choice without alternatives; `normalize` leaves no
/// such choice behind, so only normalized trees are laid out.
#[verifier::external_body]
fn into_diagram(tree: macro_railroad::lowering::MacroRules, legend: bool) -> (diagram: Diagram)
    requires
        is_normalized(tree),
    ensures
        diagram == diagram_of(tree, legend),
{
    Diagram { inner: macro_railroad::diagram::into_diagram(tree, legend) }
}

/// Calls `macro_railroad::diagram::add_default_css` for the light theme,
/// which adds one `<style>` element with that theme's rules to the diagram.
#[verifier::external_body]
fn add_default_css(diagram: &mut Diagram)
    ensures
        *final(diagram) == styled(*old(diagram)),
{
    macro_railroad::diagram::add_default_css(&mut diagram.inner, &railroad::Stylesheet::Light);
}

/// Formats the diagram through its `Display` impl, which writes attributes
/// in sorted order and so gives one text per diagram.
#[verifier::external_body]
fn serialize(diagram: &Diagram) -> (markup: String)
    ensures
        markup@ == markup_of(*diagram),
{
    diagram.inner.to_string()
}

/// Calls `railroad::Node::width` on the diagram.
#[verifier::external_body]
fn width(diagram: &Diagram) -> (w: i64)
    ensures
        w == width_of(*diagram),
{
    railroad::Node::width(&diagram.inner)
}

/// Calls `railroad::Node::height` on the diagram.
#[verifier::external_body]
fn height(diagram: &Diagram) -> (h: i64)
    ensures
        h == height_of(*diagram),
{
    railroad::Node::height(&diagram.inner)
}

/// Whether the parser made this tree, of whatever source text.
pub open spec fn is_parsed(rules: macro_railroad::parser::MacroRules) -> bool {
    exists|src: Seq<char>|
        #[trigger] parsed(src) == Ok::<macro_railroad::parser::MacroRules, Seq<char>>(rules)
}

/// Whether the tree is what normalizing some tree gives.
pub open spec fn is_normalized(tree: macro_railroad::lowering::MacroRules) -> bool {
    exists|raw: macro_railroad::lowering::MacroRules| tree == #[trigger] normalized(raw)
}

/// The tree after the transformations that the options switch on, before it
/// is normalized: internal rules go first, then groups, then common tails.
pub open spec fn prepared(
    tree: macro_railroad::lowering::MacroRules,
    options: DiagramOptions,
) -> macro_railroad::lowering::MacroRules {
    let visible = if options.hide_internal {
        without_internal(tree)
    } else {
        tree
    };
    let flat = if options.keep_groups {
        visible
    } else {
        ungrouped(visible)
    };
    if options.foldcommontails {
        folded(flat)
    } else {
        flat
    }
}

/// The tree as it is handed to the layout: prepared, then normalized.
pub open spec fn shaped(
    tree: macro_railroad::lowering::MacroRules,
    options: DiagramOptions,
) -> macro_railroad::lowering::MacroRules {
    normalized(prepared(tree, options))
}

/// The text without its last character if that is a line feed.
pub open spec fn without_trailing_newline(text: Seq<char>) -> Seq<char> {
    if text.len() > 0 && text.last() == '\n' {
        text.drop_last()
    } else {
        text
    }
}

/// One rendered diagram.
#[derive(Debug)]
pub struct Rendering {
    /// The macro's name.
    pub name: String,
    /// Preferred width in pixels.
    pub width: i64,
    /// Preferred height in pixels.
    pub height: i64,
    /// The diagram as SVG markup, without a trailing line feed.
    pub svg: String,
}

/// The mathematical content of a [`Rendering`].
pub struct RenderingView {
    pub name: Seq<char>,
    pub width: i64,
    pub height: i64,
    pub svg: Seq<char>,
}

impl View for Rendering {
    type V = RenderingView;

    open spec fn view(&self) -> RenderingView {
        RenderingView { name: self.name@, width: self.width, height: self.height, svg: self.svg@ }
    }
}

/// The rendering of a tree that has come out of the parser.
pub open spec fn rendering_of_tree(
    tree: macro_railroad::lowering::MacroRules,
    options: DiagramOptions,
) -> RenderingView {
    let shaped_tree = shaped(tree, options);
    let diagram = styled(diagram_of(shaped_tree, options.show_legend));
    RenderingView {
        name: name_of(shaped_tree),
        width: width_of(diagram),
        height: height_of(diagram),
        svg: without_trailing_newline(markup_of(diagram)),
    }
}

/// What the pipeline yields for a source text under given options: the
/// parser's message, or the rendering of the parsed tree.
pub open spec fn rendering_of(src: Seq<char>, options: DiagramOptions) -> Result<
    RenderingView,
    Seq<char>,
> {
    match parsed(src) {
        Ok(rules) => Ok(rendering_of_tree(lowered(rules), options)),
        Err(message) => Err(message),
    }
}

/// Applies the transformations that the options switch on, in their fixed
/// order, and normalizes the tree whatever the options say.
pub fn shape(tree: &mut macro_railroad::lowering::MacroRules, options: &DiagramOptions)
    ensures
        *final(tree) == shaped(*old(tree), *options),
        is_normalized(*final(tree)),
{
    if options.hide_internal {
        remove_internal(tree);
    }
    if !options.keep_groups {
        ungroup(tree);
    }
    if options.foldcommontails {
        foldcommontails(tree);
    }
    normalize(tree);
}

/// Drops the line feed that ends the text, if there is one.
pub fn strip_trailing_newline(text: String) -> (stripped: String)
    ensures
        stripped@ == without_trailing_newline(text@),
{
    let length = text.as_str().unicode_len();
    if length > 0 && text.as_str().get_char(length - 1) == '\n' {
        let stripped = String::from_str(text.as_str().substring_char(0, length - 1));
        assert(stripped@ =~= text@.drop_last());
        stripped
    } else {
        text
    }
}

/// Packs what the layout reported into a [`Rendering`], trimming the markup.
pub fn finish(name: String, width: i64, height: i64, markup: String) -> (rendering: Rendering)
    ensures
        rendering@ == (RenderingView {
            name: name@,
            width,
            height,
            svg: without_trailing_newline(markup@),
        }),
{
    Rendering { name, width, height, svg: strip_trailing_newline(markup) }
}

/// Lays out a parsed tree under the given options and serialises the result.
pub fn render_tree(tree: macro_railroad::lowering::MacroRules, options: &DiagramOptions) -> (rendering:
    Rendering)
    ensures
        rendering@ == rendering_of_tree(tree, *options),
{
    let mut tree = tree;
    shape(&mut tree, options);
    let name = macro_name(&tree);
    let mut diagram = into_diagram(tree, options.show_legend);
    add_default_css(&mut diagram);
    let markup = serialize(&diagram);
    finish(name, width(&diagram), height(&diagram), markup)
}

/// Runs the whole pipeline on a source text.
///
/// Fails exactly when the parser rejects the text, with the parser's message
/// in [`Error::SynParsing`].
pub fn render(src: &str, options: &DiagramOptions) -> (result: Result<Rendering, Error>)
    ensures
        match rendering_of(src@, *options) {
            Ok(view) => result is Ok && result->Ok_0@ == view,
            Err(message) => result is Err && result->Err_0@ == ErrorView::SynParsing(message),
        },
{
    match parse(src) {
        Ok(rules) => Ok(render_tree(lower(rules), options)),
        Err(message) => Err(Error::SynParsing(message)),
    }
}

/// Parses the given `macro_rules!` source and returns the diagram's preferred
/// width together with its SVG markup.
pub fn to_diagram(src: &str, options: &DiagramOptions) -> (result: Result<(i64, String), Error>)
    ensures
        match rendering_of(src@, *options) {
            Ok(view) => result is Ok && result->Ok_0.0 == view.width && result->Ok_0.1@
                == view.svg,
            Err(message) => result is Err && result->Err_0@ == ErrorView::SynParsing(message),
        },
{
    match render(src, options) {
        Ok(rendering) => Ok((rendering.width, rendering.svg)),
        Err(error) => Err(error),
    }
}

/// The outcome of the pipeline as a plain tagged value, for hosts that call
/// the pipeline themselves.
#[derive(Debug)]
pub enum Export {
    Success { name: String, width: i64, height: i64, svg: String },
    Failure { message: String },
}

/// The mathematical content of an [`Export`].
pub enum ExportView {
    Success { name: Seq<char>, width: i64, height: i64, svg: Seq<char> },
    Failure { message: Seq<char> },
}

impl View for Export {
    type V = ExportView;

    open spec fn view(&self) -> ExportView {
        match self {
            Export::Success { name, width, height, svg } => ExportView::Success {
                name: name@,
                width: *width,
                height: *height,
                svg: svg@,
            },
            Export::Failure { message } => ExportView::Failure { message: message@ },
        }
    }
}

/// The tagged value that stands for a pipeline outcome.
pub open spec fn exported(outcome: Result<RenderingView, Seq<char>>) -> ExportView {
    match outcome {
        Ok(view) => ExportView::Success {
            name: view.name,
            width: view.width,
            height: view.height,
            svg: view.svg,
        },
        Err(message) => ExportView::Failure { message },
    }
}

/// Renders `src` under four plain flags and reports the outcome as a tagged
/// value: the macro's name, the diagram's size and its markup, or the
/// parser's message.
pub fn export(
    src: &str,
    hide_internal: bool,
    keep_groups: bool,
    foldcommontails: bool,
    show_legend: bool,
) -> (export: Export)
    ensures
        export@ == exported(
            rendering_of(
                src@,
                DiagramOptions { hide_internal, keep_groups, foldcommontails, show_legend },
            ),
        ),
{
    let options = DiagramOptions { hide_internal, keep_groups, foldcommontails, show_legend };
    match parse(src) {
        Ok(rules) => {
            let rendering = render_tree(lower(rules), &options);
            Export::Success {
                name: rendering.name,
                width: rendering.width,
                height: rendering.height,
                svg: rendering.svg,
            }
        },
        Err(message) => Export::Failure { message },
    }
}

/// The tree handed to the layout is normalized under every choice of
/// options. With the three transformations switched off it is the
/// normalized input itself, and the markup is then the markup of that
/// normalized tree, drawn with or without legend as the fourth switch says.
pub proof fn lemma_normalize_always_applied(
    tree: macro_railroad::lowering::MacroRules,
    options: DiagramOptions,
)
    ensures
        shaped(tree, options) == normalized(prepared(tree, options)),
        is_normalized(shaped(tree, options)),
        !options.hide_internal && options.keep_groups && !options.foldcommontails ==> {
            &&& shaped(tree, options) == normalized(tree)
            &&& rendering_of_tree(tree, options).svg == without_trailing_newline(
                markup_of(styled(diagram_of(normalized(tree), options.show_legend))),
            )
        },
{
}

/// The legend switch plays no part in shaping the tree: options that agree
/// on the other three switches hand the same tree to the layout.
pub proof fn lemma_shape_ignores_legend(
    tree: macro_railroad::lowering::MacroRules,
    options: DiagramOptions,
    legend: bool,
)
    ensures
        shaped(tree, DiagramOptions { show_legend: legend, ..options }) == shaped(tree, options),
{
}

} // verus!
