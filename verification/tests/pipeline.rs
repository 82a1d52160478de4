use macro_railroad_ext::error::Error;
use macro_railroad_ext::options::DiagramOptions;
use macro_railroad_ext::pipeline::{
    export, finish, render, render_tree, shape, strip_trailing_newline, to_diagram, Export,
};

const MINIMAL: &str = "macro_rules! m { () => {}; }";
const UNTERMINATED: &str = "macro_rules! m { () => {";
const WITH_FRAGMENT: &str = "macro_rules! m { ($x:expr) => {}; }";
const WITH_INTERNAL: &str = "macro_rules! m { ($x:expr) => {}; (@internal $y:ty) => {}; }";
const WITH_GROUP: &str = "macro_rules! m { (($x:expr)) => {}; }";
const WITH_COMMON_TAIL: &str = "macro_rules! m { (a b) => {}; (c b) => {}; }";
const LEGEND_GROUP: &str = "<g class=\" legend\">";

fn options(hide_internal: bool, keep_groups: bool, foldcommontails: bool, show_legend: bool) -> DiagramOptions {
    DiagramOptions { hide_internal, keep_groups, foldcommontails, show_legend }
}

fn every_choice() -> Vec<DiagramOptions> {
    let mut all = Vec::new();
    for bits in 0..16u8 {
        all.push(options(bits & 1 != 0, bits & 2 != 0, bits & 4 != 0, bits & 8 != 0));
    }
    all
}

fn lowered(src: &str) -> macro_railroad::lowering::MacroRules {
    macro_railroad::lowering::MacroRules::from(macro_railroad::parser::parse(src).unwrap())
}

#[test]
fn minimal_macro_renders_with_all_options_on() {
    let rendering = render(MINIMAL, &options(true, true, true, true)).unwrap();
    assert_eq!(rendering.name, "m");
    assert!(rendering.width >= 0);
    assert!(rendering.height >= 0);
    assert!(rendering.svg.starts_with("<svg"));
    assert!(rendering.svg.contains("legend"));
}

#[test]
fn unterminated_source_is_a_parse_error() {
    for choice in every_choice() {
        match render(UNTERMINATED, &choice) {
            Err(Error::SynParsing(message)) => assert!(!message.is_empty()),
            other => panic!("expected a parse error, got {:?}", other),
        }
        assert!(matches!(to_diagram(UNTERMINATED, &choice), Err(Error::SynParsing(_))));
    }
}

#[test]
fn parse_error_carries_the_parsers_message() {
    let expected = macro_railroad::parser::parse("fn main() {}").unwrap_err().to_string();
    assert_eq!(
        render("fn main() {}", &DiagramOptions::default()).err(),
        Some(Error::SynParsing(expected))
    );
}

#[test]
fn markup_has_no_trailing_line_feed() {
    for src in [MINIMAL, WITH_FRAGMENT, WITH_INTERNAL, WITH_GROUP, WITH_COMMON_TAIL].iter() {
        for choice in every_choice() {
            let rendering = render(src, &choice).unwrap();
            assert!(rendering.svg.ends_with("</svg>"));
        }
    }
}

#[test]
fn markup_is_the_diagram_without_its_last_line_feed() {
    let mut tree = lowered(WITH_FRAGMENT);
    tree.remove_internal();
    tree.foldcommontails();
    tree.normalize();
    let mut diagram = macro_railroad::diagram::into_diagram(tree, true);
    macro_railroad::diagram::add_default_css(&mut diagram, &railroad::Stylesheet::Light);
    let full = diagram.to_string();
    assert!(full.ends_with('\n'));
    let rendering = render(WITH_FRAGMENT, &DiagramOptions::default()).unwrap();
    assert_eq!(format!("{}\n", rendering.svg), full);
    assert_eq!(rendering.width, railroad::Node::width(&diagram));
    assert_eq!(rendering.height, railroad::Node::height(&diagram));
}

#[test]
fn legend_follows_its_switch() {
    let with = render(WITH_FRAGMENT, &options(true, true, true, true)).unwrap();
    let without = render(WITH_FRAGMENT, &options(true, true, true, false)).unwrap();
    assert!(with.svg.contains(LEGEND_GROUP));
    assert!(!without.svg.contains(LEGEND_GROUP));
    assert_ne!(with.svg, without.svg);
}

#[test]
fn internal_rules_follow_their_switch() {
    let hidden = render(WITH_INTERNAL, &options(true, true, false, false)).unwrap();
    let shown = render(WITH_INTERNAL, &options(false, true, false, false)).unwrap();
    assert!(hidden.svg.contains("Macro-internal rules omitted"));
    assert!(!shown.svg.contains("Macro-internal rules omitted"));
    assert!(shown.svg.contains("internal"));
}

#[test]
fn groups_follow_their_switch() {
    let kept = render(WITH_GROUP, &options(false, true, false, false)).unwrap();
    let flattened = render(WITH_GROUP, &options(false, false, false, false)).unwrap();
    assert_ne!(kept.svg, flattened.svg);
}

#[test]
fn common_tails_follow_their_switch() {
    let folded = render(WITH_COMMON_TAIL, &options(false, true, true, false)).unwrap();
    let unfolded = render(WITH_COMMON_TAIL, &options(false, true, false, false)).unwrap();
    assert_ne!(folded.svg, unfolded.svg);
}

#[test]
fn shape_runs_the_chosen_transformations_in_order() {
    for src in [MINIMAL, WITH_FRAGMENT, WITH_INTERNAL, WITH_GROUP, WITH_COMMON_TAIL].iter() {
        for choice in every_choice() {
            let mut expected = lowered(src);
            if choice.hide_internal {
                expected.remove_internal();
            }
            if !choice.keep_groups {
                expected.ungroup();
            }
            if choice.foldcommontails {
                expected.foldcommontails();
            }
            expected.normalize();

            let mut tree = lowered(src);
            shape(&mut tree, &choice);
            assert_eq!(tree, expected);
        }
    }
}

#[test]
fn shape_normalizes_even_with_every_transformation_off() {
    let untouched = lowered(WITH_FRAGMENT);
    let mut normalized = lowered(WITH_FRAGMENT);
    normalized.normalize();
    assert_ne!(untouched, normalized);

    for &legend in [true, false].iter() {
        let mut tree = lowered(WITH_FRAGMENT);
        shape(&mut tree, &options(false, true, false, legend));
        assert_eq!(tree, normalized);
    }
}

#[test]
fn shape_changes_what_each_transformation_changes() {
    let mut plain = lowered(WITH_INTERNAL);
    shape(&mut plain, &options(false, true, false, false));
    let mut hidden = lowered(WITH_INTERNAL);
    shape(&mut hidden, &options(true, true, false, false));
    assert_ne!(plain, hidden);

    let mut grouped = lowered(WITH_GROUP);
    shape(&mut grouped, &options(false, true, false, false));
    let mut flat = lowered(WITH_GROUP);
    shape(&mut flat, &options(false, false, false, false));
    assert_ne!(grouped, flat);

    let mut unfolded = lowered(WITH_COMMON_TAIL);
    shape(&mut unfolded, &options(false, true, false, false));
    let mut folded = lowered(WITH_COMMON_TAIL);
    shape(&mut folded, &options(false, true, true, false));
    assert_ne!(unfolded, folded);
}

#[test]
fn rendering_twice_gives_the_same_markup() {
    for src in [MINIMAL, WITH_FRAGMENT, WITH_INTERNAL, WITH_GROUP, WITH_COMMON_TAIL].iter() {
        for choice in every_choice() {
            let first = render(src, &choice).unwrap();
            let second = render(src, &choice).unwrap();
            assert_eq!(first.svg, second.svg);
            assert_eq!(first.width, second.width);
            assert_eq!(first.height, second.height);
            assert_eq!(first.name, second.name);
        }
    }
}

#[test]
fn size_is_the_size_in_the_view_box() {
    let rendering = render(WITH_FRAGMENT, &DiagramOptions::default()).unwrap();
    let view_box = format!("viewBox=\"0 0 {} {}\"", rendering.width, rendering.height);
    assert!(rendering.svg.contains(&view_box));
    assert!(rendering.width > 0);
    assert!(rendering.height > 0);
}

#[test]
fn markup_carries_the_diagram_rules() {
    let rendering = render(MINIMAL, &DiagramOptions::default()).unwrap();
    assert!(rendering.svg.contains("<style"));
    let rules = macro_railroad::diagram::Stylesheet::Light.stylesheet();
    let first_rule = rules.lines().next().unwrap();
    assert!(rendering.svg.contains(first_rule));
}

#[test]
fn name_is_the_name_of_the_macro() {
    let rendering = render("macro_rules! vec { ($x:expr) => {}; }", &DiagramOptions::default());
    assert_eq!(rendering.unwrap().name, "vec");
}

#[test]
fn render_tree_is_render_after_parsing() {
    for choice in every_choice() {
        let from_tree = render_tree(lowered(WITH_INTERNAL), &choice);
        let from_text = render(WITH_INTERNAL, &choice).unwrap();
        assert_eq!(from_tree.svg, from_text.svg);
        assert_eq!(from_tree.name, from_text.name);
        assert_eq!(from_tree.width, from_text.width);
        assert_eq!(from_tree.height, from_text.height);
    }
}

#[test]
fn to_diagram_is_width_and_markup_of_render() {
    for choice in every_choice() {
        let rendering = render(WITH_COMMON_TAIL, &choice).unwrap();
        let (width, svg) = to_diagram(WITH_COMMON_TAIL, &choice).unwrap();
        assert_eq!(width, rendering.width);
        assert_eq!(svg, rendering.svg);
    }
}

#[test]
fn export_reports_success_with_name_size_and_markup() {
    let rendering = render(WITH_FRAGMENT, &options(true, false, true, false)).unwrap();
    match export(WITH_FRAGMENT, true, false, true, false) {
        Export::Success { name, width, height, svg } => {
            assert_eq!(name, "m");
            assert_eq!(width, rendering.width);
            assert_eq!(height, rendering.height);
            assert_eq!(svg, rendering.svg);
        }
        Export::Failure { message } => panic!("unexpected failure: {}", message),
    }
}

#[test]
fn export_reports_failure_with_the_message() {
    let expected = macro_railroad::parser::parse(UNTERMINATED).unwrap_err().to_string();
    match export(UNTERMINATED, true, true, true, true) {
        Export::Failure { message } => assert_eq!(message, expected),
        Export::Success { .. } => panic!("malformed source must not render"),
    }
}

#[test]
fn strip_trailing_newline_drops_one_line_feed() {
    assert_eq!(strip_trailing_newline("<svg/>\n".to_string()), "<svg/>");
    assert_eq!(strip_trailing_newline("<svg/>".to_string()), "<svg/>");
    assert_eq!(strip_trailing_newline("<svg/>\n\n".to_string()), "<svg/>\n");
    assert_eq!(strip_trailing_newline("\n".to_string()), "");
    assert_eq!(strip_trailing_newline(String::new()), "");
    assert_eq!(strip_trailing_newline("a\nb".to_string()), "a\nb");
    assert_eq!(strip_trailing_newline("é\n".to_string()), "é");
    assert_eq!(strip_trailing_newline("\r\n".to_string()), "\r");
}

#[test]
fn finish_packs_and_trims() {
    let rendering = finish("m".to_string(), 120, 45, "<svg>\n</svg>\n".to_string());
    assert_eq!(rendering.name, "m");
    assert_eq!(rendering.width, 120);
    assert_eq!(rendering.height, 45);
    assert_eq!(rendering.svg, "<svg>\n</svg>");
}
