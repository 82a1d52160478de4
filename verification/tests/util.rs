use macro_railroad_ext::error::{Error, ErrorKind};
use macro_railroad_ext::util::{
    bool_str, decimal, id_with_suffix, is_checked, random_id, version_info, Asset, Assets,
    Deployment, HostValue, Lookups,
};

fn packaged(options: HostValue, fullscreen: HostValue, css: HostValue) -> Deployment {
    Deployment::Packaged(Lookups { options, fullscreen, css })
}

fn text(value: &str) -> HostValue {
    HostValue::String(value.to_string())
}

#[test]
fn standalone_urls_are_relative_paths() {
    let mode = Deployment::Standalone;
    assert_eq!(Asset::Options.url(&mode), Ok("options.svg".to_string()));
    assert_eq!(Asset::Fullscreen.url(&mode), Ok("fullscreen.svg".to_string()));
    assert_eq!(Asset::CSS.url(&mode), Ok("macro_railroad_ext.css".to_string()));
}

#[test]
fn bundle_paths_live_under_assets() {
    assert_eq!(Asset::Options.bundle_path(), "assets/options.svg");
    assert_eq!(Asset::Fullscreen.bundle_path(), "assets/fullscreen.svg");
    assert_eq!(Asset::CSS.bundle_path(), "assets/macro_railroad_ext.css");
}

#[test]
fn packaged_urls_are_the_runtime_answers() {
    let mode = packaged(
        text("chrome-extension://abc/assets/options.svg"),
        text("chrome-extension://abc/assets/fullscreen.svg"),
        text("chrome-extension://abc/assets/macro_railroad_ext.css"),
    );
    assert_eq!(
        Asset::Options.url(&mode),
        Ok("chrome-extension://abc/assets/options.svg".to_string())
    );
    assert_eq!(
        Asset::Fullscreen.url(&mode),
        Ok("chrome-extension://abc/assets/fullscreen.svg".to_string())
    );
    assert_eq!(
        Asset::CSS.url(&mode),
        Ok("chrome-extension://abc/assets/macro_railroad_ext.css".to_string())
    );
}

#[test]
fn packaged_answer_that_is_no_string_is_refused() {
    let answers = [
        HostValue::Undefined,
        HostValue::Null,
        HostValue::Bool(true),
        HostValue::Number,
        HostValue::Symbol,
        HostValue::Reference,
    ];
    for answer in answers.iter() {
        let mode = packaged(text("a"), answer.clone(), text("c"));
        assert_eq!(Asset::Options.url(&mode), Ok("a".to_string()));
        assert_eq!(Asset::Fullscreen.url(&mode), Err(Error::UnexpectedType));
        assert_eq!(Asset::CSS.url(&mode), Ok("c".to_string()));
    }
}

#[test]
fn assets_resolve_only_as_a_whole() {
    let fine = packaged(text("o"), text("f"), text("c"));
    let assets = Assets::resolve(&fine).unwrap();
    assert_eq!(assets.options_icon, "o");
    assert_eq!(assets.fullscreen_icon, "f");
    assert_eq!(assets.stylesheet, "c");

    let standalone = Assets::resolve(&Deployment::Standalone).unwrap();
    assert_eq!(standalone.options_icon, "options.svg");
    assert_eq!(standalone.fullscreen_icon, "fullscreen.svg");
    assert_eq!(standalone.stylesheet, "macro_railroad_ext.css");

    let no_css = packaged(text("o"), text("f"), HostValue::Null);
    assert_eq!(Assets::resolve(&no_css).err(), Some(Error::UnexpectedType));
    let no_options = packaged(HostValue::Number, text("f"), text("c"));
    assert_eq!(Assets::resolve(&no_options).err(), Some(Error::UnexpectedType));
    let no_fullscreen = packaged(text("o"), HostValue::Bool(false), text("c"));
    assert_eq!(Assets::resolve(&no_fullscreen).err(), Some(Error::UnexpectedType));
}

#[test]
fn only_the_boolean_true_counts_as_checked() {
    assert!(is_checked(&HostValue::Bool(true)));
    assert!(!is_checked(&HostValue::Bool(false)));
    assert!(!is_checked(&HostValue::Undefined));
    assert!(!is_checked(&HostValue::Null));
    assert!(!is_checked(&HostValue::Number));
    assert!(!is_checked(&HostValue::Symbol));
    assert!(!is_checked(&HostValue::Reference));
    assert!(!is_checked(&text("true")));
}

#[test]
fn version_info_joins_time_compiler_and_dependencies() {
    assert_eq!(
        version_info("Mon, 01 Jan 2024 00:00:00 GMT", "rustc 1.75.0", "syn 2.0"),
        "macro_railroad_ext built Mon, 01 Jan 2024 00:00:00 GMT on rustc 1.75.0 using syn 2.0"
    );
    assert_eq!(version_info("", "", ""), "macro_railroad_ext built  on  using ");
}

#[test]
fn id_with_suffix_puts_the_prefix_first() {
    assert_eq!(id_with_suffix("abc12345"), "railroad_abc12345");
    assert_eq!(id_with_suffix(""), "railroad_");
}

#[test]
fn random_id_is_the_prefix_and_eight_alphanumerics() {
    for _ in 0..200 {
        let id = random_id();
        assert!(id.starts_with("railroad_"));
        assert_eq!(id.chars().count(), 17);
        assert!(id.chars().skip(9).all(|c| c.is_ascii_alphanumeric()));
    }
}

#[test]
fn random_ids_differ() {
    let ids: Vec<String> = (0..50).map(|_| random_id()).collect();
    let first = &ids[0];
    assert!(ids.iter().any(|id| id != first));
}

#[test]
fn decimal_writes_integers_in_base_ten() {
    assert_eq!(decimal(0), "0");
    assert_eq!(decimal(7), "7");
    assert_eq!(decimal(10), "10");
    assert_eq!(decimal(109), "109");
    assert_eq!(decimal(12345), "12345");
    assert_eq!(decimal(-1), "-1");
    assert_eq!(decimal(-340), "-340");
    assert_eq!(decimal(i64::MAX), "9223372036854775807");
    assert_eq!(decimal(i64::MIN), "-9223372036854775808");
    for value in -1200i64..1200 {
        assert_eq!(decimal(value), value.to_string());
    }
}

#[test]
fn bool_str_spells_truth_values() {
    assert_eq!(bool_str(true), "true");
    assert_eq!(bool_str(false), "false");
}

#[test]
fn error_kinds_follow_the_taxonomy() {
    assert_eq!(Error::SynParsing("x".to_string()).kind(), ErrorKind::Parse);
    assert_eq!(Error::Syntax("x".to_string()).kind(), ErrorKind::Dom);
    assert_eq!(Error::InvalidCharacter("x".to_string()).kind(), ErrorKind::Dom);
    assert_eq!(Error::ReplaceChild("x".to_string()).kind(), ErrorKind::Dom);
    assert_eq!(Error::NodeNotFound.kind(), ErrorKind::StructuralInvariant);
    assert_eq!(Error::UnexpectedType.kind(), ErrorKind::AssetResolution);
}
