use macro_railroad_ext::options::{DiagramOptions, OptionKey};

const KEYS: [OptionKey; 4] = [
    OptionKey::HideInternal,
    OptionKey::KeepGroups,
    OptionKey::FoldCommonTails,
    OptionKey::ShowLegend,
];

#[test]
fn default_options_are_all_enabled() {
    let options = DiagramOptions::default();
    assert!(options.hide_internal);
    assert!(options.keep_groups);
    assert!(options.foldcommontails);
    assert!(options.show_legend);
}

#[test]
fn get_reads_the_named_switch() {
    let options = DiagramOptions {
        hide_internal: true,
        keep_groups: false,
        foldcommontails: true,
        show_legend: false,
    };
    assert!(options.get(OptionKey::HideInternal));
    assert!(!options.get(OptionKey::KeepGroups));
    assert!(options.get(OptionKey::FoldCommonTails));
    assert!(!options.get(OptionKey::ShowLegend));
}

#[test]
fn set_changes_only_the_named_switch() {
    for &key in KEYS.iter() {
        for &start in [true, false].iter() {
            for &value in [true, false].iter() {
                let before = DiagramOptions {
                    hide_internal: start,
                    keep_groups: !start,
                    foldcommontails: start,
                    show_legend: !start,
                };
                let mut after = before;
                after.set(key, value);
                for &other in KEYS.iter() {
                    if other == key {
                        assert_eq!(after.get(other), value);
                    } else {
                        assert_eq!(after.get(other), before.get(other));
                    }
                }
            }
        }
    }
}

#[test]
fn setting_a_switch_twice_is_setting_it_once() {
    for &key in KEYS.iter() {
        let mut once = DiagramOptions::default();
        once.set(key, false);
        let mut twice = DiagramOptions::default();
        twice.set(key, true);
        twice.set(key, false);
        assert_eq!(once, twice);
    }
}

#[test]
fn option_labels_read_as_in_the_menu() {
    assert_eq!(OptionKey::HideInternal.label(), "Hide macro-internal rules");
    assert_eq!(OptionKey::KeepGroups.label(), "Keep groups bound");
    assert_eq!(OptionKey::FoldCommonTails.label(), "Fold common sections");
    assert_eq!(OptionKey::ShowLegend.label(), "Generate legend");
}

#[test]
fn from_position_walks_the_menu_top_to_bottom() {
    for (position, &key) in KEYS.iter().enumerate() {
        assert_eq!(OptionKey::from_position(position), key);
    }
    assert_eq!(OptionKey::from_position(4), OptionKey::ShowLegend);
    assert_eq!(OptionKey::from_position(usize::MAX), OptionKey::ShowLegend);
}
