//! The per-widget rendering switches.

use vstd::prelude::*;

verus! {

/// Names one of the four switches of [`DiagramOptions`].
#[derive(Clone, Copy, Debug, PartialEq, Eq, Structural)]
pub enum OptionKey {
    HideInternal,
    KeepGroups,
    FoldCommonTails,
    ShowLegend,
}

/// Four independent switches that shape a rendered diagram.
///
/// Every widget owns exactly one value of this type.
#[derive(Clone, Copy, Debug, PartialEq, Eq, Structural)]
pub struct DiagramOptions {
    /// Leave out the rules that only serve the macro's own implementation.
    pub hide_internal: bool,
    /// Keep explicit groups as boxes instead of flattening them.
    pub keep_groups: bool,
    /// Merge alternatives that end in the same sequence.
    pub foldcommontails: bool,
    /// Draw the key of non-terminal symbols below the diagram.
    pub show_legend: bool,
}

impl Default for DiagramOptions {
    /// Every switch starts out enabled.
    fn default() -> (o: Self)
        ensures
            o == DiagramOptions::all_enabled(),
    {
        DiagramOptions {
            hide_internal: true,
            keep_groups: true,
            foldcommontails: true,
            show_legend: true,
        }
    }
}

impl OptionKey {
    /// Position of the switch in the options menu, top to bottom.
    pub open spec fn position(self) -> int {
        match self {
            OptionKey::HideInternal => 0,
            OptionKey::KeepGroups => 1,
            OptionKey::FoldCommonTails => 2,
            OptionKey::ShowLegend => 3,
        }
    }

    /// The switch shown at `position` in the options menu.
    pub open spec fn at(position: int) -> OptionKey {
        if position == 0 {
            OptionKey::HideInternal
        } else if position == 1 {
            OptionKey::KeepGroups
        } else if position == 2 {
            OptionKey::FoldCommonTails
        } else {
            OptionKey::ShowLegend
        }
    }

    /// The text shown next to the switch's checkbox.
    pub open spec fn label_text(self) -> Seq<char> {
        match self {
            OptionKey::HideInternal => "Hide macro-internal rules"@,
            OptionKey::KeepGroups => "Keep groups bound"@,
            OptionKey::FoldCommonTails => "Fold common sections"@,
            OptionKey::ShowLegend => "Generate legend"@,
        }
    }

    /// The text shown next to the switch's checkbox.
    pub fn label(&self) -> (text: &'static str)
        ensures
            text@ == self.label_text(),
    {
        match self {
            OptionKey::HideInternal => "Hide macro-internal rules",
            OptionKey::KeepGroups => "Keep groups bound",
            OptionKey::FoldCommonTails => "Fold common sections",
            OptionKey::ShowLegend => "Generate legend",
        }
    }

    /// The switch shown at `position` in the options menu; positions past the
    /// end name the last switch.
    pub fn from_position(position: usize) -> (key: OptionKey)
        ensures
            key == OptionKey::at(position as int),
            position < 4 ==> key.position() == position,
    {
        if position == 0 {
            OptionKey::HideInternal
        } else if position == 1 {
            OptionKey::KeepGroups
        } else if position == 2 {
            OptionKey::FoldCommonTails
        } else {
            OptionKey::ShowLegend
        }
    }
}

impl DiagramOptions {
    /// The value every widget starts with.
    pub open spec fn all_enabled() -> DiagramOptions {
        DiagramOptions {
            hide_internal: true,
            keep_groups: true,
            foldcommontails: true,
            show_legend: true,
        }
    }

    /// The state of one switch.
    pub open spec fn value_of(self, key: OptionKey) -> bool {
        match key {
            OptionKey::HideInternal => self.hide_internal,
            OptionKey::KeepGroups => self.keep_groups,
            OptionKey::FoldCommonTails => self.foldcommontails,
            OptionKey::ShowLegend => self.show_legend,
        }
    }

    /// These options with one switch set to `value`.
    pub open spec fn with(self, key: OptionKey, value: bool) -> DiagramOptions {
        match key {
            OptionKey::HideInternal => DiagramOptions { hide_internal: value, ..self },
            OptionKey::KeepGroups => DiagramOptions { keep_groups: value, ..self },
            OptionKey::FoldCommonTails => DiagramOptions { foldcommontails: value, ..self },
            OptionKey::ShowLegend => DiagramOptions { show_legend: value, ..self },
        }
    }

    /// Reads one switch.
    pub fn get(&self, key: OptionKey) -> (value: bool)
        ensures
            value == self.value_of(key),
    {
        match key {
            OptionKey::HideInternal => self.hide_internal,
            OptionKey::KeepGroups => self.keep_groups,
            OptionKey::FoldCommonTails => self.foldcommontails,
            OptionKey::ShowLegend => self.show_legend,
        }
    }

    /// Sets one switch and leaves the other three as they were.
    pub fn set(&mut self, key: OptionKey, value: bool)
        ensures
            *final(self) == old(self).with(key, value),
    {
        match key {
            OptionKey::HideInternal => {
                self.hide_internal = value;
            },
            OptionKey::KeepGroups => {
                self.keep_groups = value;
            },
            OptionKey::FoldCommonTails => {
                self.foldcommontails = value;
            },
            OptionKey::ShowLegend => {
                self.show_legend = value;
            },
        }
    }
}

/// Setting one switch changes that switch to the given value and no other
/// switch at all.
pub proof fn lemma_set_touches_one_switch(
    options: DiagramOptions,
    key: OptionKey,
    value: bool,
    other: OptionKey,
)
    ensures
        options.with(key, value).value_of(key) == value,
        other != key ==> options.with(key, value).value_of(other) == options.value_of(other),
{
}

/// Setting a switch to the value it already has changes nothing, and of two
/// writes to one switch only the later one counts.
pub proof fn lemma_set_is_idempotent(options: DiagramOptions, key: OptionKey, a: bool, b: bool)
    ensures
        options.with(key, options.value_of(key)) == options,
        options.with(key, a).with(key, b) == options.with(key, b),
{
}

} // verus!
