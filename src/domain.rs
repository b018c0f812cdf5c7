//! The nested configuration: profiles own macros, macros own their steps.
use vstd::prelude::*;

use crate::keys::ModifierKey;

verus! {

/// A base key plus the modifiers that must be held with it.
#[derive(Clone, Debug, Default, PartialEq, Eq, Hash)]
pub struct KeyCombination {
    pub modifiers: Vec<ModifierKey>,
    pub key: String,
}

/// The mathematical value of a key combination.
pub struct ComboView {
    pub modifiers: Seq<ModifierKey>,
    pub key: Seq<char>,
}

impl View for KeyCombination {
    type V = ComboView;

    open spec fn view(&self) -> ComboView {
        ComboView { modifiers: self.modifiers@, key: self.key@ }
    }
}

/// One step of a macro, with the stable id under which flat storage keeps it.
#[derive(Clone, Debug)]
pub enum SequenceStep {
    KeyDown { id: u64, key: String },
    KeyUp { id: u64, key: String },
    Delay { id: u64, ms: u64 },
}

/// The id of a step, whatever its kind.
pub open spec fn id_of_step(s: SequenceStep) -> u64 {
    match s {
        SequenceStep::KeyDown { id, .. } => id,
        SequenceStep::KeyUp { id, .. } => id,
        SequenceStep::Delay { id, .. } => id,
    }
}

/// A macro as the editor sees it: its trigger and its steps in order.
#[derive(Clone, Debug)]
pub struct Macro {
    pub id: u64,
    pub name: String,
    pub trigger: KeyCombination,
    pub sequence: Vec<SequenceStep>,
}

pub struct MacroView {
    pub id: u64,
    pub name: Seq<char>,
    pub trigger: ComboView,
    pub sequence: Seq<SequenceStep>,
}

impl View for Macro {
    type V = MacroView;

    open spec fn view(&self) -> MacroView {
        MacroView {
            id: self.id,
            name: self.name@,
            trigger: self.trigger@,
            sequence: self.sequence@,
        }
    }
}

/// A named group of macros, with an optional key that makes it the active one.
#[derive(Clone, Debug)]
pub struct Profile {
    pub id: u64,
    pub name: String,
    pub function_key: Option<String>,
    pub macros: Vec<Macro>,
}

pub struct ProfileView {
    pub id: u64,
    pub name: Seq<char>,
    pub function_key: Option<Seq<char>>,
    pub macros: Seq<MacroView>,
}

/// The view of an optional string.
pub open spec fn opt_str_view(s: Option<String>) -> Option<Seq<char>> {
    match s {
        Some(t) => Some(t@),
        None => None,
    }
}

impl View for Profile {
    type V = ProfileView;

    open spec fn view(&self) -> ProfileView {
        ProfileView {
            id: self.id,
            name: self.name@,
            function_key: opt_str_view(self.function_key),
            macros: self.macros@.map_values(|m: Macro| m@),
        }
    }
}

/// The whole configuration in nested form.
#[derive(Clone, Debug, Default)]
pub struct Config {
    pub profiles: Vec<Profile>,
    pub selected_profile_id: Option<u64>,
}

pub struct ConfigView {
    pub profiles: Seq<ProfileView>,
    pub selected_profile_id: Option<u64>,
}

impl View for Config {
    type V = ConfigView;

    open spec fn view(&self) -> ConfigView {
        ConfigView {
            profiles: self.profiles@.map_values(|p: Profile| p@),
            selected_profile_id: self.selected_profile_id,
        }
    }
}

/// The channels on which the engine notifies the front end.
#[derive(Clone, Copy, Debug, PartialEq, Eq, Hash, Structural)]
pub enum ListenableChannel {
    SelectedProfileChanged,
    SequenceStep,
}

impl ListenableChannel {
    pub open spec fn spec_name(self) -> Seq<char> {
        match self {
            ListenableChannel::SelectedProfileChanged => "selected-profile-changed"@,
            ListenableChannel::SequenceStep => "sequence-step"@,
        }
    }

    /// The event name under which the front end listens.
    pub fn name(&self) -> (r: &'static str)
        ensures
            r@ == self.spec_name(),
    {
        match self {
            ListenableChannel::SelectedProfileChanged => "selected-profile-changed",
            ListenableChannel::SequenceStep => "sequence-step",
        }
    }
}

/// The id of a step, whatever its kind.
pub fn step_id(step: &SequenceStep) -> (r: u64)
    ensures
        r == id_of_step(*step),
{
    match step {
        SequenceStep::KeyDown { id, .. } => *id,
        SequenceStep::KeyUp { id, .. } => *id,
        SequenceStep::Delay { id, .. } => *id,
    }
}

impl SequenceStep {
    /// A copy of the step, equal to it.
    pub fn duplicate(&self) -> (r: SequenceStep)
        ensures
            r == *self,
    {
        match self {
            SequenceStep::KeyDown { id, key } => SequenceStep::KeyDown { id: *id, key: key.clone() },
            SequenceStep::KeyUp { id, key } => SequenceStep::KeyUp { id: *id, key: key.clone() },
            SequenceStep::Delay { id, ms } => SequenceStep::Delay { id: *id, ms: *ms },
        }
    }
}

impl KeyCombination {
    /// A copy of the combination, with the same view.
    pub fn duplicate(&self) -> (r: KeyCombination)
        ensures
            r@ == self@,
    {
        let mut modifiers: Vec<ModifierKey> = Vec::new();
        let mut i: usize = 0;
        while i < self.modifiers.len()
            invariant
                i <= self.modifiers@.len(),
                modifiers@ == self.modifiers@.take(i as int),
            decreases self.modifiers@.len() - i,
        {
            modifiers.push(self.modifiers[i]);
            i = i + 1;
            assert(modifiers@ =~= self.modifiers@.take(i as int));
        }
        assert(modifiers@ =~= self.modifiers@);
        KeyCombination { modifiers, key: self.key.clone() }
    }
}

} // verus!
