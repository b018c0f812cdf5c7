//! The event processor's decisions: what a hotkey event leads to.
use vstd::prelude::*;

use crate::domain::Config;
use crate::matcher::HotkeyEvent;
use crate::parser::{config_to_flat, flatten};
use crate::queue::Wake;
use crate::store::{FlatStorage, FlatView, StoredMacro};

verus! {

/// What the processor does about one hotkey event.
#[derive(Debug)]
pub enum ProcessorAction {
    /// Push this macro to the macro queue.
    Run(StoredMacro),
    /// The triggered macro is no longer in the configuration; nothing runs.
    MissingMacro(u64),
    /// Store `selected` as the active profile, then notify the front end that
    /// profile `requested` was asked for.
    SelectProfile { requested: u64, selected: Option<u64> },
}

/// The profile that a switch to `id` selects: that profile if it exists, else none.
pub open spec fn selected_for(f: FlatView, id: u64) -> Option<u64> {
    if f.profiles.contains_key(id) {
        Some(f.profiles[id].id)
    } else {
        None
    }
}

/// Whether `r` is what the processor does about `ev`: a triggered macro that the
/// snapshot holds is pushed, a missing one is reported, and a profile switch
/// selects the profile if it exists.
pub open spec fn handled(f: FlatView, ev: HotkeyEvent, r: ProcessorAction) -> bool {
    match ev {
        HotkeyEvent::ComboTriggered(id) => if f.macros.contains_key(id) {
            r matches ProcessorAction::Run(m) && m@ == f.macros[id]
        } else {
            r == ProcessorAction::MissingMacro(id)
        },
        HotkeyEvent::ProfileSwitch(id) => r == (ProcessorAction::SelectProfile {
            requested: id,
            selected: selected_for(f, id),
        }),
    }
}

/// What a hotkey event leads to, given the configuration snapshot.
pub fn handle_event(cfg: &FlatStorage, ev: HotkeyEvent) -> (r: ProcessorAction)
    ensures
        handled(cfg@, ev, r),
{
    match ev {
        HotkeyEvent::ComboTriggered(id) => match cfg.find_macro(&id) {
            Some(m) => ProcessorAction::Run(m.duplicate()),
            None => ProcessorAction::MissingMacro(id),
        },
        HotkeyEvent::ProfileSwitch(id) => {
            let selected = match cfg.find_profile(&id) {
                Some(p) => Some(p.id),
                None => None,
            };
            ProcessorAction::SelectProfile { requested: id, selected }
        },
    }
}

/// Applies a profile switch to the stored configuration.
pub fn handle_profile_switch(store: &mut FlatStorage, selected: Option<u64>)
    ensures
        final(store)@ == (FlatView { selected_profile_id: selected, ..old(store)@ }),
{
    store.selected_profile_id = selected;
}

/// The event processor's loop state.
#[derive(Debug)]
pub struct EventProcessor {
    running: bool,
}

impl View for EventProcessor {
    type V = bool;

    closed spec fn view(&self) -> bool {
        self.running
    }
}

impl EventProcessor {
    /// A processor that handles events.
    pub fn new() -> (r: EventProcessor)
        ensures
            r@,
    {
        EventProcessor { running: true }
    }

    /// Whether the processor still handles events.
    pub fn is_running(&self) -> (r: bool)
        ensures
            r == self@,
    {
        self.running
    }

    /// Decides on one wake-up: while running, each hotkey event is handled against
    /// the snapshot; a closed channel or a shutdown stops the loop for good.
    pub fn process_events(&mut self, cfg: &FlatStorage, wake: Wake<HotkeyEvent>) -> (r: Option<
        ProcessorAction,
    >)
        ensures
            match wake {
                Wake::Message(ev) => {
                    &&& final(self)@ == old(self)@
                    &&& old(self)@ ==> (r matches Some(a) && handled(cfg@, ev, a))
                    &&& !old(self)@ ==> r is None
                },
                _ => !final(self)@ && r is None,
            },
    {
        match wake {
            Wake::Message(ev) => {
                if self.running {
                    Some(handle_event(cfg, ev))
                } else {
                    None
                }
            },
            _ => {
                self.running = false;
                None
            },
        }
    }
}

/// Replaces the in-memory snapshot after the backing file changed. A document that
/// could not be read or parsed (`None`) leaves the last good snapshot in place.
pub fn reload(store: &mut FlatStorage, loaded: Option<&Config>) -> (r: bool)
    ensures
        r == loaded is Some,
        match loaded {
            Some(c) => final(store)@ == flatten(c@),
            None => final(store)@ == old(store)@,
        },
{
    match loaded {
        Some(c) => {
            *store = config_to_flat(c);
            true
        },
        None => false,
    }
}

} // verus!
