//! The configuration store's operations, as the front end invokes them.
use vstd::prelude::*;

use crate::domain::Config;
use crate::parser::{config_to_flat, flat_to_config, flatten, is_profile_order, materialize};
use crate::processor::{handle_profile_switch, reload};
use crate::store::{FlatStorage, FlatView};

verus! {

/// Owns the flat configuration; readers take snapshots, writers replace it whole.
#[derive(Debug)]
pub struct ConfigService {
    store: FlatStorage,
}

impl View for ConfigService {
    type V = FlatView;

    closed spec fn view(&self) -> FlatView {
        self.store@
    }
}

impl ConfigService {
    /// A service over the given store.
    pub fn new(store: FlatStorage) -> (r: ConfigService)
        ensures
            r@ == store@,
    {
        ConfigService { store }
    }

    /// The current snapshot.
    pub fn get_config(&self) -> (r: &FlatStorage)
        ensures
            r@ == self@,
    {
        &self.store
    }

    /// The configuration in nested form, for the front end.
    pub fn load_config(&self) -> (r: Config)
        ensures
            exists|order: Seq<u64>| is_profile_order(self@, order) && r@ == materialize(self@, order),
    {
        let r = flat_to_config(&self.store);
        assert(self@ == self.store@);
        r
    }

    /// Replaces the whole configuration with `config`.
    pub fn save_changes(&mut self, config: &Config)
        ensures
            final(self)@ == flatten(config@),
    {
        self.store = config_to_flat(config);
    }

    /// Replaces the whole store, as a reload from disk does.
    pub fn replace(&mut self, store: FlatStorage)
        ensures
            final(self)@ == store@,
    {
        self.store = store;
    }

    /// Stores `selected` as the active profile, as a profile switch does.
    pub fn select_profile(&mut self, selected: Option<u64>)
        ensures
            final(self)@ == (FlatView { selected_profile_id: selected, ..old(self)@ }),
    {
        handle_profile_switch(&mut self.store, selected);
    }

    /// Takes in a configuration read back from disk; `None` (unreadable or invalid)
    /// keeps the current snapshot.
    pub fn reload(&mut self, loaded: Option<&Config>) -> (r: bool)
        ensures
            r == loaded is Some,
            match loaded {
                Some(c) => final(self)@ == flatten(c@),
                None => final(self)@ == old(self)@,
            },
    {
        reload(&mut self.store, loaded)
    }

    /// Selects the profile `id`.
    pub fn change_active_profile(&mut self, id: u64)
        ensures
            final(self)@ == (FlatView { selected_profile_id: Some(id), ..old(self)@ }),
    {
        self.store.change_active_profile(id);
    }

    /// The position in `config`'s profile list of the selected profile: the first
    /// profile whose id is the selected id, if there is one.
    pub fn get_active_profile_idx(&self, config: &Config) -> (r: Option<usize>)
        ensures
            match r {
                Some(i) => {
                    &&& self@.selected_profile_id == Some(config.profiles@[i as int].id)
                    &&& i < config.profiles@.len()
                    &&& forall|j: int|
                        0 <= j < i ==> self@.selected_profile_id != Some(config.profiles@[j].id)
                },
                None => forall|j: int|
                    0 <= j < config.profiles@.len() ==> self@.selected_profile_id != Some(
                        config.profiles@[j].id,
                    ),
            },
    {
        let sel = match self.store.selected_profile_id {
            Some(s) => s,
            None => {
                return None;
            },
        };
        let mut i: usize = 0;
        while i < config.profiles.len()
            invariant
                self@.selected_profile_id == Some(sel),
                i <= config.profiles@.len(),
                forall|j: int| 0 <= j < i ==> sel != config.profiles@[j].id,
            decreases config.profiles@.len() - i,
        {
            if config.profiles[i].id == sel {
                return Some(i);
            }
            i = i + 1;
        }
        None
    }
}

} // verus!
