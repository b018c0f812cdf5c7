//! The flat configuration store: profiles, macros and steps in tables keyed by id.
use vstd::prelude::*;

use ahash::AHashMap;

use crate::domain::{ComboView, KeyCombination, SequenceStep};

verus! {

#[verifier::external_type_specification]
#[verifier::external_body]
#[verifier::reject_recursive_types(K)]
#[verifier::reject_recursive_types(V)]
#[verifier::reject_recursive_types(S)]
pub struct ExAHashMap<K, V, S>(AHashMap<K, V, S>);

#[verifier::external_type_specification]
#[verifier::external_body]
pub struct ExRandomState(ahash::RandomState);

/// Relies on `AHashMap`'s derived `Clone`, which the store's own `Clone` calls;
/// nothing is claimed of the copy.
pub assume_specification<K: Clone, V: Clone, S: Clone>[ <AHashMap<K, V, S> as Clone>::clone ](
    m: &AHashMap<K, V, S>,
) -> AHashMap<K, V, S>;

/// A profile as stored: its macros by id.
#[derive(Clone, Debug)]
pub struct StoredProfile {
    pub id: u64,
    pub name: String,
    pub function_key: Option<String>,
    pub macro_ids: Vec<u64>,
}

pub struct StoredProfileView {
    pub id: u64,
    pub name: Seq<char>,
    pub function_key: Option<Seq<char>>,
    pub macro_ids: Seq<u64>,
}

impl View for StoredProfile {
    type V = StoredProfileView;

    open spec fn view(&self) -> StoredProfileView {
        StoredProfileView {
            id: self.id,
            name: self.name@,
            function_key: crate::domain::opt_str_view(self.function_key),
            macro_ids: self.macro_ids@,
        }
    }
}

/// A macro as stored: its steps by id.
#[derive(Clone, Debug)]
pub struct StoredMacro {
    pub id: u64,
    pub name: String,
    pub trigger: KeyCombination,
    pub sequence_step_ids: Vec<u64>,
}

pub struct StoredMacroView {
    pub id: u64,
    pub name: Seq<char>,
    pub trigger: ComboView,
    pub sequence_step_ids: Seq<u64>,
}

impl View for StoredMacro {
    type V = StoredMacroView;

    open spec fn view(&self) -> StoredMacroView {
        StoredMacroView {
            id: self.id,
            name: self.name@,
            trigger: self.trigger@,
            sequence_step_ids: self.sequence_step_ids@,
        }
    }
}

/// A table of stored profiles by id.
pub type ProfileTable = AHashMap<u64, StoredProfile>;

/// A table of stored macros by id.
pub type MacroTable = AHashMap<u64, StoredMacro>;

/// A table of steps by id.
pub type StepTable = AHashMap<u64, SequenceStep>;

/// What a profile table holds.
pub uninterp spec fn profile_table(m: ProfileTable) -> Map<u64, StoredProfile>;

/// What a macro table holds.
pub uninterp spec fn macro_table(m: MacroTable) -> Map<u64, StoredMacro>;

/// What a step table holds.
pub uninterp spec fn step_table(m: StepTable) -> Map<u64, SequenceStep>;

/// Relies on `AHashMap::new`: a new map is empty.
#[verifier::external_body]
pub(crate) fn new_profile_table() -> (r: ProfileTable)
    ensures
        profile_table(r).dom().is_empty(),
{
    AHashMap::new()
}

/// Relies on `AHashMap::new`: a new map is empty.
#[verifier::external_body]
pub(crate) fn new_macro_table() -> (r: MacroTable)
    ensures
        macro_table(r).dom().is_empty(),
{
    AHashMap::new()
}

/// Relies on `AHashMap::new`: a new map is empty.
#[verifier::external_body]
pub(crate) fn new_step_table() -> (r: StepTable)
    ensures
        step_table(r).dom().is_empty(),
{
    AHashMap::new()
}

/// Relies on `AHashMap::insert`: the key maps to the new value, the others are kept.
#[verifier::external_body]
pub(crate) fn insert_profile(m: &mut ProfileTable, k: u64, v: StoredProfile)
    ensures
        profile_table(*final(m)) == profile_table(*old(m)).insert(k, v),
{
    m.insert(k, v);
}

/// Relies on `AHashMap::insert`: the key maps to the new value, the others are kept.
#[verifier::external_body]
pub(crate) fn insert_macro(m: &mut MacroTable, k: u64, v: StoredMacro)
    ensures
        macro_table(*final(m)) == macro_table(*old(m)).insert(k, v),
{
    m.insert(k, v);
}

/// Relies on `AHashMap::insert`: the key maps to the new value, the others are kept.
#[verifier::external_body]
pub(crate) fn insert_step(m: &mut StepTable, k: u64, v: SequenceStep)
    ensures
        step_table(*final(m)) == step_table(*old(m)).insert(k, v),
{
    m.insert(k, v);
}

/// Whether `r` is what a lookup of `k` in `m` gives.
pub open spec fn found<V>(r: Option<&V>, m: Map<u64, V>, k: u64) -> bool {
    match r {
        Some(v) => m.contains_key(k) && *v == m[k],
        None => !m.contains_key(k),
    }
}

/// Relies on `AHashMap::get`: the value under the key, if there is one.
#[verifier::external_body]
pub(crate) fn get_profile(m: &ProfileTable, k: u64) -> (r: Option<&StoredProfile>)
    ensures
        found(r, profile_table(*m), k),
{
    m.get(&k)
}

/// Relies on `AHashMap::get`: the value under the key, if there is one.
#[verifier::external_body]
pub(crate) fn get_macro(m: &MacroTable, k: u64) -> (r: Option<&StoredMacro>)
    ensures
        found(r, macro_table(*m), k),
{
    m.get(&k)
}

/// Relies on `AHashMap::get`: the value under the key, if there is one.
#[verifier::external_body]
pub(crate) fn get_step(m: &StepTable, k: u64) -> (r: Option<&SequenceStep>)
    ensures
        found(r, step_table(*m), k),
{
    m.get(&k)
}

/// Relies on `HashMap::keys` (through `AHashMap`'s `Deref`): every key once, in an
/// order that the map's random hasher decides.
#[verifier::external_body]
pub(crate) fn profile_ids(m: &ProfileTable) -> (r: Vec<u64>)
    ensures
        r@.no_duplicates(),
        r@.to_set() == profile_table(*m).dom(),
{
    m.keys().copied().collect()
}

/// The configuration in flat form: tables keyed by id, and the selected profile.
#[derive(Clone, Debug)]
pub struct FlatStorage {
    pub profiles: ProfileTable,
    pub macros: MacroTable,
    pub steps: StepTable,
    pub selected_profile_id: Option<u64>,
}

pub struct FlatView {
    pub profiles: Map<u64, StoredProfileView>,
    pub macros: Map<u64, StoredMacroView>,
    pub steps: Map<u64, SequenceStep>,
    pub selected_profile_id: Option<u64>,
}

impl View for FlatStorage {
    type V = FlatView;

    open spec fn view(&self) -> FlatView {
        FlatView {
            profiles: profile_table(self.profiles).map_values(|p: StoredProfile| p@),
            macros: macro_table(self.macros).map_values(|m: StoredMacro| m@),
            steps: step_table(self.steps),
            selected_profile_id: self.selected_profile_id,
        }
    }
}

/// The stored profile that is active: the selected one, if it exists.
pub open spec fn active_profile_id(f: FlatView) -> Option<u64> {
    match f.selected_profile_id {
        Some(id) => if f.profiles.contains_key(id) {
            Some(id)
        } else {
            None
        },
        None => None,
    }
}

pub(crate) fn copy_ids(v: &Vec<u64>) -> (r: Vec<u64>)
    ensures
        r@ == v@,
{
    let mut r: Vec<u64> = Vec::new();
    let mut i: usize = 0;
    while i < v.len()
        invariant
            i <= v@.len(),
            r@ == v@.take(i as int),
        decreases v@.len() - i,
    {
        r.push(v[i]);
        i = i + 1;
        assert(r@ =~= v@.take(i as int));
    }
    assert(v@.take(v@.len() as int) =~= v@);
    r
}

impl StoredMacro {
    /// A copy of the macro, with the same view.
    pub fn duplicate(&self) -> (r: StoredMacro)
        ensures
            r@ == self@,
    {
        StoredMacro {
            id: self.id,
            name: self.name.clone(),
            trigger: self.trigger.duplicate(),
            sequence_step_ids: copy_ids(&self.sequence_step_ids),
        }
    }
}

impl FlatStorage {
    /// Selects the profile `id`, whether or not it exists.
    pub fn change_active_profile(&mut self, id: u64)
        ensures
            final(self)@ == (FlatView { selected_profile_id: Some(id), ..old(self)@ }),
    {
        self.selected_profile_id = Some(id);
    }


    /// An empty store with no profile selected.
    pub fn new() -> (r: FlatStorage)
        ensures
            r@.profiles.dom().is_empty(),
            r@.macros.dom().is_empty(),
            r@.steps.dom().is_empty(),
            r@.selected_profile_id is None,
    {
        let r = FlatStorage {
            profiles: new_profile_table(),
            macros: new_macro_table(),
            steps: new_step_table(),
            selected_profile_id: None,
        };
        assert(r@.profiles =~= Map::<u64, StoredProfileView>::empty());
        assert(r@.macros =~= Map::<u64, StoredMacroView>::empty());
        assert(r@.steps =~= Map::<u64, SequenceStep>::empty());
        r
    }

    /// The selected profile, if one is selected and it exists.
    pub fn get_active_profile(&self) -> (r: Option<&StoredProfile>)
        ensures
            match active_profile_id(self@) {
                Some(id) => r is Some && found(r, profile_table(self.profiles), id),
                None => r is None,
            },
    {
        match self.selected_profile_id {
            Some(id) => get_profile(&self.profiles, id),
            None => None,
        }
    }

    /// The macro stored under `id`.
    pub fn find_macro(&self, id: &u64) -> (r: Option<&StoredMacro>)
        ensures
            found(r, macro_table(self.macros), *id),
    {
        get_macro(&self.macros, *id)
    }

    /// The profile stored under `id`.
    pub fn find_profile(&self, id: &u64) -> (r: Option<&StoredProfile>)
        ensures
            found(r, profile_table(self.profiles), *id),
    {
        get_profile(&self.profiles, *id)
    }
}

} // verus!
