//! Conversion between the nested configuration and the flat store.
use vstd::prelude::*;

use crate::domain::{
    id_of_step, step_id, Config, ConfigView, Macro, MacroView, Profile, ProfileView, SequenceStep,
};
use crate::store::{
    get_macro, get_step, insert_macro, insert_profile, insert_step, macro_table, new_macro_table,
    new_profile_table, new_step_table, profile_ids, profile_table, step_table, FlatStorage,
    FlatView, StepTable, StoredMacro, StoredMacroView, StoredProfile, StoredProfileView,
};

verus! {

/// The steps of a sequence entered into a table in order; a later step with the
/// same id replaces an earlier one.
pub open spec fn enter_steps(acc: Map<u64, SequenceStep>, s: Seq<SequenceStep>) -> Map<
    u64,
    SequenceStep,
>
    decreases s.len(),
{
    if s.len() == 0 {
        acc
    } else {
        enter_steps(acc, s.drop_last()).insert(id_of_step(s.last()), s.last())
    }
}

/// The steps of every macro of `ms`, entered in order.
pub open spec fn enter_macro_steps(acc: Map<u64, SequenceStep>, ms: Seq<MacroView>) -> Map<
    u64,
    SequenceStep,
>
    decreases ms.len(),
{
    if ms.len() == 0 {
        acc
    } else {
        enter_steps(enter_macro_steps(acc, ms.drop_last()), ms.last().sequence)
    }
}

/// The step table of a nested configuration.
pub open spec fn flat_steps(ps: Seq<ProfileView>) -> Map<u64, SequenceStep>
    decreases ps.len(),
{
    if ps.len() == 0 {
        Map::empty()
    } else {
        enter_macro_steps(flat_steps(ps.drop_last()), ps.last().macros)
    }
}

/// A macro in stored form: its steps replaced by their ids.
pub open spec fn stored_macro_view(m: MacroView) -> StoredMacroView {
    StoredMacroView {
        id: m.id,
        name: m.name,
        trigger: m.trigger,
        sequence_step_ids: m.sequence.map_values(|s: SequenceStep| id_of_step(s)),
    }
}

/// The macros of `ms` entered in order, by id.
pub open spec fn enter_macros(acc: Map<u64, StoredMacroView>, ms: Seq<MacroView>) -> Map<
    u64,
    StoredMacroView,
>
    decreases ms.len(),
{
    if ms.len() == 0 {
        acc
    } else {
        enter_macros(acc, ms.drop_last()).insert(ms.last().id, stored_macro_view(ms.last()))
    }
}

/// The macro table of a nested configuration.
pub open spec fn flat_macros(ps: Seq<ProfileView>) -> Map<u64, StoredMacroView>
    decreases ps.len(),
{
    if ps.len() == 0 {
        Map::empty()
    } else {
        enter_macros(flat_macros(ps.drop_last()), ps.last().macros)
    }
}

/// A profile in stored form: its macros replaced by their ids.
pub open spec fn stored_profile_view(p: ProfileView) -> StoredProfileView {
    StoredProfileView {
        id: p.id,
        name: p.name,
        function_key: p.function_key,
        macro_ids: p.macros.map_values(|m: MacroView| m.id),
    }
}

/// The profile table of a nested configuration.
pub open spec fn flat_profiles(ps: Seq<ProfileView>) -> Map<u64, StoredProfileView>
    decreases ps.len(),
{
    if ps.len() == 0 {
        Map::empty()
    } else {
        flat_profiles(ps.drop_last()).insert(ps.last().id, stored_profile_view(ps.last()))
    }
}

/// The flat form of a nested configuration.
pub open spec fn flatten(c: ConfigView) -> FlatView {
    FlatView {
        profiles: flat_profiles(c.profiles),
        macros: flat_macros(c.profiles),
        steps: flat_steps(c.profiles),
        selected_profile_id: c.selected_profile_id,
    }
}

/// The steps that `ids` name, in order, skipping ids that the table lacks.
pub open spec fn resolve_steps(steps: Map<u64, SequenceStep>, ids: Seq<u64>) -> Seq<SequenceStep>
    decreases ids.len(),
{
    if ids.len() == 0 {
        Seq::empty()
    } else {
        let rest = resolve_steps(steps, ids.drop_last());
        if steps.contains_key(ids.last()) {
            rest.push(steps[ids.last()])
        } else {
            rest
        }
    }
}

/// A stored macro with its steps looked up.
pub open spec fn macro_of_stored(f: FlatView, m: StoredMacroView) -> MacroView {
    MacroView {
        id: m.id,
        name: m.name,
        trigger: m.trigger,
        sequence: resolve_steps(f.steps, m.sequence_step_ids),
    }
}

/// The macros that `ids` name, in order, skipping ids that the table lacks.
pub open spec fn resolve_macros(f: FlatView, ids: Seq<u64>) -> Seq<MacroView>
    decreases ids.len(),
{
    if ids.len() == 0 {
        Seq::empty()
    } else {
        let rest = resolve_macros(f, ids.drop_last());
        if f.macros.contains_key(ids.last()) {
            rest.push(macro_of_stored(f, f.macros[ids.last()]))
        } else {
            rest
        }
    }
}

/// A stored profile with its macros looked up.
pub open spec fn profile_of_stored(f: FlatView, p: StoredProfileView) -> ProfileView {
    ProfileView {
        id: p.id,
        name: p.name,
        function_key: p.function_key,
        macros: resolve_macros(f, p.macro_ids),
    }
}

/// The profiles that `ids` name, in order, skipping ids that the table lacks.
pub open spec fn resolve_profiles(f: FlatView, ids: Seq<u64>) -> Seq<ProfileView>
    decreases ids.len(),
{
    if ids.len() == 0 {
        Seq::empty()
    } else {
        let rest = resolve_profiles(f, ids.drop_last());
        if f.profiles.contains_key(ids.last()) {
            rest.push(profile_of_stored(f, f.profiles[ids.last()]))
        } else {
            rest
        }
    }
}

/// The nested form of a flat store, its profiles taken in the order `order`.
pub open spec fn materialize(f: FlatView, order: Seq<u64>) -> ConfigView {
    ConfigView { profiles: resolve_profiles(f, order), selected_profile_id: f.selected_profile_id }
}

/// Whether `order` lists each profile id of `f` once.
pub open spec fn is_profile_order(f: FlatView, order: Seq<u64>) -> bool {
    order.no_duplicates() && order.to_set() == f.profiles.dom()
}

/// The steps that `ids` name in the table, in order; ids that it lacks are skipped.
pub fn resolve_sequence(steps: &StepTable, ids: &Vec<u64>) -> (r: Vec<SequenceStep>)
    ensures
        r@ == resolve_steps(step_table(*steps), ids@),
{
    let mut r: Vec<SequenceStep> = Vec::new();
    let mut i: usize = 0;
    while i < ids.len()
        invariant
            i <= ids@.len(),
            r@ == resolve_steps(step_table(*steps), ids@.take(i as int)),
        decreases ids@.len() - i,
    {
        assert(ids@.take(i + 1).drop_last() =~= ids@.take(i as int));
        if let Some(s) = get_step(steps, ids[i]) {
            r.push(s.duplicate());
        }
        i = i + 1;
    }
    assert(ids@.take(ids@.len() as int) =~= ids@);
    r
}

fn macro_from_stored(storage: &FlatStorage, m: &StoredMacro) -> (r: Macro)
    ensures
        r@ == macro_of_stored(storage@, m@),
{
    Macro {
        id: m.id,
        name: m.name.clone(),
        trigger: m.trigger.duplicate(),
        sequence: resolve_sequence(&storage.steps, &m.sequence_step_ids),
    }
}

fn profile_from_stored(storage: &FlatStorage, p: &StoredProfile) -> (r: Profile)
    ensures
        r@ == profile_of_stored(storage@, p@),
{
    let ghost f = storage@;
    let mut macros: Vec<Macro> = Vec::new();
    let mut i: usize = 0;
    while i < p.macro_ids.len()
        invariant
            f == storage@,
            i <= p.macro_ids@.len(),
            macros@.map_values(|m: Macro| m@) == resolve_macros(f, p.macro_ids@.take(i as int)),
        decreases p.macro_ids@.len() - i,
    {
        let ghost before = macros@;
        assert(p.macro_ids@.take(i + 1).drop_last() =~= p.macro_ids@.take(i as int));
        if let Some(m) = get_macro(&storage.macros, p.macro_ids[i]) {
            let mm = macro_from_stored(storage, m);
            macros.push(mm);
            assert(macros@.map_values(|m: Macro| m@) =~= before.map_values(|m: Macro| m@).push(
                mm@,
            ));
        }
        i = i + 1;
    }
    assert(p.macro_ids@.take(p.macro_ids@.len() as int) =~= p.macro_ids@);
    let function_key = match &p.function_key {
        Some(k) => Some(k.clone()),
        None => None,
    };
    Profile { id: p.id, name: p.name.clone(), function_key, macros }
}

/// The flat form of a nested configuration: every profile, macro and step in a
/// table keyed by its id. Where ids repeat, the later entry wins.
pub fn config_to_flat(config: &Config) -> (r: FlatStorage)
    ensures
        r@ == flatten(config@),
{
    let ghost ps = config@.profiles;
    let mut profiles = new_profile_table();
    let mut macros = new_macro_table();
    let mut steps = new_step_table();
    assert(profile_table(profiles).map_values(|p: StoredProfile| p@) =~= flat_profiles(
        ps.take(0),
    ));
    assert(macro_table(macros).map_values(|m: StoredMacro| m@) =~= flat_macros(ps.take(0)));
    assert(step_table(steps) =~= flat_steps(ps.take(0)));
    let mut i: usize = 0;
    while i < config.profiles.len()
        invariant
            ps == config@.profiles,
            i <= ps.len(),
            profile_table(profiles).map_values(|p: StoredProfile| p@) == flat_profiles(
                ps.take(i as int),
            ),
            macro_table(macros).map_values(|m: StoredMacro| m@) == flat_macros(ps.take(i as int)),
            step_table(steps) == flat_steps(ps.take(i as int)),
        decreases ps.len() - i,
    {
        let profile = &config.profiles[i];
        let ghost ms = profile@.macros;
        let ghost steps0 = flat_steps(ps.take(i as int));
        let ghost macros0 = flat_macros(ps.take(i as int));
        assert(ps[i as int] == profile@);
        assert(ps.take(i + 1).drop_last() =~= ps.take(i as int));
        let mut macro_ids: Vec<u64> = Vec::new();
        let mut j: usize = 0;
        assert(ms.take(0) =~= Seq::<MacroView>::empty());
        assert(macro_ids@ =~= ms.take(0).map_values(|m: MacroView| m.id));
        while j < profile.macros.len()
            invariant
                ms == profile@.macros,
                j <= ms.len(),
                step_table(steps) == enter_macro_steps(steps0, ms.take(j as int)),
                macro_table(macros).map_values(|m: StoredMacro| m@) == enter_macros(
                    macros0,
                    ms.take(j as int),
                ),
                macro_ids@ == ms.take(j as int).map_values(|m: MacroView| m.id),
            decreases ms.len() - j,
        {
            let mac = &profile.macros[j];
            let ghost sq = mac.sequence@;
            let ghost entered = enter_macro_steps(steps0, ms.take(j as int));
            assert(ms[j as int] == mac@);
            assert(ms.take(j + 1).drop_last() =~= ms.take(j as int));
            let mut step_ids: Vec<u64> = Vec::new();
            let mut k: usize = 0;
            assert(sq.take(0) =~= Seq::<SequenceStep>::empty());
            assert(step_ids@ =~= sq.take(0).map_values(|s: SequenceStep| id_of_step(s)));
            while k < mac.sequence.len()
                invariant
                    sq == mac.sequence@,
                    k <= sq.len(),
                    step_table(steps) == enter_steps(entered, sq.take(k as int)),
                    step_ids@ == sq.take(k as int).map_values(|s: SequenceStep| id_of_step(s)),
                decreases sq.len() - k,
            {
                let step = &mac.sequence[k];
                let id = step_id(step);
                assert(sq.take(k + 1).drop_last() =~= sq.take(k as int));
                insert_step(&mut steps, id, step.duplicate());
                step_ids.push(id);
                k = k + 1;
                assert(step_ids@ =~= sq.take(k as int).map_values(|s: SequenceStep| id_of_step(s)));
            }
            assert(sq.take(sq.len() as int) =~= sq);
            let ghost mt = macro_table(macros);
            let stored = StoredMacro {
                id: mac.id,
                name: mac.name.clone(),
                trigger: mac.trigger.duplicate(),
                sequence_step_ids: step_ids,
            };
            assert(stored@ == stored_macro_view(mac@));
            insert_macro(&mut macros, mac.id, stored);
            assert(macro_table(macros).map_values(|m: StoredMacro| m@) =~= mt.map_values(
                |m: StoredMacro| m@,
            ).insert(mac.id, stored@));
            macro_ids.push(mac.id);
            j = j + 1;
            assert(macro_ids@ =~= ms.take(j as int).map_values(|m: MacroView| m.id));
        }
        assert(ms.take(ms.len() as int) =~= ms);
        let ghost pt = profile_table(profiles);
        let function_key = match &profile.function_key {
            Some(k) => Some(k.clone()),
            None => None,
        };
        let stored = StoredProfile {
            id: profile.id,
            name: profile.name.clone(),
            function_key,
            macro_ids,
        };
        assert(stored@ == stored_profile_view(profile@));
        insert_profile(&mut profiles, profile.id, stored);
        assert(profile_table(profiles).map_values(|p: StoredProfile| p@) =~= pt.map_values(
            |p: StoredProfile| p@,
        ).insert(profile.id, stored@));
        i = i + 1;
    }
    assert(ps.take(ps.len() as int) =~= ps);
    let r = FlatStorage { profiles, macros, steps, selected_profile_id: config.selected_profile_id };
    r
}

/// The nested form of a flat store, its profiles in the order `order` (ids that
/// the store lacks are skipped).
pub fn flat_to_config_in_order(storage: &FlatStorage, order: &Vec<u64>) -> (r: Config)
    ensures
        r@ == materialize(storage@, order@),
{
    let ghost f = storage@;
    let mut profiles: Vec<Profile> = Vec::new();
    let mut i: usize = 0;
    while i < order.len()
        invariant
            f == storage@,
            i <= order@.len(),
            profiles@.map_values(|p: Profile| p@) == resolve_profiles(f, order@.take(i as int)),
        decreases order@.len() - i,
    {
        let ghost before = profiles@;
        assert(order@.take(i + 1).drop_last() =~= order@.take(i as int));
        if let Some(p) = crate::store::get_profile(&storage.profiles, order[i]) {
            let pp = profile_from_stored(storage, p);
            profiles.push(pp);
            assert(profiles@.map_values(|p: Profile| p@) =~= before.map_values(|p: Profile| p@).push(
                pp@,
            ));
        }
        i = i + 1;
    }
    assert(order@.take(order@.len() as int) =~= order@);
    Config { profiles, selected_profile_id: storage.selected_profile_id }
}

/// The nested form of a flat store. Its profiles come in the order in which the
/// profile table is walked, which the table's hasher decides.
pub fn flat_to_config(storage: &FlatStorage) -> (r: Config)
    ensures
        exists|order: Seq<u64>|
            is_profile_order(storage@, order) && r@ == materialize(storage@, order),
{
    let order = profile_ids(&storage.profiles);
    let r = flat_to_config_in_order(storage, &order);
    assert(storage@.profiles.dom() =~= profile_table(storage.profiles).dom());
    assert(is_profile_order(storage@, order@));
    r
}

} // verus!
