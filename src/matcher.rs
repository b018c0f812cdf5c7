//! Deciding, for each observed key press, whether it switches the profile or fires a macro.
use vstd::prelude::*;

use crate::keys::{resolve, str_to_key, Key, ModifierKey};
use crate::state::{combo_satisfied, is_combo_completed, InputEvent, KeyState};
use crate::store::{
    active_profile_id, get_macro, get_profile, profile_ids, profile_table,
    FlatStorage, FlatView, StoredProfileView,
};

verus! {

/// What the matcher reports to the event processor.
#[derive(Clone, Copy, Debug, PartialEq, Eq, Structural)]
pub enum HotkeyEvent {
    ComboTriggered(u64),
    ProfileSwitch(u64),
}

/// Whether pressing `key` switches to the profile `p`.
pub open spec fn switches_to(p: StoredProfileView, key: Key) -> bool {
    p.function_key is Some && resolve(p.function_key->0) == key
}

/// The first id in `order` whose profile switches on `key`.
pub open spec fn first_switch(f: FlatView, order: Seq<u64>, key: Key) -> Option<u64>
    decreases order.len(),
{
    if order.len() == 0 {
        None
    } else if f.profiles.contains_key(order[0]) && switches_to(f.profiles[order[0]], key) {
        Some(order[0])
    } else {
        first_switch(f, order.drop_first(), key)
    }
}

/// Whether the macro stored under `id` fires when `key` is pressed with `held` down.
pub open spec fn fires(f: FlatView, id: u64, held: Set<Key>, key: Key) -> bool {
    &&& f.macros.contains_key(id)
    &&& resolve(f.macros[id].trigger.key) == key
    &&& combo_satisfied(held, f.macros[id].trigger)
}

/// The number of modifiers of the macro stored under `id`.
pub open spec fn modifier_count(f: FlatView, id: u64) -> nat {
    f.macros[id].trigger.modifiers.len()
}

/// Whether position `i` of `ids` is the macro that wins: it fires, no firing macro
/// has more modifiers, and every firing macro before it has fewer.
pub open spec fn wins(f: FlatView, ids: Seq<u64>, held: Set<Key>, key: Key, i: int) -> bool {
    &&& 0 <= i < ids.len()
    &&& fires(f, ids[i], held, key)
    &&& forall|j: int|
        0 <= j < ids.len() && fires(f, ids[j], held, key) ==> modifier_count(f, ids[j])
            <= modifier_count(f, ids[i])
    &&& forall|j: int|
        0 <= j < i && fires(f, ids[j], held, key) ==> modifier_count(f, ids[j]) < modifier_count(
            f,
            ids[i],
        )
}

/// The winning position among `ids`, if any macro fires.
pub open spec fn macro_choice(f: FlatView, ids: Seq<u64>, held: Set<Key>, key: Key) -> Option<
    int,
> {
    if exists|i: int| wins(f, ids, held, key, i) {
        Some(choose|i: int| wins(f, ids, held, key, i))
    } else {
        None
    }
}

/// At most one position wins.
pub proof fn lemma_winner_unique(
    f: FlatView,
    ids: Seq<u64>,
    held: Set<Key>,
    key: Key,
    i: int,
    j: int,
)
    requires
        wins(f, ids, held, key, i),
        wins(f, ids, held, key, j),
    ensures
        i == j,
{
}

/// The position that a scan of the first `n` macros keeps: a firing macro replaces
/// the kept one only when it has strictly more modifiers; -1 while none fired.
pub open spec fn kept_upto(f: FlatView, ids: Seq<u64>, held: Set<Key>, key: Key, n: int) -> int
    decreases n,
{
    if n <= 0 {
        -1
    } else {
        let b = kept_upto(f, ids, held, key, n - 1);
        if fires(f, ids[n - 1], held, key) && (b < 0 || modifier_count(f, ids[n - 1])
            > modifier_count(f, ids[b])) {
            n - 1
        } else {
            b
        }
    }
}

proof fn lemma_kept_upto(f: FlatView, ids: Seq<u64>, held: Set<Key>, key: Key, n: int)
    requires
        0 <= n <= ids.len(),
    ensures
        ({
            let b = kept_upto(f, ids, held, key, n);
            &&& b < 0 ==> forall|j: int| 0 <= j < n ==> !fires(f, ids[j], held, key)
            &&& b >= 0 ==> {
                &&& b < n
                &&& fires(f, ids[b], held, key)
                &&& forall|j: int|
                    0 <= j < n && fires(f, ids[j], held, key) ==> modifier_count(f, ids[j])
                        <= modifier_count(f, ids[b])
                &&& forall|j: int|
                    0 <= j < b && fires(f, ids[j], held, key) ==> modifier_count(f, ids[j])
                        < modifier_count(f, ids[b])
            }
        }),
    decreases n,
{
    if n > 0 {
        lemma_kept_upto(f, ids, held, key, n - 1);
    }
}

/// Some macro wins whenever one fires.
pub proof fn lemma_winner_exists(f: FlatView, ids: Seq<u64>, held: Set<Key>, key: Key, i: int)
    requires
        0 <= i < ids.len(),
        fires(f, ids[i], held, key),
    ensures
        macro_choice(f, ids, held, key) is Some,
{
    lemma_kept_upto(f, ids, held, key, ids.len() as int);
    let b = kept_upto(f, ids, held, key, ids.len() as int);
    assert(wins(f, ids, held, key, b));
}

/// Of two macros of a profile that fire on the same press, the one whose modifiers
/// strictly include the other's is preferred: some macro wins, it has at least as
/// many modifiers as the more specific one, and the looser one does not win.
pub proof fn lemma_most_specific_first(
    f: FlatView,
    ids: Seq<u64>,
    held: Set<Key>,
    key: Key,
    i: int,
    j: int,
)
    requires
        0 <= i < ids.len(),
        0 <= j < ids.len(),
        fires(f, ids[i], held, key),
        fires(f, ids[j], held, key),
        f.macros[ids[i]].trigger.modifiers.no_duplicates(),
        f.macros[ids[j]].trigger.modifiers.no_duplicates(),
        f.macros[ids[j]].trigger.modifiers.to_set().subset_of(
            f.macros[ids[i]].trigger.modifiers.to_set(),
        ),
        f.macros[ids[j]].trigger.modifiers.to_set() != f.macros[ids[i]].trigger.modifiers.to_set(),
    ensures
        macro_choice(f, ids, held, key) matches Some(w) && w != j && modifier_count(f, ids[w])
            >= modifier_count(f, ids[i]),
{
    let mi = f.macros[ids[i]].trigger.modifiers;
    let mj = f.macros[ids[j]].trigger.modifiers;
    mi.unique_seq_to_set();
    mj.unique_seq_to_set();
    assert(exists|x: ModifierKey| mi.to_set().contains(x) && !mj.to_set().contains(x)) by {
        if forall|x: ModifierKey| mi.to_set().contains(x) ==> mj.to_set().contains(x) {
            assert(mi.to_set() =~= mj.to_set());
        }
    }
    let x = choose|x: ModifierKey| mi.to_set().contains(x) && !mj.to_set().contains(x);
    assert(mj.to_set().subset_of(mi.to_set().remove(x)));
    vstd::set_lib::lemma_len_subset(mj.to_set(), mi.to_set().remove(x));
    assert(modifier_count(f, ids[j]) < modifier_count(f, ids[i]));
    lemma_winner_exists(f, ids, held, key, i);
}

/// The event that a key event gives, the profiles being scanned in `order`:
/// a profile switch if some profile's activation key is the pressed key, else the
/// winning macro of the active profile, else nothing.
pub open spec fn hotkey_for(f: FlatView, order: Seq<u64>, held: Set<Key>, ev: InputEvent) -> Option<
    HotkeyEvent,
> {
    match ev {
        InputEvent::KeyPress(key) => match first_switch(f, order, key) {
            Some(pid) => Some(HotkeyEvent::ProfileSwitch(f.profiles[pid].id)),
            None => match active_profile_id(f) {
                Some(a) => {
                    let ids = f.profiles[a].macro_ids;
                    match macro_choice(f, ids, held, key) {
                        Some(i) => Some(HotkeyEvent::ComboTriggered(f.macros[ids[i]].id)),
                        None => None,
                    }
                },
                None => None,
            },
        },
        _ => None,
    }
}

proof fn lemma_switch_exists(f: FlatView, order: Seq<u64>, key: Key)
    ensures
        first_switch(f, order, key) matches Some(pid) ==> f.profiles.contains_key(pid),
    decreases order.len(),
{
    if order.len() > 0 {
        lemma_switch_exists(f, order.drop_first(), key);
    }
}

fn find_switch(cfg: &FlatStorage, order: &Vec<u64>, key: Key) -> (r: Option<u64>)
    ensures
        r == first_switch(cfg@, order@, key),
{
    let ghost f = cfg@;
    let mut i: usize = 0;
    assert(order@.subrange(0, order@.len() as int) =~= order@);
    while i < order.len()
        invariant
            f == cfg@,
            i <= order@.len(),
            first_switch(f, order@, key) == first_switch(f, order@.subrange(i as int, order@.len() as int), key),
        decreases order@.len() - i,
    {
        let ghost rest = order@.subrange(i as int, order@.len() as int);
        assert(rest.drop_first() =~= order@.subrange(i + 1, order@.len() as int));
        assert(rest[0] == order@[i as int]);
        if let Some(p) = get_profile(&cfg.profiles, order[i]) {
            assert(f.profiles[order@[i as int]] == p@);
            if let Some(fk) = &p.function_key {
                if str_to_key(fk) == key {
                    return Some(order[i]);
                }
            }
        }
        i = i + 1;
    }
    None
}

fn find_macro_match(cfg: &FlatStorage, ids: &Vec<u64>, st: &KeyState, key: Key) -> (r: Option<usize>)
    ensures
        match r {
            Some(i) => macro_choice(cfg@, ids@, st@, key) == Some(i as int),
            None => macro_choice(cfg@, ids@, st@, key) is None,
        },
{
    let ghost f = cfg@;
    let ghost held = st@;
    let mut best: Option<usize> = None;
    let mut best_count: usize = 0;
    let mut i: usize = 0;
    while i < ids.len()
        invariant
            f == cfg@,
            held == st@,
            i <= ids@.len(),
            match best {
                Some(b) => {
                    &&& b < i
                    &&& fires(f, ids@[b as int], held, key)
                    &&& best_count == modifier_count(f, ids@[b as int])
                    &&& forall|j: int|
                        0 <= j < i && fires(f, ids@[j], held, key) ==> modifier_count(f, ids@[j])
                            <= best_count
                    &&& forall|j: int|
                        0 <= j < b && fires(f, ids@[j], held, key) ==> modifier_count(f, ids@[j])
                            < best_count
                },
                None => forall|j: int| 0 <= j < i ==> !fires(f, ids@[j], held, key),
            },
        decreases ids@.len() - i,
    {
        if let Some(m) = get_macro(&cfg.macros, ids[i]) {
            assert(f.macros[ids@[i as int]] == m@);
            if str_to_key(&m.trigger.key) == key && is_combo_completed(st, &m.trigger) {
                let n = m.trigger.modifiers.len();
                match best {
                    Some(_) => {
                        if n > best_count {
                            best = Some(i);
                            best_count = n;
                        }
                    },
                    None => {
                        best = Some(i);
                        best_count = n;
                    },
                }
            }
        }
        i = i + 1;
    }
    match best {
        Some(b) => {
            assert(wins(f, ids@, held, key, b as int));
            proof {
                let c = choose|k: int| wins(f, ids@, held, key, k);
                lemma_winner_unique(f, ids@, held, key, c, b as int);
            }
        },
        None => {
            assert(!exists|k: int| wins(f, ids@, held, key, k));
        },
    }
    best
}

/// The event, if any, that a key event gives with the profiles scanned in `order`.
pub fn process_event_in_order(cfg: &FlatStorage, order: &Vec<u64>, st: &KeyState, ev: &InputEvent) -> (r: Option<HotkeyEvent>)
    ensures
        r == hotkey_for(cfg@, order@, st@, *ev),
{
    let key = match ev {
        InputEvent::KeyPress(k) => *k,
        _ => {
            return None;
        },
    };
    if let Some(pid) = find_switch(cfg, order, key) {
        proof {
            lemma_switch_exists(cfg@, order@, key);
        }
        let p = get_profile(&cfg.profiles, pid);
        match p {
            Some(p) => {
                return Some(HotkeyEvent::ProfileSwitch(p.id));
            },
            None => {
                return None;
            },
        }
    }
    let active = match cfg.get_active_profile() {
        Some(a) => a,
        None => {
            return None;
        },
    };
    match find_macro_match(cfg, &active.macro_ids, st, key) {
        Some(i) => match get_macro(&cfg.macros, active.macro_ids[i]) {
            Some(m) => Some(HotkeyEvent::ComboTriggered(m.id)),
            None => None,
        },
        None => None,
    }
}

/// The event, if any, that a key event gives. Profiles are scanned in the order in
/// which the profile table is walked, which its hasher decides.
pub fn process_event(cfg: &FlatStorage, st: &KeyState, ev: &InputEvent) -> (r: Option<HotkeyEvent>)
    ensures
        exists|order: Seq<u64>|
            crate::parser::is_profile_order(cfg@, order) && r == hotkey_for(cfg@, order, st@, *ev),
{
    let order = profile_ids(&cfg.profiles);
    assert(cfg@.profiles.dom() =~= profile_table(cfg.profiles).dom());
    let r = process_event_in_order(cfg, &order, st, ev);
    assert(crate::parser::is_profile_order(cfg@, order@));
    r
}

} // verus!
