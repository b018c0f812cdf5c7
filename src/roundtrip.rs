//! The round trip from the nested configuration to the flat store and back.
use vstd::prelude::*;

use crate::domain::{id_of_step, ConfigView, MacroView, ProfileView, SequenceStep};
use crate::parser::{
    enter_macro_steps, enter_macros, enter_steps, flat_macros, flat_profiles, flat_steps, flatten,
    is_profile_order, macro_of_stored, materialize, profile_of_stored, resolve_macros,
    resolve_profiles, resolve_steps, stored_macro_view, stored_profile_view,
};
use crate::store::{FlatView, StoredMacroView};

verus! {

/// Whether ids identify entries: no two profiles share an id, and macros (steps)
/// that share an id are the same macro (step).
pub open spec fn consistent_ids(c: ConfigView) -> bool {
    let ps = c.profiles;
    &&& forall|i: int, j: int|
        0 <= i < ps.len() && 0 <= j < ps.len() && i != j ==> ps[i].id != ps[j].id
    &&& forall|pi: int, mi: int, pj: int, mj: int|
        0 <= pi < ps.len() && 0 <= mi < ps[pi].macros.len() && 0 <= pj < ps.len() && 0 <= mj
            < ps[pj].macros.len() && #[trigger] ps[pi].macros[mi].id == #[trigger] ps[pj].macros[mj].id
            ==> ps[pi].macros[mi] == ps[pj].macros[mj]
    &&& forall|pi: int, mi: int, si: int, pj: int, mj: int, sj: int|
        0 <= pi < ps.len() && 0 <= mi < ps[pi].macros.len() && 0 <= si
            < ps[pi].macros[mi].sequence.len() && 0 <= pj < ps.len() && 0 <= mj
            < ps[pj].macros.len() && 0 <= sj < ps[pj].macros[mj].sequence.len() && id_of_step(
            #[trigger] ps[pi].macros[mi].sequence[si],
        ) == id_of_step(#[trigger] ps[pj].macros[mj].sequence[sj]) ==> ps[pi].macros[mi].sequence[si]
            == ps[pj].macros[mj].sequence[sj]
}

/// Every entry of a step table is a step that `u` admits, under its own id.
pub open spec fn steps_from(t: Map<u64, SequenceStep>, u: spec_fn(SequenceStep) -> bool) -> bool {
    forall|k: u64| #[trigger] t.contains_key(k) ==> u(t[k]) && id_of_step(t[k]) == k
}

proof fn lemma_enter_steps(
    acc: Map<u64, SequenceStep>,
    s: Seq<SequenceStep>,
    u: spec_fn(SequenceStep) -> bool,
)
    requires
        steps_from(acc, u),
        forall|i: int| 0 <= i < s.len() ==> u(#[trigger] s[i]),
    ensures
        steps_from(enter_steps(acc, s), u),
        forall|i: int|
            0 <= i < s.len() ==> enter_steps(acc, s).contains_key(id_of_step(#[trigger] s[i])),
        forall|k: u64| acc.contains_key(k) ==> #[trigger] enter_steps(acc, s).contains_key(k),
    decreases s.len(),
{
    if s.len() > 0 {
        let p = s.drop_last();
        lemma_enter_steps(acc, p, u);
        assert forall|i: int| 0 <= i < s.len() implies enter_steps(acc, s).contains_key(
            id_of_step(#[trigger] s[i]),
        ) by {
            if i < s.len() - 1 {
                assert(p[i] == s[i]);
            }
        }
    }
}

proof fn lemma_enter_macro_steps(
    acc: Map<u64, SequenceStep>,
    ms: Seq<MacroView>,
    u: spec_fn(SequenceStep) -> bool,
)
    requires
        steps_from(acc, u),
        forall|j: int, i: int|
            0 <= j < ms.len() && 0 <= i < ms[j].sequence.len() ==> u(#[trigger] ms[j].sequence[i]),
    ensures
        steps_from(enter_macro_steps(acc, ms), u),
        forall|j: int, i: int|
            0 <= j < ms.len() && 0 <= i < ms[j].sequence.len() ==> enter_macro_steps(
                acc,
                ms,
            ).contains_key(id_of_step(#[trigger] ms[j].sequence[i])),
        forall|k: u64| acc.contains_key(k) ==> #[trigger] enter_macro_steps(acc, ms).contains_key(k),
    decreases ms.len(),
{
    if ms.len() > 0 {
        let p = ms.drop_last();
        let last = ms.last();
        assert forall|j: int, i: int|
            0 <= j < p.len() && 0 <= i < p[j].sequence.len() implies u(#[trigger] p[j].sequence[i]) by {
            assert(p[j] == ms[j]);
        }
        lemma_enter_macro_steps(acc, p, u);
        assert forall|i: int| 0 <= i < last.sequence.len() implies u(#[trigger] last.sequence[i]) by {
            assert(ms[ms.len() - 1] == last);
        }
        lemma_enter_steps(enter_macro_steps(acc, p), last.sequence, u);
        assert forall|j: int, i: int|
            0 <= j < ms.len() && 0 <= i < ms[j].sequence.len() implies enter_macro_steps(
            acc,
            ms,
        ).contains_key(id_of_step(#[trigger] ms[j].sequence[i])) by {
            if j < ms.len() - 1 {
                assert(p[j] == ms[j]);
                assert(p[j].sequence[i] == ms[j].sequence[i]);
            }
        }
    }
}

/// Whether a step occurs somewhere in the profiles.
pub open spec fn step_in(ps: Seq<ProfileView>, s: SequenceStep) -> bool {
    exists|pi: int, mi: int, si: int|
        0 <= pi < ps.len() && 0 <= mi < ps[pi].macros.len() && 0 <= si
            < ps[pi].macros[mi].sequence.len() && #[trigger] ps[pi].macros[mi].sequence[si] == s
}

proof fn lemma_flat_steps(ps: Seq<ProfileView>, u: spec_fn(SequenceStep) -> bool)
    requires
        forall|pi: int, mi: int, si: int|
            0 <= pi < ps.len() && 0 <= mi < ps[pi].macros.len() && 0 <= si
                < ps[pi].macros[mi].sequence.len() ==> u(#[trigger] ps[pi].macros[mi].sequence[si]),
    ensures
        steps_from(flat_steps(ps), u),
        forall|pi: int, mi: int, si: int|
            0 <= pi < ps.len() && 0 <= mi < ps[pi].macros.len() && 0 <= si
                < ps[pi].macros[mi].sequence.len() ==> flat_steps(ps).contains_key(
                id_of_step(#[trigger] ps[pi].macros[mi].sequence[si]),
            ),
    decreases ps.len(),
{
    if ps.len() > 0 {
        let p = ps.drop_last();
        let last = ps.last();
        assert forall|pi: int, mi: int, si: int|
            0 <= pi < p.len() && 0 <= mi < p[pi].macros.len() && 0 <= si
                < p[pi].macros[mi].sequence.len() implies u(
            #[trigger] p[pi].macros[mi].sequence[si],
        ) by {
            assert(p[pi] == ps[pi]);
        }
        lemma_flat_steps(p, u);
        assert forall|j: int, i: int|
            0 <= j < last.macros.len() && 0 <= i < last.macros[j].sequence.len() implies u(
            #[trigger] last.macros[j].sequence[i],
        ) by {
            assert(ps[ps.len() - 1] == last);
        }
        lemma_enter_macro_steps(flat_steps(p), last.macros, u);
        assert forall|pi: int, mi: int, si: int|
            0 <= pi < ps.len() && 0 <= mi < ps[pi].macros.len() && 0 <= si
                < ps[pi].macros[mi].sequence.len() implies flat_steps(ps).contains_key(
            id_of_step(#[trigger] ps[pi].macros[mi].sequence[si]),
        ) by {
            if pi < ps.len() - 1 {
                assert(p[pi] == ps[pi]);
                assert(p[pi].macros[mi].sequence[si] == ps[pi].macros[mi].sequence[si]);
            } else {
                assert(ps[pi] == last);
                assert(last.macros[mi].sequence[si] == ps[pi].macros[mi].sequence[si]);
            }
        }
    }
}

/// Every entry of a macro table is the stored form of a macro that `u` admits,
/// under its own id.
pub open spec fn macros_from(t: Map<u64, StoredMacroView>, u: spec_fn(MacroView) -> bool) -> bool {
    forall|k: u64| #[trigger]
        t.contains_key(k) ==> exists|m: MacroView|
            u(m) && m.id == k && t[k] == #[trigger] stored_macro_view(m)
}

proof fn lemma_enter_macros(
    acc: Map<u64, StoredMacroView>,
    ms: Seq<MacroView>,
    u: spec_fn(MacroView) -> bool,
)
    requires
        macros_from(acc, u),
        forall|j: int| 0 <= j < ms.len() ==> u(#[trigger] ms[j]),
    ensures
        macros_from(enter_macros(acc, ms), u),
        forall|j: int| 0 <= j < ms.len() ==> enter_macros(acc, ms).contains_key((#[trigger] ms[j]).id),
        forall|k: u64| acc.contains_key(k) ==> #[trigger] enter_macros(acc, ms).contains_key(k),
    decreases ms.len(),
{
    if ms.len() > 0 {
        let p = ms.drop_last();
        let last = ms.last();
        assert forall|j: int| 0 <= j < p.len() implies u(#[trigger] p[j]) by {
            assert(p[j] == ms[j]);
        }
        lemma_enter_macros(acc, p, u);
        let t0 = enter_macros(acc, p);
        let t = enter_macros(acc, ms);
        assert(u(ms[ms.len() - 1]));
        assert forall|k: u64| #[trigger] t.contains_key(k) implies exists|m: MacroView|
            u(m) && m.id == k && t[k] == #[trigger] stored_macro_view(m) by {
            if k == last.id {
                assert(u(last) && last.id == k && t[k] == stored_macro_view(last));
            } else {
                assert(t0.contains_key(k));
                let m = choose|m: MacroView| u(m) && m.id == k && t0[k] == stored_macro_view(m);
                assert(u(m) && m.id == k && t[k] == stored_macro_view(m));
            }
        }
        assert forall|j: int| 0 <= j < ms.len() implies t.contains_key((#[trigger] ms[j]).id) by {
            if j < ms.len() - 1 {
                assert(p[j] == ms[j]);
            }
        }
    }
}

/// Whether a macro occurs in some profile.
pub open spec fn macro_in(ps: Seq<ProfileView>, m: MacroView) -> bool {
    exists|pi: int, mi: int|
        0 <= pi < ps.len() && 0 <= mi < ps[pi].macros.len() && #[trigger] ps[pi].macros[mi] == m
}

proof fn lemma_flat_macros(ps: Seq<ProfileView>, u: spec_fn(MacroView) -> bool)
    requires
        forall|pi: int, mi: int|
            0 <= pi < ps.len() && 0 <= mi < ps[pi].macros.len() ==> u(#[trigger] ps[pi].macros[mi]),
    ensures
        macros_from(flat_macros(ps), u),
        forall|pi: int, mi: int|
            0 <= pi < ps.len() && 0 <= mi < ps[pi].macros.len() ==> flat_macros(ps).contains_key(
                (#[trigger] ps[pi].macros[mi]).id,
            ),
    decreases ps.len(),
{
    if ps.len() > 0 {
        let p = ps.drop_last();
        let last = ps.last();
        assert forall|pi: int, mi: int|
            0 <= pi < p.len() && 0 <= mi < p[pi].macros.len() implies u(#[trigger] p[pi].macros[mi]) by {
            assert(p[pi] == ps[pi]);
        }
        lemma_flat_macros(p, u);
        assert forall|j: int| 0 <= j < last.macros.len() implies u(#[trigger] last.macros[j]) by {
            assert(ps[ps.len() - 1] == last);
        }
        lemma_enter_macros(flat_macros(p), last.macros, u);
        assert forall|pi: int, mi: int|
            0 <= pi < ps.len() && 0 <= mi < ps[pi].macros.len() implies flat_macros(ps).contains_key(
            (#[trigger] ps[pi].macros[mi]).id,
        ) by {
            if pi < ps.len() - 1 {
                assert(p[pi] == ps[pi]);
                assert(p[pi].macros[mi] == ps[pi].macros[mi]);
            } else {
                assert(ps[pi] == last);
                assert(last.macros[mi] == ps[pi].macros[mi]);
            }
        }
    }
}

proof fn lemma_flat_profiles(ps: Seq<ProfileView>)
    ensures
        forall|k: u64| #[trigger]
            flat_profiles(ps).contains_key(k) ==> exists|i: int|
                0 <= i < ps.len() && ps[i].id == k && flat_profiles(ps)[k]
                    == stored_profile_view(#[trigger] ps[i]),
        forall|i: int| 0 <= i < ps.len() ==> flat_profiles(ps).contains_key((#[trigger] ps[i]).id),
    decreases ps.len(),
{
    if ps.len() > 0 {
        let p = ps.drop_last();
        let last = ps.last();
        lemma_flat_profiles(p);
        let t0 = flat_profiles(p);
        let t = flat_profiles(ps);
        assert forall|k: u64| #[trigger] t.contains_key(k) implies exists|i: int|
            0 <= i < ps.len() && ps[i].id == k && t[k] == stored_profile_view(#[trigger] ps[i]) by {
            if k == last.id {
                assert(ps[ps.len() - 1] == last);
            } else {
                assert(t0.contains_key(k));
                let i = choose|i: int|
                    0 <= i < p.len() && p[i].id == k && t0[k] == stored_profile_view(#[trigger] p[i]);
                assert(p[i] == ps[i]);
            }
        }
        assert forall|i: int| 0 <= i < ps.len() implies t.contains_key((#[trigger] ps[i]).id) by {
            if i < ps.len() - 1 {
                assert(p[i] == ps[i]);
            }
        }
    }
}

proof fn lemma_resolve_steps(steps: Map<u64, SequenceStep>, sq: Seq<SequenceStep>)
    requires
        forall|i: int|
            0 <= i < sq.len() ==> steps.contains_key(id_of_step(#[trigger] sq[i])) && steps[id_of_step(
                sq[i],
            )] == sq[i],
    ensures
        resolve_steps(steps, sq.map_values(|s: SequenceStep| id_of_step(s))) == sq,
    decreases sq.len(),
{
    let ids = sq.map_values(|s: SequenceStep| id_of_step(s));
    if sq.len() == 0 {
        assert(ids.len() == 0);
        assert(resolve_steps(steps, ids) =~= sq);
    } else {
        let p = sq.drop_last();
        assert(ids.drop_last() =~= p.map_values(|s: SequenceStep| id_of_step(s)));
        lemma_resolve_steps(steps, p);
        assert(ids.last() == id_of_step(sq[sq.len() - 1]));
        assert(resolve_steps(steps, ids) =~= p.push(sq.last()));
        assert(p.push(sq.last()) =~= sq);
    }
}

/// Whether a flat store holds `m` and all its steps under their ids.
pub open spec fn holds_macro(f: FlatView, m: MacroView) -> bool {
    &&& f.macros.contains_key(m.id)
    &&& f.macros[m.id] == stored_macro_view(m)
    &&& forall|i: int|
        0 <= i < m.sequence.len() ==> f.steps.contains_key(id_of_step(#[trigger] m.sequence[i]))
            && f.steps[id_of_step(m.sequence[i])] == m.sequence[i]
}

proof fn lemma_resolve_macros(f: FlatView, ms: Seq<MacroView>)
    requires
        forall|j: int| 0 <= j < ms.len() ==> holds_macro(f, #[trigger] ms[j]),
    ensures
        resolve_macros(f, ms.map_values(|m: MacroView| m.id)) == ms,
    decreases ms.len(),
{
    let ids = ms.map_values(|m: MacroView| m.id);
    if ms.len() == 0 {
        assert(resolve_macros(f, ids) =~= ms);
    } else {
        let p = ms.drop_last();
        let last = ms.last();
        assert forall|j: int| 0 <= j < p.len() implies holds_macro(f, #[trigger] p[j]) by {
            assert(p[j] == ms[j]);
        }
        assert(ids.drop_last() =~= p.map_values(|m: MacroView| m.id));
        lemma_resolve_macros(f, p);
        assert(holds_macro(f, ms[ms.len() - 1]));
        lemma_resolve_steps(f.steps, last.sequence);
        assert(macro_of_stored(f, f.macros[last.id]) == last);
        assert(resolve_macros(f, ids) =~= p.push(last));
        assert(p.push(last) =~= ms);
    }
}

proof fn lemma_resolve_profiles(f: FlatView, order: Seq<u64>)
    requires
        forall|k: int| 0 <= k < order.len() ==> f.profiles.contains_key(#[trigger] order[k]),
    ensures
        resolve_profiles(f, order).len() == order.len(),
        forall|k: int|
            0 <= k < order.len() ==> #[trigger] resolve_profiles(f, order)[k] == profile_of_stored(
                f,
                f.profiles[order[k]],
            ),
    decreases order.len(),
{
    if order.len() > 0 {
        let p = order.drop_last();
        assert forall|k: int| 0 <= k < p.len() implies f.profiles.contains_key(#[trigger] p[k]) by {
            assert(p[k] == order[k]);
        }
        lemma_resolve_profiles(f, p);
        assert(f.profiles.contains_key(order[order.len() - 1]));
        assert forall|k: int| 0 <= k < order.len() implies #[trigger] resolve_profiles(f, order)[k]
            == profile_of_stored(f, f.profiles[order[k]]) by {
            if k < order.len() - 1 {
                assert(p[k] == order[k]);
            }
        }
    }
}

proof fn lemma_flat_holds_all(c: ConfigView)
    requires
        consistent_ids(c),
    ensures
        forall|pi: int, mi: int|
            0 <= pi < c.profiles.len() && 0 <= mi < c.profiles[pi].macros.len() ==> holds_macro(
                flatten(c),
                #[trigger] c.profiles[pi].macros[mi],
            ),
        forall|i: int|
            0 <= i < c.profiles.len() ==> {
                &&& flatten(c).profiles.contains_key((#[trigger] c.profiles[i]).id)
                &&& flatten(c).profiles[c.profiles[i].id] == stored_profile_view(c.profiles[i])
            },
        forall|k: u64| #[trigger]
            flatten(c).profiles.contains_key(k) ==> exists|i: int|
                0 <= i < c.profiles.len() && (#[trigger] c.profiles[i]).id == k,
{
    let ps = c.profiles;
    let f = flatten(c);
    let us = |s: SequenceStep| step_in(ps, s);
    let um = |m: MacroView| macro_in(ps, m);
    assert forall|pi: int, mi: int, si: int|
        0 <= pi < ps.len() && 0 <= mi < ps[pi].macros.len() && 0 <= si
            < ps[pi].macros[mi].sequence.len() implies us(#[trigger] ps[pi].macros[mi].sequence[si]) by {
        assert(step_in(ps, ps[pi].macros[mi].sequence[si]));
    }
    lemma_flat_steps(ps, us);
    assert forall|pi: int, mi: int|
        0 <= pi < ps.len() && 0 <= mi < ps[pi].macros.len() implies um(#[trigger] ps[pi].macros[mi]) by {
        assert(macro_in(ps, ps[pi].macros[mi]));
    }
    lemma_flat_macros(ps, um);
    lemma_flat_profiles(ps);
    assert forall|pi: int, mi: int|
        0 <= pi < ps.len() && 0 <= mi < ps[pi].macros.len() implies holds_macro(
        f,
        #[trigger] ps[pi].macros[mi],
    ) by {
        let m = ps[pi].macros[mi];
        let w = choose|w: MacroView| um(w) && w.id == m.id && f.macros[m.id] == stored_macro_view(w);
        let (pj, mj) = choose|pj: int, mj: int|
            0 <= pj < ps.len() && 0 <= mj < ps[pj].macros.len() && #[trigger] ps[pj].macros[mj] == w;
        assert(ps[pj].macros[mj].id == ps[pi].macros[mi].id);
        assert(w == m);
        assert forall|i: int| 0 <= i < m.sequence.len() implies f.steps.contains_key(
            id_of_step(#[trigger] m.sequence[i]),
        ) && f.steps[id_of_step(m.sequence[i])] == m.sequence[i] by {
            let s = m.sequence[i];
            assert(s == ps[pi].macros[mi].sequence[i]);
            assert(f.steps.contains_key(id_of_step(s)));
            let t = f.steps[id_of_step(s)];
            assert(us(t));
            let (qj, nj, sj) = choose|qj: int, nj: int, sj: int|
                0 <= qj < ps.len() && 0 <= nj < ps[qj].macros.len() && 0 <= sj
                    < ps[qj].macros[nj].sequence.len() && #[trigger] ps[qj].macros[nj].sequence[sj]
                    == t;
            assert(id_of_step(ps[qj].macros[nj].sequence[sj]) == id_of_step(
                ps[pi].macros[mi].sequence[i],
            ));
        }
    }
    assert forall|i: int| 0 <= i < ps.len() implies {
        &&& f.profiles.contains_key((#[trigger] ps[i]).id)
        &&& f.profiles[ps[i].id] == stored_profile_view(ps[i])
    } by {
        let k = ps[i].id;
        let j = choose|j: int|
            0 <= j < ps.len() && ps[j].id == k && flat_profiles(ps)[k] == stored_profile_view(
                #[trigger] ps[j],
            );
        assert(j == i);
    }
}

proof fn lemma_profile_back(c: ConfigView, i: int)
    requires
        consistent_ids(c),
        0 <= i < c.profiles.len(),
        forall|pi: int, mi: int|
            0 <= pi < c.profiles.len() && 0 <= mi < c.profiles[pi].macros.len() ==> holds_macro(
                flatten(c),
                #[trigger] c.profiles[pi].macros[mi],
            ),
    ensures
        profile_of_stored(flatten(c), stored_profile_view(c.profiles[i])) == c.profiles[i],
{
    let p = c.profiles[i];
    assert forall|j: int| 0 <= j < p.macros.len() implies holds_macro(
        flatten(c),
        #[trigger] p.macros[j],
    ) by {
        assert(p.macros[j] == c.profiles[i].macros[j]);
    }
    lemma_resolve_macros(flatten(c), p.macros);
}

/// Flattening a configuration and materializing it again, its profiles taken in any
/// order that lists each stored profile once, gives back the same selected profile
/// and the same profiles, with all their macros and steps: the same number, and
/// each one equal to one of those given. This holds where ids identify entries.
pub proof fn lemma_round_trip(c: ConfigView, order: Seq<u64>)
    requires
        consistent_ids(c),
        is_profile_order(flatten(c), order),
    ensures
        materialize(flatten(c), order).selected_profile_id == c.selected_profile_id,
        materialize(flatten(c), order).profiles.len() == c.profiles.len(),
        materialize(flatten(c), order).profiles.to_set() == c.profiles.to_set(),
{
    let f = flatten(c);
    let ps = c.profiles;
    lemma_flat_holds_all(c);
    assert forall|k: int| 0 <= k < order.len() implies f.profiles.contains_key(#[trigger] order[k]) by {
        assert(order.to_set().contains(order[k]));
    }
    lemma_resolve_profiles(f, order);
    let back = resolve_profiles(f, order);
    let ids = ps.map_values(|p: ProfileView| p.id);
    assert(ids.no_duplicates()) by {
        assert forall|a: int, b: int| 0 <= a < ids.len() && 0 <= b < ids.len() && a != b implies ids[a]
            != ids[b] by {
            assert(ps[a].id != ps[b].id);
        }
    }
    assert(ids.to_set() =~= f.profiles.dom()) by {
        assert forall|k: u64| #[trigger] f.profiles.dom().contains(k) implies ids.to_set().contains(k) by {
            let i = choose|i: int| 0 <= i < ps.len() && (#[trigger] ps[i]).id == k;
            assert(ids[i] == k);
        }
        assert forall|k: u64| #[trigger] ids.to_set().contains(k) implies f.profiles.dom().contains(k) by {
            let i = choose|i: int| 0 <= i < ids.len() && ids[i] == k;
            assert(ps[i].id == k);
        }
    }
    order.unique_seq_to_set();
    ids.unique_seq_to_set();
    assert forall|k: int| 0 <= k < order.len() implies exists|i: int|
        0 <= i < ps.len() && #[trigger] back[k] == ps[i] by {
        assert(f.profiles.contains_key(order[k]));
        let i = choose|i: int| 0 <= i < ps.len() && (#[trigger] ps[i]).id == order[k];
        lemma_profile_back(c, i);
        assert(back[k] == ps[i]);
    }
    assert forall|i: int| 0 <= i < ps.len() implies exists|k: int|
        0 <= k < back.len() && back[k] == #[trigger] ps[i] by {
        assert(order.to_set().contains(ps[i].id));
        let k = choose|k: int| 0 <= k < order.len() && order[k] == ps[i].id;
        lemma_profile_back(c, i);
        assert(back[k] == ps[i]);
    }
    assert(back.to_set() =~= ps.to_set()) by {
        assert forall|x: ProfileView| #[trigger] back.to_set().contains(x) implies ps.to_set().contains(x) by {
            let k = choose|k: int| 0 <= k < back.len() && back[k] == x;
            let i = choose|i: int| 0 <= i < ps.len() && #[trigger] back[k] == ps[i];
        }
        assert forall|x: ProfileView| #[trigger] ps.to_set().contains(x) implies back.to_set().contains(x) by {
            let i = choose|i: int| 0 <= i < ps.len() && ps[i] == x;
            let k = choose|k: int| 0 <= k < back.len() && back[k] == #[trigger] ps[i];
        }
    }
}

} // verus!
