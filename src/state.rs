//! The set of physical keys currently held down.
use vstd::prelude::*;

use ahash::AHashSet;

use crate::domain::{ComboView, KeyCombination};
use crate::keys::{mod_to_key, modifier_key, resolve, str_to_key, Key};

verus! {

#[verifier::external_type_specification]
#[verifier::external_body]
#[verifier::reject_recursive_types(T)]
#[verifier::reject_recursive_types(S)]
pub struct ExAHashSet<T, S>(AHashSet<T, S>);

/// A set of keys.
pub type KeySet = AHashSet<Key>;

/// What a key set holds.
pub uninterp spec fn key_set(s: KeySet) -> Set<Key>;

/// Relies on `AHashSet::new`: a new set is empty.
#[verifier::external_body]
fn new_key_set() -> (r: KeySet)
    ensures
        key_set(r).is_empty(),
{
    AHashSet::new()
}

/// Relies on `HashSet::insert` (through `AHashSet`'s `DerefMut`): the key is then held.
#[verifier::external_body]
fn insert_key(s: &mut KeySet, k: Key)
    ensures
        key_set(*final(s)) == key_set(*old(s)).insert(k),
{
    s.insert(k);
}

/// Relies on `HashSet::remove` (through `AHashSet`'s `DerefMut`): the key is then absent.
#[verifier::external_body]
fn remove_key(s: &mut KeySet, k: Key)
    ensures
        key_set(*final(s)) == key_set(*old(s)).remove(k),
{
    s.remove(&k);
}

/// Relies on `HashSet::contains` (through `AHashSet`'s `Deref`).
#[verifier::external_body]
fn holds_key(s: &KeySet, k: Key) -> (r: bool)
    ensures
        r == key_set(*s).contains(k),
{
    s.contains(&k)
}

/// An event that the input hook observes.
#[derive(Clone, Copy, Debug, PartialEq, Eq, Structural)]
pub enum InputEvent {
    KeyPress(Key),
    KeyRelease(Key),
    /// Anything that is not a key (mouse buttons, motion, wheel).
    Other,
}

/// The keys that are held down.
#[derive(Debug)]
pub struct KeyState {
    pressed: KeySet,
}

impl View for KeyState {
    type V = Set<Key>;

    closed spec fn view(&self) -> Set<Key> {
        key_set(self.pressed)
    }
}

/// The held keys after an event.
pub open spec fn after_event(held: Set<Key>, ev: InputEvent) -> Set<Key> {
    match ev {
        InputEvent::KeyPress(k) => held.insert(k),
        InputEvent::KeyRelease(k) => held.remove(k),
        InputEvent::Other => held,
    }
}

/// Whether the held keys satisfy a combination: its base key and every modifier is held.
pub open spec fn combo_satisfied(held: Set<Key>, c: ComboView) -> bool {
    &&& held.contains(resolve(c.key))
    &&& forall|i: int| 0 <= i < c.modifiers.len() ==> held.contains(modifier_key(c.modifiers[i]))
}

impl KeyState {
    /// No key held.
    pub fn new() -> (r: KeyState)
        ensures
            r@.is_empty(),
    {
        KeyState { pressed: new_key_set() }
    }

    /// Adds a pressed key, removes a released one.
    pub fn update(&mut self, ev: &InputEvent)
        ensures
            final(self)@ == after_event(old(self)@, *ev),
    {
        match ev {
            InputEvent::KeyPress(k) => insert_key(&mut self.pressed, *k),
            InputEvent::KeyRelease(k) => remove_key(&mut self.pressed, *k),
            InputEvent::Other => {},
        }
    }

    /// Whether the key is held.
    pub fn pressed(&self, k: Key) -> (r: bool)
        ensures
            r == self@.contains(k),
    {
        holds_key(&self.pressed, k)
    }
}

/// Whether the combination's base key and all its modifiers are held.
pub fn is_combo_completed(state: &KeyState, trigger: &KeyCombination) -> (r: bool)
    ensures
        r == combo_satisfied(state@, trigger@),
{
    let base = str_to_key(&trigger.key);
    if !state.pressed(base) {
        return false;
    }
    let mut i: usize = 0;
    while i < trigger.modifiers.len()
        invariant
            i <= trigger.modifiers@.len(),
            forall|j: int|
                0 <= j < i ==> state@.contains(modifier_key(trigger.modifiers@[j])),
        decreases trigger.modifiers@.len() - i,
    {
        let k = mod_to_key(&trigger.modifiers[i]);
        if !state.pressed(k) {
            return false;
        }
        i = i + 1;
    }
    true
}

} // verus!
