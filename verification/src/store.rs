//! The key-indexed store: one [`KeyState`] per (symbol, timerange) key, kept
//! in a sharded concurrent map.
//!
//! A store has one writer at a time: whoever changes the state of a key
//! holds the store by exclusive reference until the candle at hand is fully
//! processed, replays included. Keys that are to be worked on side by side
//! are kept in stores of their own.

use vstd::prelude::*;
use dashmap::DashMap;
use crate::state::{KeyState, KeyStateView};

verus! {

/// `dashmap::DashMap`, declared so that it can stand in a field. Nothing is
/// known of what is inside it but what [`store_contents`] names.
#[verifier::external_type_specification]
#[verifier::external_body]
#[verifier::reject_recursive_types(K)]
#[verifier::reject_recursive_types(V)]
#[verifier::reject_recursive_types(S)]
pub struct ExDashMap<K, V, S>(DashMap<K, V, S>);

/// A key as it is compared: the characters of the symbol and of the
/// timerange's label.
pub type KeyView = (Seq<char>, Seq<char>);

/// The map that holds the states, keyed by symbol and timerange label.
pub type StateMap = DashMap<(&'static str, &'static str), KeyState>;

/// The states that a map holds, each under its key.
pub uninterp spec fn store_contents(m: StateMap) -> Map<KeyView, KeyStateView>;

/// The key that a symbol and a timerange's label name.
pub open spec fn key_of(symbol: &str, label: &str) -> KeyView {
    (symbol@, label@)
}

/// The state that a store holds for a key: the one kept under it, or a fresh
/// one where the key has not been seen.
pub open spec fn state_at(states: Map<KeyView, KeyStateView>, key: KeyView) -> KeyStateView {
    if states.contains_key(key) {
        states[key]
    } else {
        KeyStateView::fresh()
    }
}

/// What a store holds that has seen no key.
pub open spec fn no_states() -> Map<KeyView, KeyStateView> {
    Map::empty()
}

/// `DashMap::new`: the map it returns holds nothing.
#[verifier::external_body]
fn states_new() -> (m: StateMap)
    ensures
        store_contents(m) == no_states(),
{
    DashMap::new()
}

/// `DashMap::get`, followed by a copy of the value found: it returns the
/// state kept under the key, and nothing where the map holds none.
#[verifier::external_body]
fn states_get(m: &StateMap, symbol: &'static str, label: &'static str) -> (found: Option<KeyState>)
    ensures
        match found {
            Some(s) => store_contents(*m).contains_key(key_of(symbol, label)) && s@
                == store_contents(*m)[key_of(symbol, label)],
            None => !store_contents(*m).contains_key(key_of(symbol, label)),
        },
{
    m.get(&(symbol, label)).map(|entry| entry.value().clone())
}

/// `DashMap::remove`: it takes the state kept under the key out of the map
/// and returns it; a map that holds none under the key stays as it is.
#[verifier::external_body]
fn states_remove(m: &mut StateMap, symbol: &'static str, label: &'static str) -> (found: Option<
    KeyState,
>)
    ensures
        match found {
            Some(s) => store_contents(*old(m)).contains_key(key_of(symbol, label)) && s@
                == store_contents(*old(m))[key_of(symbol, label)],
            None => !store_contents(*old(m)).contains_key(key_of(symbol, label)),
        },
        store_contents(*final(m)) == store_contents(*old(m)).remove(key_of(symbol, label)),
{
    m.remove(&(symbol, label)).map(|entry| entry.1)
}

/// `DashMap::insert`: afterwards the map holds the state under the key, in
/// place of what it held there before.
#[verifier::external_body]
fn states_insert(m: &mut StateMap, symbol: &'static str, label: &'static str, state: KeyState)
    ensures
        store_contents(*final(m)) == store_contents(*old(m)).insert(key_of(symbol, label), state@),
{
    m.insert((symbol, label), state);
}

/// The states of all keys.
pub struct Store {
    states: StateMap,
}

impl View for Store {
    type V = Map<KeyView, KeyStateView>;

    closed spec fn view(&self) -> Map<KeyView, KeyStateView> {
        store_contents(self.states)
    }
}

impl Store {
    /// The state that the store holds for the key of `symbol` and `label`.
    pub open spec fn state_of(&self, symbol: &str, label: &str) -> KeyStateView {
        state_at(self@, key_of(symbol, label))
    }

    /// A store that has seen no key.
    pub fn new() -> (store: Store)
        ensures
            store@ == no_states(),
    {
        Store { states: states_new() }
    }

    /// A copy of the state kept for a key, if the key has been seen.
    pub fn snapshot(&self, symbol: &'static str, label: &'static str) -> (found: Option<KeyState>)
        ensures
            match found {
                Some(s) => self@.contains_key(key_of(symbol, label)) && s@ == self@[key_of(
                    symbol,
                    label,
                )] && s@.well_formed(),
                None => !self@.contains_key(key_of(symbol, label)),
            },
    {
        let found = states_get(&self.states, symbol, label);
        proof {
            if let Some(s) = &found {
                use_type_invariant(s);
            }
        }
        found
    }

    /// Takes the state of a key out of the store.
    pub(crate) fn take(&mut self, symbol: &'static str, label: &'static str) -> (found: Option<
        KeyState,
    >)
        ensures
            match found {
                Some(s) => old(self)@.contains_key(key_of(symbol, label)) && s@ == old(self)@[key_of(
                    symbol,
                    label,
                )],
                None => !old(self)@.contains_key(key_of(symbol, label)),
            },
            final(self)@ == old(self)@.remove(key_of(symbol, label)),
    {
        states_remove(&mut self.states, symbol, label)
    }

    /// Takes the state of a key out of the store, or makes a fresh one.
    pub(crate) fn take_or_fresh(&mut self, symbol: &'static str, label: &'static str) -> (state:
        KeyState)
        ensures
            state@ == old(self).state_of(symbol, label),
            final(self)@ == old(self)@.remove(key_of(symbol, label)),
    {
        match self.take(symbol, label) {
            Some(state) => state,
            None => KeyState::new(),
        }
    }

    /// Keeps a state under its key.
    pub(crate) fn put(&mut self, symbol: &'static str, label: &'static str, state: KeyState)
        ensures
            final(self)@ == old(self)@.insert(key_of(symbol, label), state@),
    {
        states_insert(&mut self.states, symbol, label, state);
    }
}

} // verus!
