//! The shared store that handlers use to exchange state.
//!
//! A [`Context`] holds at most one value per key; the host assigns each
//! stored value type a fixed key of its own and keeps to a
//! single-writer-per-key discipline. Storing under a key that is already
//! present replaces the previous value. Reading a key that was never
//! stored is a programming error, ruled out by precondition rather than
//! checked at run time: hosts must set every key a handler reads before
//! the first dispatch runs.

use std::collections::HashMap;
use vstd::prelude::*;

verus! {

broadcast use vstd::std_specs::hash::group_hash_axioms;

/// A key-value store shared by every handler invocation of a dispatch run.
pub struct Context<V> {
    entries: HashMap<u64, V>,
}

impl<V> View for Context<V> {
    type V = Map<u64, V>;

    closed spec fn view(&self) -> Map<u64, V> {
        self.entries@
    }
}

impl<V> Context<V> {
    /// Creates an empty store.
    pub fn new() -> (r: Self)
        ensures
            r@ == Map::<u64, V>::empty(),
    {
        Context { entries: HashMap::new() }
    }

    /// Stores `value` under `key`, replacing any value the key held before.
    pub fn set(&mut self, key: u64, value: V)
        ensures
            final(self)@ == old(self)@.insert(key, value),
    {
        self.entries.insert(key, value);
    }

    /// Returns the value stored under `key`.
    ///
    /// A key that was never set is a host misconfiguration; callers must
    /// establish presence, by construction or via [`Context::contains`].
    pub fn get(&self, key: u64) -> (r: &V)
        requires
            self@.contains_key(key),
        ensures
            *r == self@[key],
    {
        match self.entries.get(&key) {
            Some(v) => v,
            None => unreached(),
        }
    }

    /// Reports whether a value is stored under `key`.
    pub fn contains(&self, key: u64) -> (r: bool)
        ensures
            r == self@.contains_key(key),
    {
        self.entries.contains_key(&key)
    }

    /// Number of keys currently stored.
    pub fn len(&self) -> (r: usize)
        ensures
            r == self@.len(),
    {
        self.entries.len()
    }
}

/// Round-trip law of the store: after `set(key, v)`, `get(key)` returns `v`,
/// and a second `set(key, v2)` makes `get(key)` return `v2`, not `v`.
pub proof fn lemma_set_get_round_trip<V>(m: Map<u64, V>, key: u64, v: V, v2: V)
    ensures
        m.insert(key, v).contains_key(key),
        m.insert(key, v)[key] == v,
        m.insert(key, v).insert(key, v2)[key] == v2,
{
}

/// Keys other than the one being set keep their values: storing under one
/// key never disturbs what another key holds.
pub proof fn lemma_set_preserves_other_keys<V>(m: Map<u64, V>, key: u64, v: V, other: u64)
    requires
        other != key,
    ensures
        m.insert(key, v).contains_key(other) == m.contains_key(other),
        m.contains_key(other) ==> m.insert(key, v)[other] == m[other],
{
}

} // verus!
