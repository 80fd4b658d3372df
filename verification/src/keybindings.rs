//! The string-keyed registry: events are text keys.
//!
//! Keys are stored as owned `String`s, but every entry point accepts a plain
//! `&str`: looking a key up by a slice is, by contract, identical to looking
//! it up by the owned string of the same content, because each operation is
//! specified purely over the key's view (its character sequence).

use crate::model::{bind_all, lemma_bind_all_take_step, lookup, pair_views};
use vstd::hash_map::StringHashMap;
use vstd::prelude::*;

verus! {

/// A registry of key-to-action bindings with textual keys: at most one
/// action handle per key, replaced by rebinding, executed on demand.
#[verifier::reject_recursive_types(A)]
pub struct KeyBindings<A> {
    table: StringHashMap<A>,
}

impl<A> View for KeyBindings<A> {
    type V = Map<Seq<char>, A>;

    closed spec fn view(&self) -> Self::V {
        self.table@
    }
}

impl<A> KeyBindings<A> {
    /// Makes a new empty keybinding registry.
    pub fn new() -> (r: Self)
        ensures
            r@ == Map::<Seq<char>, A>::empty(),
    {
        KeyBindings { table: StringHashMap::new() }
    }

    /// Makes a registry containing each binding in the list, bound in
    /// sequence order: a later pair for the same key overwrites an earlier
    /// one, exactly as repeated [`KeyBindings::bind_key`] calls would.
    pub fn new_with_bindings(bindings: &[(&str, A)]) -> (r: Self) where A: Copy
        ensures
            r@ == bind_all(Map::<Seq<char>, A>::empty(), pair_views(bindings@)),
    {
        let ghost all = pair_views(bindings@);
        let mut reg = Self::new();
        let mut done: usize = 0;
        while done < bindings.len()
            invariant
                done <= bindings@.len(),
                all == pair_views(bindings@),
                reg@ == bind_all(Map::<Seq<char>, A>::empty(), all.take(done as int)),
            decreases bindings@.len() - done,
        {
            let pair = bindings[done];
            proof {
                assert(all[done as int] == (bindings@[done as int].0@, bindings@[done as int].1));
                lemma_bind_all_take_step(Map::<Seq<char>, A>::empty(), all, done as int);
            }
            reg.bind_key(pair.0, pair.1);
            done = done + 1;
        }
        proof {
            assert(all.take(done as int) =~= all);
        }
        reg
    }

    /// Returns the action handle currently bound to `key`, or `None` when
    /// `key` is unbound. No mutation, no side effects: the result is exactly
    /// what the registry's map holds for the key's content.
    pub fn get_action(&self, key: &str) -> (r: Option<A>) where A: Copy
        ensures
            r == lookup(self@, key@),
    {
        match self.table.get(key) {
            Some(action) => Some(*action),
            None => None,
        }
    }

    /// Looks up `key` and, when it is bound, invokes the bound action and
    /// returns its result; returns `None` when the key is unbound, without
    /// invoking anything. The registry is not mutated.
    ///
    /// The precondition passes the bound action's own precondition through to
    /// the caller: the registry adds no failure handling of its own around
    /// the invocation.
    pub fn run_action<R>(&self, key: &str) -> (r: Option<R>) where A: Fn() -> R + Copy
        requires
            self@.contains_key(key@) ==> call_requires(self@[key@], ()),
        ensures
            match r {
                Some(v) => self@.contains_key(key@) && call_ensures(self@[key@], (), v),
                None => !self@.contains_key(key@),
            },
    {
        match self.get_action(key) {
            Some(action) => Some(action()),
            None => None,
        }
    }

    /// Creates or overwrites the binding for `key`, converting the slice to
    /// an owned key only here, at insertion. A previously bound handle is
    /// simply dropped from the registry: it is not invoked or notified.
    /// `self.get_action()` is useful for rebinding keys.
    pub fn bind_key(&mut self, key: &str, action: A)
        ensures
            final(self)@ == old(self)@.insert(key@, action),
    {
        self.table.insert(key.to_owned(), action);
    }
}

} // verus!
