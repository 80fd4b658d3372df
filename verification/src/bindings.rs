//! The general registry: events of any type that can serve as a hash-map
//! key, actions of any handle type.
//!
//! The registry stores owned events and non-owning action handles (a handle
//! type is typically a `&` reference or a function pointer, hence the `Copy`
//! bound where a handle is returned or invoked). Its abstract value is a
//! [`Map`] from event views to handles, and every operation's contract is
//! stated over that map.

use crate::model::{bind_all, lemma_bind_all_take_step, lookup, pair_views};
use core::hash::Hash;
use vstd::hash_map::HashMapWithView;
use vstd::prelude::*;
use vstd::std_specs::hash::obeys_key_model;

verus! {

/// A registry of event-to-action bindings: at most one action handle per
/// event, replaced by rebinding, executed on demand.
#[verifier::reject_recursive_types(E)]
#[verifier::reject_recursive_types(A)]
pub struct Bindings<E: View + Eq + Hash, A> {
    table: HashMapWithView<E, A>,
}

impl<E: View + Eq + Hash, A> View for Bindings<E, A> {
    type V = Map<<E as View>::V, A>;

    closed spec fn view(&self) -> Self::V {
        self.table@
    }
}

impl<E: View + Eq + Hash, A> Bindings<E, A> {
    /// Makes a new empty registry.
    ///
    /// The two preconditions ask that `E` behave as a hash-map key: that its
    /// `Hash` and `Eq` agree with the hash-table model, and that events with
    /// equal views are equal. Both hold for the usual key types (integers,
    /// and `String` under its standard hash).
    pub fn new() -> (r: Self)
        requires
            obeys_key_model::<E>(),
            forall|k1: E, k2: E| k1@ == k2@ ==> k1 == k2,
        ensures
            r@ == Map::<<E as View>::V, A>::empty(),
    {
        Bindings { table: HashMapWithView::new() }
    }

    /// Makes a registry containing each binding in the list, bound in
    /// sequence order: a later pair for the same event overwrites an earlier
    /// one, exactly as repeated [`Bindings::bind_action`] calls would.
    pub fn with_init(pairs: Vec<(E, A)>) -> (r: Self)
        requires
            obeys_key_model::<E>(),
            forall|k1: E, k2: E| k1@ == k2@ ==> k1 == k2,
        ensures
            r@ == bind_all(Map::<<E as View>::V, A>::empty(), pair_views(pairs@)),
    {
        let total = pairs.len();
        let ghost orig = pairs@;
        let ghost all = pair_views(pairs@);
        let mut rest = pairs;
        let mut reg = Self::new();
        let mut done: usize = 0;
        while rest.len() > 0
            invariant
                done + rest@.len() == total,
                all.len() == total,
                all == pair_views(orig),
                forall|j: int| 0 <= j < rest@.len() ==> #[trigger] rest@[j] == orig[done + j],
                reg@ == bind_all(Map::<<E as View>::V, A>::empty(), all.take(done as int)),
            decreases rest@.len(),
        {
            let pair = rest.remove(0);
            proof {
                assert(pair == orig[done as int]);
                assert(all[done as int] == (orig[done as int].0@, orig[done as int].1));
                lemma_bind_all_take_step(
                    Map::<<E as View>::V, A>::empty(),
                    all,
                    done as int,
                );
            }
            reg.bind_action(pair.0, pair.1);
            done = done + 1;
        }
        proof {
            assert(all.take(done as int) =~= all);
        }
        reg
    }

    /// Returns the action handle currently bound to `event`, or `None` when
    /// `event` is unbound. No mutation, no side effects: the result is
    /// exactly what the registry's map holds for the event.
    pub fn get_action(&self, event: &E) -> (r: Option<A>) where A: Copy
        ensures
            r == lookup(self@, event@),
    {
        match self.table.get(event) {
            Some(action) => Some(*action),
            None => None,
        }
    }

    /// Looks up `event` and, when it is bound, invokes the bound action and
    /// returns its result; returns `None` when the event is unbound, without
    /// invoking anything. The registry is not mutated.
    ///
    /// The precondition passes the bound action's own precondition through to
    /// the caller: the registry adds no failure handling of its own around
    /// the invocation.
    pub fn run_action<R>(&self, event: &E) -> (r: Option<R>) where A: Fn() -> R + Copy
        requires
            self@.contains_key(event@) ==> call_requires(self@[event@], ()),
        ensures
            match r {
                Some(v) => self@.contains_key(event@) && call_ensures(self@[event@], (), v),
                None => !self@.contains_key(event@),
            },
    {
        match self.get_action(event) {
            Some(action) => Some(action()),
            None => None,
        }
    }

    /// Creates or overwrites the binding for `event`. A previously bound
    /// handle is simply dropped from the registry: it is not invoked or
    /// notified. `self.get_action()` is useful for rebinding events.
    pub fn bind_action(&mut self, event: E, action: A)
        ensures
            final(self)@ == old(self)@.insert(event@, action),
    {
        self.table.insert(event, action);
    }
}

} // verus!
