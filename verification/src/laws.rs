//! The laws of the registry, proved once over the model.
//!
//! Every registry operation's contract is stated over [`lookup`] and
//! [`bind_all`]; the proof functions here state what those contracts
//! together guarantee of whole interaction sequences — independence of
//! distinct events, overwrite on rebinding, absence for events never bound,
//! borrow-transparency, and idempotence of lookup.

use crate::model::{bind_all, lookup};
use vstd::prelude::*;

verus! {

/// Binding one event never disturbs another: after binding `e2`, a lookup of
/// a distinct event `e1` returns exactly what it returned before.
pub proof fn lemma_bind_other_event_unchanged<K, A>(m: Map<K, A>, e1: K, e2: K, a2: A)
    requires
        e1 != e2,
    ensures
        lookup(m.insert(e2, a2), e1) == lookup(m, e1),
{
}

/// Rebinding overwrites: after binding `e` to `a1` and then to `a2`, a
/// lookup of `e` returns `a2`'s handle and never `a1`'s — bindings replace,
/// they do not accumulate.
pub proof fn lemma_rebind_overwrites<K, A>(m: Map<K, A>, e: K, a1: A, a2: A)
    requires
        a1 != a2,
    ensures
        lookup(m.insert(e, a1).insert(e, a2), e) == Some(a2),
        lookup(m.insert(e, a1).insert(e, a2), e) != Some(a1),
{
}

/// Bulk binding leaves unmentioned events alone: when no pair of `pairs`
/// names `e`, a lookup of `e` after binding them all returns what it
/// returned in the initial map.
pub proof fn lemma_bind_all_other_events_unchanged<K, A>(m: Map<K, A>, pairs: Seq<(K, A)>, e: K)
    requires
        forall|i: int| 0 <= i < pairs.len() ==> (#[trigger] pairs[i]).0 != e,
    ensures
        lookup(bind_all(m, pairs), e) == lookup(m, e),
    decreases pairs.len(),
{
    if pairs.len() > 0 {
        assert(forall|i: int|
            0 <= i < pairs.drop_last().len() ==> (#[trigger] pairs.drop_last()[i]).0 != e);
        lemma_bind_all_other_events_unchanged(m, pairs.drop_last(), e);
    }
}

/// An event never bound has no action: a registry built from pairs that
/// never name `e` looks `e` up as absent, and so neither returns nor invokes
/// any action for it.
pub proof fn lemma_never_bound_is_absent<K, A>(pairs: Seq<(K, A)>, e: K)
    requires
        forall|i: int| 0 <= i < pairs.len() ==> (#[trigger] pairs[i]).0 != e,
    ensures
        lookup(bind_all(Map::<K, A>::empty(), pairs), e) is None,
{
    lemma_bind_all_other_events_unchanged(Map::<K, A>::empty(), pairs, e);
}

/// Last write wins in bulk binding: when the pair at `j` is the last one
/// naming its event, that event ends up bound to exactly that pair's action.
pub proof fn lemma_bind_all_last_write_wins<K, A>(m: Map<K, A>, pairs: Seq<(K, A)>, j: int)
    requires
        0 <= j < pairs.len(),
        forall|i: int| j < i < pairs.len() ==> (#[trigger] pairs[i]).0 != pairs[j].0,
    ensures
        lookup(bind_all(m, pairs), pairs[j].0) == Some(pairs[j].1),
    decreases pairs.len(),
{
    if j == pairs.len() - 1 {
    } else {
        assert(forall|i: int|
            j < i < pairs.drop_last().len() ==> (#[trigger] pairs.drop_last()[i]).0
                != pairs.drop_last()[j].0);
        lemma_bind_all_last_write_wins(m, pairs.drop_last(), j);
        assert(pairs.last().0 != pairs[j].0);
    }
}

/// Borrow-transparency for textual keys: an owned string and a slice of
/// identical content are looked up identically, because a lookup depends
/// only on the key's character sequence.
pub proof fn lemma_borrow_transparent_lookup<A>(m: Map<Seq<char>, A>, owned: String, slice: &str)
    requires
        owned@ == slice@,
    ensures
        lookup(m, owned@) == lookup(m, slice@),
{
}

/// Borrow-transparency in general: any two lookup keys with the same view
/// are looked up identically.
pub proof fn lemma_view_equal_lookup<E: View, A>(m: Map<<E as View>::V, A>, k1: E, k2: E)
    requires
        k1@ == k2@,
    ensures
        lookup(m, k1@) == lookup(m, k2@),
{
}

/// Lookup is idempotent: two lookups of the same event on the same registry
/// state, with no binding in between, return equal handles.
pub proof fn lemma_lookup_idempotent<K, A>(m: Map<K, A>, e: K, r1: Option<A>, r2: Option<A>)
    requires
        r1 == lookup(m, e),
        r2 == lookup(m, e),
    ensures
        r1 == r2,
{
}

} // verus!
