//! The mathematical model of a registry.
//!
//! A registry is modelled as a finite map from event values to action
//! handles. The spec functions here say what a lookup returns and what map a
//! sequence of bindings builds; the registry types state their contracts in
//! these terms.

use vstd::prelude::*;

verus! {

/// What a lookup returns for key `k` in a registry whose bindings form the
/// map `m`: the bound action handle, or nothing when `k` is unbound.
pub open spec fn lookup<K, A>(m: Map<K, A>, k: K) -> Option<A> {
    if m.contains_key(k) {
        Some(m[k])
    } else {
        None
    }
}

/// The map built by binding each pair of `pairs` in sequence order on top of
/// `m`. A later pair for an already-bound key overwrites the earlier binding
/// (last write wins).
pub open spec fn bind_all<K, A>(m: Map<K, A>, pairs: Seq<(K, A)>) -> Map<K, A>
    decreases pairs.len(),
{
    if pairs.len() == 0 {
        m
    } else {
        bind_all(m, pairs.drop_last()).insert(pairs.last().0, pairs.last().1)
    }
}

/// A sequence of (event, action) pairs with each event replaced by its view:
/// the form in which a bulk construction enters the registry's model.
pub open spec fn pair_views<E: View, A>(pairs: Seq<(E, A)>) -> Seq<(<E as View>::V, A)> {
    pairs.map_values(|p: (E, A)| (p.0@, p.1))
}

/// Binding the first `i + 1` pairs is binding the first `i` and then the
/// pair at `i`: the step a bulk constructor takes.
pub proof fn lemma_bind_all_take_step<K, A>(m: Map<K, A>, pairs: Seq<(K, A)>, i: int)
    requires
        0 <= i < pairs.len(),
    ensures
        bind_all(m, pairs.take(i + 1)) == bind_all(m, pairs.take(i)).insert(
            pairs[i].0,
            pairs[i].1,
        ),
{
    assert(pairs.take(i + 1).drop_last() =~= pairs.take(i));
    assert(pairs.take(i + 1).last() == pairs[i]);
}

} // verus!
