//! Facts about ordered keys of std's ordered collections.
use std::collections::BTreeMap;
use vstd::prelude::*;
use vstd::std_specs::cmp::OrdSpec;
use vstd::std_specs::iter::IteratorSpec;

verus! {

/// Whether a key type's `Ord` is a lawful total order (as it is for integers),
/// which std's ordered collections rely on.
pub open spec fn lawful_order<K: Ord>() -> bool {
    vstd::laws_cmp::obeys_cmp::<K>()
}

/// Looks a key up for in-place update.
///
/// Trusted: calls `BTreeMap::get_mut`, which per the std documentation returns a
/// mutable reference to the value under the key, or `None` when the key is absent
/// (for keys whose `Ord` is a lawful total order, as for integers).
#[verifier::external_body]
pub(crate) fn btree_get_mut<'a, K: Ord, V>(m: &'a mut BTreeMap<K, V>, k: &K) -> (r: Option<&'a mut V>)
    ensures
        lawful_order::<K>() ==> match r {
            Some(v) => {
                &&& old(m)@.contains_key(*k)
                &&& *v == old(m)@[*k]
                &&& final(m)@ == old(m)@.insert(*k, *final(v))
            },
            None => {
                &&& !old(m)@.contains_key(*k)
                &&& final(m)@ == old(m)@
            },
        },
{
    m.get_mut(k)
}

/// Whether `a` comes before `b` in the order of their type's `Ord`.
spec fn comes_before<A: Ord>(a: &A, b: &A) -> bool {
    a.cmp_spec(b) is Less
}

/// A sequence of `i64` keys that std's ordered collections call increasing is
/// strictly increasing.
proof fn lemma_increasing_keys(keys: Seq<&i64>)
    requires
        vstd::std_specs::btree::increasing_seq(keys),
    ensures
        forall|i: int, j: int| 0 <= i < j < keys.len() ==> *keys[i] < *keys[j],
{
    broadcast use vstd::std_specs::btree::group_btree_axioms;
    vstd::std_specs::btree::axiom_increasing_seq_meaning(keys);
    assert forall|i: int, j: int| 0 <= i < j < keys.len() implies *keys[i] < *keys[j] by {
        assert(comes_before::<&i64>(&keys[i], &keys[j]));
    }
}

/// The keys of a map keyed by `i64`, in increasing order.
pub fn sorted_keys<V>(m: &BTreeMap<i64, V>) -> (r: Vec<i64>)
    ensures
        r@.to_set() == m@.dom(),
        r@.len() == m@.dom().len(),
        forall|i: int, j: int| 0 <= i < j < r@.len() ==> #[trigger] r@[i] < #[trigger] r@[j],
{
    broadcast use vstd::std_specs::btree::group_btree_axioms;
    let ghost keys = vstd::std_specs::btree::spec_keys_iter(m).remaining();
    proof {
        vstd::std_specs::btree::axiom_spec_keys_iter(m);
        lemma_increasing_keys(keys);
    }
    let mut r: Vec<i64> = Vec::new();
    for x in it: m.keys()
        invariant
            it.seq() == keys,
            r@ == keys.take(it.index()).map_values(|k: &i64| *k),
    {
        r.push(*x);
    }
    proof {
        assert(r@ =~= keys.map_values(|k: &i64| *k));
        assert(keys.unref() =~= keys.map_values(|k: &i64| *k));
    }
    r
}

} // verus!
