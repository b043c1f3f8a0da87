//! A map that stores objects under keys it hands out itself, counting up from one.
use std::collections::BTreeMap;
use vstd::prelude::*;

use crate::order::btree_get_mut;

verus! {

broadcast use vstd::std_specs::btree::group_btree_axioms;

pub struct ObjectMap<T> {
    map: Option<BTreeMap<usize, T>>,
    counter: usize,
}

impl<T> View for ObjectMap<T> {
    type V = Map<usize, T>;

    closed spec fn view(&self) -> Map<usize, T> {
        match self.map {
            Some(m) => m@,
            None => Map::empty(),
        }
    }
}

impl<T> ObjectMap<T> {
    /// The key the next `insert` hands out.
    pub closed spec fn counter(&self) -> usize {
        self.counter
    }

    /// Every stored key was handed out before: it lies between one and the counter.
    pub closed spec fn wf(&self) -> bool {
        &&& self.counter >= 1
        &&& forall|k: usize| #[trigger] self@.contains_key(k) ==> 1 <= k < self.counter
    }

    pub fn new() -> (m: Self)
        ensures
            m.wf(),
            m@ == Map::<usize, T>::empty(),
            m.counter() == 1,
    {
        Self { map: None, counter: 1usize }
    }

    /// The value the next `insert` hands out.
    pub fn next_value(&self) -> (c: usize)
        ensures
            c == self.counter(),
    {
        self.counter
    }

    fn next_key(&mut self) -> (key: usize)
        requires
            old(self).counter < usize::MAX,
        ensures
            key == old(self).counter,
            final(self).counter == old(self).counter + 1,
            final(self).map == old(self).map,
    {
        let key = self.counter;
        self.counter += 1usize;
        key
    }

    pub fn remove(&mut self, key: &usize) -> (r: Option<T>)
        requires
            old(self).wf(),
        ensures
            final(self).wf(),
            final(self).counter() == old(self).counter(),
            final(self)@ == old(self)@.remove(*key),
            match r {
                Some(v) => old(self)@.contains_key(*key) && v == old(self)@[*key],
                None => !old(self)@.contains_key(*key),
            },
    {
        let r = match &mut self.map {
            Some(map) => map.remove(key),
            None => None,
        };
        assert forall|k: usize| #[trigger] self@.contains_key(k) implies 1 <= k < self.counter by {
            assert(old(self)@.contains_key(k));
        }
        r
    }

    pub fn insert(&mut self, val: T) -> (key: usize)
        requires
            old(self).wf(),
            old(self).counter() < usize::MAX,
        ensures
            final(self).wf(),
            key == old(self).counter(),
            final(self).counter() == old(self).counter() + 1,
            !old(self)@.contains_key(key),
            final(self)@ == old(self)@.insert(key, val),
    {
        let key = self.next_key();
        assert(!old(self)@.contains_key(key));
        match &mut self.map {
            Some(map) => {
                let prev = map.insert(key, val);
                assert(prev is None);
            },
            None => {
                let mut map = BTreeMap::new();
                map.insert(key, val);
                self.map = Some(map);
            },
        }
        key
    }

    pub fn get(&self, key: &usize) -> (r: Option<&T>)
        ensures
            match r {
                Some(v) => self@.contains_key(*key) && *v == self@[*key],
                None => !self@.contains_key(*key),
            },
    {
        match &self.map {
            Some(map) => map.get(key),
            None => None,
        }
    }

    pub fn get_mut(&mut self, key: &usize) -> (r: Option<&mut T>)
        requires
            old(self).wf(),
        ensures
            final(self)@.dom() == old(self)@.dom(),
            final(self).wf(),
            final(self).counter() == old(self).counter(),
            match r {
                Some(v) => {
                    &&& old(self)@.contains_key(*key)
                    &&& *v == old(self)@[*key]
                    &&& final(self)@ == old(self)@.insert(*key, *final(v))
                },
                None => {
                    &&& !old(self)@.contains_key(*key)
                    &&& final(self)@ == old(self)@
                },
            },
    {
        let r = match &mut self.map {
            Some(map) => btree_get_mut(map, key),
            None => None,
        };
        r
    }
}

/// The key the next `insert` hands out is not in use.
pub proof fn lemma_next_key_unused<T>(m: ObjectMap<T>)
    requires
        m.wf(),
    ensures
        !m@.contains_key(m.counter()),
{
}

/// Removing the key an `insert` handed out gives back the stored object and
/// leaves the map as it was before the insert.
pub proof fn law_remove_undoes_insert<T>(before: ObjectMap<T>, inserted: ObjectMap<T>, removed: ObjectMap<T>, key: usize, value: T)
    requires
        before.wf(),
        key == before.counter(),
        inserted@ == before@.insert(key, value),
        removed@ == inserted@.remove(key),
    ensures
        inserted@.contains_key(key),
        inserted@[key] == value,
        removed@ == before@,
{
    assert(removed@ =~= before@);
}

/// The number of inserts among the first `i` steps of a history, a step being
/// `Some` of the key an insert handed out, or `None` for any other call.
pub open spec fn inserts_before(steps: Seq<Option<usize>>, i: int) -> nat
    decreases i,
{
    if i <= 0 {
        0
    } else {
        inserts_before(steps, i - 1) + if steps[i - 1] is Some { 1nat } else { 0nat }
    }
}

/// The count of inserts never falls as the history goes on.
pub proof fn lemma_inserts_before_monotone(steps: Seq<Option<usize>>, i: int, j: int)
    requires
        0 <= i <= j,
    ensures
        inserts_before(steps, i) <= inserts_before(steps, j),
    decreases j - i,
{
    if i < j {
        lemma_inserts_before_monotone(steps, i, j - 1);
    }
}

/// A history of a map: `states[i + 1]` follows `states[i]` by an insert that
/// handed out `steps[i]`, as `insert` says, or, where `steps[i]` is `None`, by
/// a `remove`, `get` or `get_mut`, which keep the counter and add no key.
pub open spec fn map_history<T>(states: Seq<ObjectMap<T>>, steps: Seq<Option<usize>>) -> bool {
    &&& states.len() == steps.len() + 1
    &&& forall|i: int| 0 <= i < states.len() ==> #[trigger] states[i].wf()
    &&& forall|i: int| #![trigger steps[i]] 0 <= i < steps.len() ==> match steps[i] {
        Some(k) => {
            &&& k == states[i].counter()
            &&& states[i + 1].counter() == states[i].counter() + 1
            &&& states[i + 1]@.dom() == states[i]@.dom().insert(k)
        },
        None => {
            &&& states[i + 1].counter() == states[i].counter()
            &&& states[i + 1]@.dom().subset_of(states[i]@.dom())
        },
    }
}

/// Over any history that starts from a new map, the n-th insert hands out the
/// key n (counting from one), whatever was removed in between: keys are never
/// handed out twice, and a key handed out is never one in use.
pub proof fn law_keys_count_up<T>(states: Seq<ObjectMap<T>>, steps: Seq<Option<usize>>)
    requires
        map_history(states, steps),
        states[0].counter() == 1,
    ensures
        forall|i: int| 0 <= i < states.len() ==> #[trigger] states[i].counter() == inserts_before(steps, i) + 1,
        forall|i: int| #![trigger steps[i]] 0 <= i < steps.len() ==> (steps[i] matches Some(k) ==> {
            &&& k == inserts_before(steps, i) + 1
            &&& !states[i]@.contains_key(k)
        }),
        forall|i: int, j: int| 0 <= i < j < steps.len() ==> (#[trigger] steps[i] matches Some(a) ==> (#[trigger] steps[j] matches Some(b) ==> a < b)),
{
    lemma_counters(states, steps, states.len() - 1);
    assert forall|i: int, j: int| 0 <= i < j < steps.len() implies (#[trigger] steps[i] matches Some(a) ==> (#[trigger] steps[j] matches Some(b) ==> a < b)) by {
        lemma_inserts_before_monotone(steps, i + 1, j);
        assert(states[i].counter() == inserts_before(steps, i) + 1);
        assert(states[j].counter() == inserts_before(steps, j) + 1);
    }
    assert forall|i: int| #![trigger steps[i]] 0 <= i < steps.len() implies (steps[i] matches Some(k) ==> {
        &&& k == inserts_before(steps, i) + 1
        &&& !states[i]@.contains_key(k)
    }) by {
        assert(states[i].counter() == inserts_before(steps, i) + 1);
        assert(states[i].wf());
    }
}

proof fn lemma_counters<T>(states: Seq<ObjectMap<T>>, steps: Seq<Option<usize>>, n: int)
    requires
        map_history(states, steps),
        states[0].counter() == 1,
        0 <= n < states.len(),
    ensures
        forall|i: int| 0 <= i <= n ==> #[trigger] states[i].counter() == inserts_before(steps, i) + 1,
    decreases n,
{
    if n > 0 {
        lemma_counters(states, steps, n - 1);
        assert(steps[n - 1] == steps[n - 1]);
    }
}

} // verus!
