//! Storage for the objects handed across the C interface, keyed by tagged handles.
use std::collections::BTreeMap;
use std::marker::PhantomData;
use vstd::prelude::*;

use crate::ffi::handle::{encode, lemma_encode_decode, lemma_encode_injective, max_value, tag_fits, Handle};
use crate::object_map::{inserts_before, lemma_inserts_before_monotone};
use crate::order::btree_get_mut;

verus! {

broadcast use vstd::std_specs::btree::group_btree_axioms;

/// Errors of the handle-keyed object map.
#[derive(Debug, Clone, Copy, PartialEq, Eq, Structural)]
pub enum ObjectMapError {
    /// no object is stored under the handle with this raw word
    NoObject { handle: usize },
}

/// Every key carries (above its tag bits) a value below `counter`.
pub open spec fn keys_below(keys: Set<usize>, bits: usize, counter: usize) -> bool {
    forall|k: usize| #[trigger] keys.contains(k) ==> (k >> bits) < counter
}

pub struct ObjectMap<T, FFI_STRUCT, const TAG_BITS: usize, const TAG: usize> {
    // keyed by the handles' raw words, which order handles as handles order themselves
    map: Option<BTreeMap<usize, T>>,
    counter: usize,
    _ffi_struct: PhantomData<FFI_STRUCT>,
}

impl<T, FFI_STRUCT, const TAG_BITS: usize, const TAG: usize> View for ObjectMap<T, FFI_STRUCT, TAG_BITS, TAG> {
    /// The stored objects, by the raw word of their handle.
    type V = Map<usize, T>;

    closed spec fn view(&self) -> Map<usize, T> {
        match self.map {
            Some(m) => m@,
            None => Map::empty(),
        }
    }
}

impl<T, FFI_STRUCT, const TAG_BITS: usize, const TAG: usize> ObjectMap<T, FFI_STRUCT, TAG_BITS, TAG> {
    /// The value the next inserted object's handle carries.
    pub closed spec fn counter(&self) -> usize {
        self.counter
    }

    /// Every stored handle carries a value handed out before (when the tag fits
    /// in the tag bits, so that values can be read back).
    pub closed spec fn wf(&self) -> bool {
        &&& self.counter >= 1
        &&& tag_fits(TAG_BITS, TAG) ==> keys_below(self@.dom(), TAG_BITS, self.counter)
    }

    pub fn new() -> (m: Self)
        ensures
            m.wf(),
            m@ == Map::<usize, T>::empty(),
            m.counter() == 1,
    {
        Self { map: None, counter: 1usize, _ffi_struct: PhantomData }
    }

    /// The value the next `insert` hands out.
    pub fn next_value(&self) -> (c: usize)
        ensures
            c == self.counter(),
    {
        self.counter
    }

    fn increment_counter(&mut self) -> (key: usize)
        requires
            old(self).counter < usize::MAX,
        ensures
            key == old(self).counter,
            final(self).counter == old(self).counter + 1,
            final(self).map == old(self).map,
    {
        let key = self.counter;
        self.counter += 1usize;
        key
    }

    /// Stores `value` under a new handle carrying the counter's value.
    pub fn insert(&mut self, value: T) -> (h: Handle<FFI_STRUCT, TAG_BITS, TAG>)
        requires
            TAG_BITS < usize::BITS,
            old(self).wf(),
            old(self).counter() < usize::MAX,
            old(self).counter() <= max_value(TAG_BITS),
        ensures
            final(self).wf(),
            h@ == encode(old(self).counter(), TAG_BITS, TAG),
            final(self).counter() == old(self).counter() + 1,
            tag_fits(TAG_BITS, TAG) ==> !old(self)@.contains_key(h@),
            final(self)@ == old(self)@.insert(h@, value),
    {
        let key_raw = self.increment_counter();
        let key: Handle<FFI_STRUCT, TAG_BITS, TAG> = Handle::new(key_raw);
        proof {
            if tag_fits(TAG_BITS, TAG) {
                lemma_encode_decode(key_raw, TAG_BITS, TAG);
            }
        }
        let raw = key.raw();
        match &mut self.map {
            Some(map) => {
                map.insert(raw, value);
            },
            None => {
                let mut map = BTreeMap::new();
                map.insert(raw, value);
                self.map = Some(map);
            },
        }
        proof {
            if tag_fits(TAG_BITS, TAG) {
                assert forall|k: usize| #[trigger] self@.contains_key(k) implies (k >> TAG_BITS) < self.counter by {
                    if k != raw {
                        assert(old(self)@.contains_key(k));
                    }
                }
            }
        }
        key
    }

    pub fn remove(&mut self, key: &Handle<FFI_STRUCT, TAG_BITS, TAG>) -> (r: Result<T, ObjectMapError>)
        requires
            old(self).wf(),
        ensures
            final(self).wf(),
            final(self).counter() == old(self).counter(),
            final(self)@ == old(self)@.remove(key@),
            match r {
                Ok(v) => old(self)@.contains_key(key@) && v == old(self)@[key@],
                Err(e) => !old(self)@.contains_key(key@) && e == (ObjectMapError::NoObject { handle: key@ }),
            },
    {
        let raw = key.raw();
        let result = match &mut self.map {
            Some(map) => map.remove(&raw),
            None => None,
        };
        proof {
            if tag_fits(TAG_BITS, TAG) {
                assert forall|k: usize| #[trigger] self@.contains_key(k) implies (k >> TAG_BITS) < self.counter by {
                    assert(old(self)@.contains_key(k));
                }
            }
        }
        match result {
            Some(v) => Ok(v),
            None => Err(ObjectMapError::NoObject { handle: raw }),
        }
    }

    pub fn get(&self, key: &Handle<FFI_STRUCT, TAG_BITS, TAG>) -> (r: Result<&T, ObjectMapError>)
        ensures
            match r {
                Ok(v) => self@.contains_key(key@) && *v == self@[key@],
                Err(e) => !self@.contains_key(key@) && e == (ObjectMapError::NoObject { handle: key@ }),
            },
    {
        let raw = key.raw();
        let result = match &self.map {
            Some(map) => map.get(&raw),
            None => None,
        };
        match result {
            Some(v) => Ok(v),
            None => Err(ObjectMapError::NoObject { handle: raw }),
        }
    }

    pub fn get_mut(&mut self, key: &Handle<FFI_STRUCT, TAG_BITS, TAG>) -> (r: Result<&mut T, ObjectMapError>)
        requires
            old(self).wf(),
        ensures
            final(self)@.dom() == old(self)@.dom(),
            final(self).wf(),
            final(self).counter() == old(self).counter(),
            match r {
                Ok(v) => {
                    &&& old(self)@.contains_key(key@)
                    &&& *v == old(self)@[key@]
                    &&& final(self)@ == old(self)@.insert(key@, *final(v))
                },
                Err(e) => {
                    &&& !old(self)@.contains_key(key@)
                    &&& final(self)@ == old(self)@
                    &&& e == (ObjectMapError::NoObject { handle: key@ })
                },
            },
    {
        let raw = key.raw();
        let result = match &mut self.map {
            Some(map) => btree_get_mut(map, &raw),
            None => None,
        };
        match result {
            Some(v) => Ok(v),
            None => Err(ObjectMapError::NoObject { handle: raw }),
        }
    }
}

/// The handle the next `insert` hands out is not in use.
pub proof fn lemma_next_handle_unused<T, FFI_STRUCT, const TAG_BITS: usize, const TAG: usize>(
    m: ObjectMap<T, FFI_STRUCT, TAG_BITS, TAG>,
)
    requires
        m.wf(),
        TAG_BITS < usize::BITS,
        tag_fits(TAG_BITS, TAG),
        m.counter() <= max_value(TAG_BITS),
    ensures
        !m@.contains_key(encode(m.counter(), TAG_BITS, TAG)),
{
    lemma_encode_decode(m.counter(), TAG_BITS, TAG);
}

/// Removing the handle an `insert` handed out gives back the stored object
/// and leaves the map as it was before the insert.
pub proof fn law_remove_undoes_insert<T, FFI_STRUCT, const TAG_BITS: usize, const TAG: usize>(
    before: ObjectMap<T, FFI_STRUCT, TAG_BITS, TAG>,
    inserted: ObjectMap<T, FFI_STRUCT, TAG_BITS, TAG>,
    removed: ObjectMap<T, FFI_STRUCT, TAG_BITS, TAG>,
    value: T,
)
    requires
        before.wf(),
        TAG_BITS < usize::BITS,
        tag_fits(TAG_BITS, TAG),
        before.counter() <= max_value(TAG_BITS),
        inserted@ == before@.insert(encode(before.counter(), TAG_BITS, TAG), value),
        removed@ == inserted@.remove(encode(before.counter(), TAG_BITS, TAG)),
    ensures
        inserted@[encode(before.counter(), TAG_BITS, TAG)] == value,
        removed@ == before@,
{
    lemma_next_handle_unused(before);
    assert(removed@ =~= before@);
}

/// A history of a handle map: `states[i + 1]` follows `states[i]` by an
/// insert that handed out the handle with raw word `steps[i]`, as `insert`
/// says, or, where `steps[i]` is `None`, by a `remove`, `get` or `get_mut`,
/// which keep the counter and add no handle.
pub open spec fn handle_map_history<T, FFI_STRUCT, const TAG_BITS: usize, const TAG: usize>(
    states: Seq<ObjectMap<T, FFI_STRUCT, TAG_BITS, TAG>>,
    steps: Seq<Option<usize>>,
) -> bool {
    &&& states.len() == steps.len() + 1
    &&& forall|i: int| 0 <= i < states.len() ==> #[trigger] states[i].wf()
    &&& forall|i: int| #![trigger steps[i]] 0 <= i < steps.len() ==> match steps[i] {
        Some(raw) => {
            &&& states[i].counter() <= max_value(TAG_BITS)
            &&& raw == encode(states[i].counter(), TAG_BITS, TAG)
            &&& states[i + 1].counter() == states[i].counter() + 1
            &&& states[i + 1]@.dom() == states[i]@.dom().insert(raw)
        },
        None => {
            &&& states[i + 1].counter() == states[i].counter()
            &&& states[i + 1]@.dom().subset_of(states[i]@.dom())
        },
    }
}

/// Over any history that starts from a new map, the n-th insert hands out the
/// handle carrying the value n (counting from one), whatever was removed in
/// between: handles are never handed out twice, and a handle handed out is
/// never one in use.
pub proof fn law_handles_count_up<T, FFI_STRUCT, const TAG_BITS: usize, const TAG: usize>(
    states: Seq<ObjectMap<T, FFI_STRUCT, TAG_BITS, TAG>>,
    steps: Seq<Option<usize>>,
)
    requires
        handle_map_history(states, steps),
        states[0].counter() == 1,
        TAG_BITS < usize::BITS,
        tag_fits(TAG_BITS, TAG),
    ensures
        forall|i: int| #![trigger steps[i]] 0 <= i < steps.len() ==> (steps[i] matches Some(raw) ==> {
            &&& raw >> TAG_BITS == inserts_before(steps, i) + 1
            &&& !states[i]@.contains_key(raw)
        }),
        forall|i: int, j: int| 0 <= i < j < steps.len() ==> (#[trigger] steps[i] matches Some(a) ==> (#[trigger] steps[j] matches Some(b) ==> a != b)),
{
    lemma_handle_counters(states, steps, states.len() - 1);
    assert forall|i: int| #![trigger steps[i]] 0 <= i < steps.len() implies (steps[i] matches Some(raw) ==> {
        &&& raw >> TAG_BITS == inserts_before(steps, i) + 1
        &&& !states[i]@.contains_key(raw)
    }) by {
        if steps[i] is Some {
            assert(states[i].counter() == inserts_before(steps, i) + 1);
            assert(states[i].wf());
            lemma_next_handle_unused(states[i]);
            lemma_encode_decode(states[i].counter(), TAG_BITS, TAG);
        }
    }
    assert forall|i: int, j: int| 0 <= i < j < steps.len() implies (#[trigger] steps[i] matches Some(a) ==> (#[trigger] steps[j] matches Some(b) ==> a != b)) by {
        if steps[i] is Some && steps[j] is Some {
            lemma_inserts_before_monotone(steps, i + 1, j);
            assert(states[i].counter() == inserts_before(steps, i) + 1);
            assert(states[j].counter() == inserts_before(steps, j) + 1);
            lemma_encode_injective(states[i].counter(), states[j].counter(), TAG_BITS, TAG);
        }
    }
}

proof fn lemma_handle_counters<T, FFI_STRUCT, const TAG_BITS: usize, const TAG: usize>(
    states: Seq<ObjectMap<T, FFI_STRUCT, TAG_BITS, TAG>>,
    steps: Seq<Option<usize>>,
    n: int,
)
    requires
        handle_map_history(states, steps),
        states[0].counter() == 1,
        0 <= n < states.len(),
    ensures
        forall|i: int| 0 <= i <= n ==> #[trigger] states[i].counter() == inserts_before(steps, i) + 1,
    decreases n,
{
    if n > 0 {
        lemma_handle_counters(states, steps, n - 1);
        assert(steps[n - 1] == steps[n - 1]);
    }
}

} // verus!
