//! Tagged handles: an object key shifted left by `TAG_BITS` with a type tag
//! in the low bits, so that a handle of one kind is never taken for another.
use std::marker::PhantomData;
use vstd::prelude::*;

verus! {

/// The largest value a handle with `bits` tag bits can carry.
pub open spec fn max_value(bits: usize) -> usize {
    (!0usize) >> bits
}

/// The mask selecting the low `bits` bits.
pub open spec fn tag_mask(bits: usize) -> usize {
    ((1usize << bits) - 1usize) as usize
}

/// The raw word of the handle for `value` with tag `tag`.
pub open spec fn encode(value: usize, bits: usize, tag: usize) -> usize {
    (value << bits) | tag
}

/// Whether the tag fits in the tag bits, so that value and tag can be read back.
pub open spec fn tag_fits(bits: usize, tag: usize) -> bool {
    tag <= tag_mask(bits)
}

/// Errors when turning a raw word into a handle.
#[derive(Debug, Clone, Copy, PartialEq, Eq, Structural)]
pub enum HandleError {
    /// the low bits of the word do not hold the expected tag
    WrongTag,
}

pub struct Handle<FFI_STRUCT, const TAG_BITS: usize, const TAG: usize> {
    // least significant bits hold the tag
    // most significant bits hold the value
    raw: usize,
    _ffi_struct: PhantomData<FFI_STRUCT>,
}

impl<FFI_STRUCT, const TAG_BITS: usize, const TAG: usize> View for Handle<FFI_STRUCT, TAG_BITS, TAG> {
    type V = usize;

    closed spec fn view(&self) -> usize {
        self.raw
    }
}

impl<FFI_STRUCT, const TAG_BITS: usize, const TAG: usize> Handle<FFI_STRUCT, TAG_BITS, TAG> {
    /// Builds the handle for `value`; the value must fit above the tag bits.
    pub fn new(value: usize) -> (h: Self)
        requires
            TAG_BITS < usize::BITS,
            value <= max_value(TAG_BITS),
        ensures
            h@ == encode(value, TAG_BITS, TAG),
    {
        let raw = (value << TAG_BITS) | TAG;
        Handle { raw, _ffi_struct: PhantomData }
    }

    /// The value stored above the tag bits.
    pub fn value(&self) -> (v: usize)
        requires
            TAG_BITS < usize::BITS,
        ensures
            v == self@ >> TAG_BITS,
    {
        self.raw >> TAG_BITS
    }

    /// The tag stored in the low bits.
    pub fn tag(&self) -> (t: usize)
        requires
            TAG_BITS < usize::BITS,
        ensures
            t == self@ & tag_mask(TAG_BITS),
    {
        proof {
            lemma_shift_one_positive(TAG_BITS);
        }
        let mask: usize = (1usize << TAG_BITS) - 1usize;
        self.raw & mask
    }

    /// Accepts a raw word as a handle when its low bits hold this handle's tag.
    pub fn try_from_raw(raw: usize) -> (r: Result<Self, HandleError>)
        requires
            TAG_BITS < usize::BITS,
        ensures
            r is Ok <==> raw & tag_mask(TAG_BITS) == TAG,
            r matches Ok(h) ==> h@ == raw,
    {
        proof {
            lemma_shift_one_positive(TAG_BITS);
        }
        let mask: usize = (1usize << TAG_BITS) - 1usize;
        if raw & mask != TAG {
            Err(HandleError::WrongTag)
        } else {
            Ok(Handle { raw, _ffi_struct: PhantomData })
        }
    }

    /// The raw word, as handed across the C interface.
    pub fn raw(&self) -> (r: usize)
        ensures
            r == self@,
    {
        self.raw
    }

    /// Two handles are equal when their raw words are.
    pub fn equals(&self, other: &Self) -> (r: bool)
        ensures
            r == (self@ == other@),
    {
        self.raw == other.raw
    }
}

impl<FFI_STRUCT, const TAG_BITS: usize, const TAG: usize> Clone for Handle<FFI_STRUCT, TAG_BITS, TAG> {
    fn clone(&self) -> (r: Self)
        ensures
            r@ == self@,
    {
        Handle { raw: self.raw, _ffi_struct: PhantomData }
    }
}

impl<FFI_STRUCT, const TAG_BITS: usize, const TAG: usize> Copy for Handle<FFI_STRUCT, TAG_BITS, TAG> {}

/// Shifting one left by fewer bits than a word holds gives a nonzero word.
pub proof fn lemma_shift_one_positive(bits: usize)
    requires
        bits < usize::BITS,
    ensures
        1usize << bits >= 1usize,
{
    assert(1usize << bits >= 1usize) by (bit_vector)
        requires
            bits < usize::BITS;
}

/// Reading a fresh handle back gives the value and the tag it was built from,
/// as long as the tag fits in the tag bits.
pub proof fn lemma_encode_decode(value: usize, bits: usize, tag: usize)
    requires
        bits < usize::BITS,
        value <= max_value(bits),
        tag_fits(bits, tag),
    ensures
        encode(value, bits, tag) >> bits == value,
        encode(value, bits, tag) & tag_mask(bits) == tag,
{
    assert(((value << bits) | tag) >> bits == value && ((value << bits) | tag) & (((1usize << bits) - 1usize) as usize) == tag) by (bit_vector)
        requires
            bits < usize::BITS,
            value <= (!0usize) >> bits,
            tag <= (((1usize << bits) - 1usize) as usize);
}

/// Handles of distinct values carry distinct raw words.
pub proof fn lemma_encode_injective(v1: usize, v2: usize, bits: usize, tag: usize)
    requires
        bits < usize::BITS,
        v1 <= max_value(bits),
        v2 <= max_value(bits),
        tag_fits(bits, tag),
        v1 != v2,
    ensures
        encode(v1, bits, tag) != encode(v2, bits, tag),
{
    lemma_encode_decode(v1, bits, tag);
    lemma_encode_decode(v2, bits, tag);
}

/// A handle built by `new` is accepted back by `try_from_raw` with the same raw word.
pub proof fn lemma_new_round_trips(value: usize, bits: usize, tag: usize)
    requires
        bits < usize::BITS,
        value <= max_value(bits),
        tag_fits(bits, tag),
    ensures
        encode(value, bits, tag) & tag_mask(bits) == tag,
{
    lemma_encode_decode(value, bits, tag);
}

/// A handle of one kind is never taken for a handle of another: the raw word
/// of a handle built with one tag does not hold any other tag.
pub proof fn lemma_tags_distinguish(value: usize, bits: usize, tag: usize, other: usize)
    requires
        bits < usize::BITS,
        value <= max_value(bits),
        tag_fits(bits, tag),
        tag != other,
    ensures
        encode(value, bits, tag) & tag_mask(bits) != other,
{
    lemma_encode_decode(value, bits, tag);
}

} // verus!
