//! Tagged pointers: the low three bits of an aligned address carry a tag.
use vstd::prelude::*;

verus! {

/// The tag stored in the low three bits of `ptr`.
pub open spec fn tag_of(ptr: usize) -> u8 {
    (ptr % 8) as u8
}

/// `ptr` with its tag bits cleared.
pub open spec fn untagged(ptr: usize) -> usize {
    (ptr - ptr % 8) as usize
}

/// Reads the tag of a tagged pointer.
pub fn get_tag(ptr: usize) -> (tag: u8)
    ensures
        tag == tag_of(ptr),
        tag < 8,
{
    let tag = ptr as u8 & 0x07;
    assert(ptr as u8 & 0x07 == (ptr % 8) as u8) by (bit_vector);
    tag
}

/// Clears the tag bits of a tagged pointer.
pub fn remove_tag(ptr: usize) -> (addr: usize)
    ensures
        addr == untagged(ptr),
        addr % 8 == 0,
        addr <= ptr,
{
    // All bits but the three tag bits: 0xFFFF_FFFF_FFFF_FFF8 on a 64-bit target.
    let addr = ptr & !7usize;
    assert(ptr & !7usize == ptr - ptr % 8) by (bit_vector);
    addr
}

/// A pointer is its untagged address plus its tag.
pub proof fn lemma_tag_split(ptr: usize)
    ensures
        untagged(ptr) + tag_of(ptr) == ptr,
        untagged(ptr) % 8 == 0,
        tag_of(ptr) < 8,
{
}

/// Clearing the tag twice is clearing it once, and an untagged address
/// carries tag zero.
pub proof fn lemma_untagged_idempotent(ptr: usize)
    ensures
        untagged(untagged(ptr)) == untagged(ptr),
        tag_of(untagged(ptr)) == 0,
{
}

/// Tagging an aligned address with a tag below eight and reading it back
/// gives the address and the tag again.
pub proof fn lemma_tag_roundtrip(base: usize, tag: usize)
    requires
        base % 8 == 0,
        tag < 8,
        base + tag <= usize::MAX,
    ensures
        tag_of((base + tag) as usize) == tag,
        untagged((base + tag) as usize) == base,
{
}

} // verus!
