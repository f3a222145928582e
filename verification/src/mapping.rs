//! The mapped memory region that backs the register block.

use memmap::MmapMut;
use vstd::prelude::*;

verus! {

/// `memmap::MmapMut`, a writable memory map. Nothing inside it is visible
/// here: what it maps is spoken of through [`mapped_bytes`].
#[verifier::external_type_specification]
#[verifier::external_body]
pub struct ExMmapMut(memmap::MmapMut);

/// The bytes of the region that `map` maps, in address order: what the byte
/// slice over the region holds.
///
/// The region is taken as memory that changes only through the map. Where
/// a device stands behind it, what is proved describes the accesses that
/// are made, not what the device does between them.
pub uninterp spec fn mapped_bytes(map: MmapMut) -> Seq<u8>;

/// `<memmap::MmapMut as Deref>::deref`: the mapped region as a byte slice.
#[verifier::external_body]
pub(crate) fn bytes(map: &MmapMut) -> (region: &[u8])
    ensures
        region@ == mapped_bytes(*map),
{
    std::ops::Deref::deref(map)
}

/// `<memmap::MmapMut as DerefMut>::deref_mut`: the mapped region as a
/// mutable byte slice. Whatever the slice holds when the borrow ends is what
/// the region holds; a slice keeps its length, so the region does. The
/// outside function only forms the slice from the map's address and length
/// and cannot panic.
#[verifier::external_body]
pub(crate) fn bytes_mut(map: &mut MmapMut) -> (region: &mut [u8])
    ensures
        region@ == mapped_bytes(*old(map)),
        mapped_bytes(*final(map)) == final(region)@,
        mapped_bytes(*final(map)).len() == mapped_bytes(*old(map)).len(),
    no_unwind
{
    std::ops::DerefMut::deref_mut(map)
}

} // verus!
