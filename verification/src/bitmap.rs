//! Trusted boundary to the `roaring` bitmap.
//!
//! Change tracking keeps sets of 32-bit indices in compressed bitmaps. The
//! bitmap type is declared opaque; one name, [`bitmap_set`], stands for
//! what a bitmap holds, and each wrapped method says what it does to that
//! set, as the crate's source shows.

use vstd::prelude::*;

verus! {

#[verifier::external_type_specification]
#[verifier::external_body]
pub struct ExRoaringBitmap(roaring::RoaringBitmap);

/// The set of values a bitmap holds.
pub uninterp spec fn bitmap_set(b: roaring::RoaringBitmap) -> Set<u32>;

/// Relies on roaring's RoaringBitmap::new: a fresh bitmap holds nothing.
#[verifier::external_body]
pub fn bitmap_new() -> (r: roaring::RoaringBitmap)
    ensures
        bitmap_set(r) == Set::<u32>::empty(),
{
    roaring::RoaringBitmap::new()
}

/// Relies on roaring's RoaringBitmap::insert: adds the value, and reports
/// whether it was absent.
#[verifier::external_body]
pub fn bitmap_insert(b: &mut roaring::RoaringBitmap, value: u32) -> (r: bool)
    ensures
        bitmap_set(*final(b)) == bitmap_set(*old(b)).insert(value),
        r == !bitmap_set(*old(b)).contains(value),
{
    b.insert(value)
}

/// Relies on roaring's RoaringBitmap::clear: empties the bitmap.
#[verifier::external_body]
pub fn bitmap_clear(b: &mut roaring::RoaringBitmap)
    ensures
        bitmap_set(*final(b)) == Set::<u32>::empty(),
{
    b.clear()
}

} // verus!
