//! Layout calculator: the byte size and alignment of the block that backs an
//! array.
//!
//! A backing block holds a small fixed header followed by `capacity`
//! contiguous fixed-width integer slots; header and slots share one
//! allocation.  A layout exists only when its byte size fits the address
//! space, i.e. stays within `usize::MAX`.

use vstd::prelude::*;

verus! {

use vstd::arithmetic::div_mod::lemma_fundamental_div_mod;
use vstd::arithmetic::div_mod::lemma_mod_division_less_than_divisor;

/// Bytes taken by the fixed header that precedes the slots.
pub const HEADER_BYTES: usize = 8;

/// Bytes taken by one fixed-width integer slot.
pub const SLOT_BYTES: usize = 8;

/// Alignment of the whole block: that of the integer slot type.
pub const SLOT_ALIGN: usize = 8;

/// Whether a block of `capacity` slots (plus the header) has a byte size
/// that fits the address space.
pub open spec fn spec_layout_fits(capacity: int) -> bool {
    HEADER_BYTES + capacity * SLOT_BYTES <= usize::MAX
}

/// A layout fits exactly when the capacity stays at or below the largest
/// capacity the address space can back,
/// `(usize::MAX - HEADER_BYTES) / SLOT_BYTES`.
pub proof fn lemma_layout_fits_iff_below_limit(capacity: int)
    requires
        0 <= capacity,
    ensures
        spec_layout_fits(capacity) <==> capacity <= (usize::MAX - HEADER_BYTES) / (
        SLOT_BYTES as int),
{
    let room = usize::MAX - HEADER_BYTES;
    lemma_fundamental_div_mod(room, SLOT_BYTES as int);
    lemma_mod_division_less_than_divisor(room, SLOT_BYTES as int);
}

} // verus!
