//! Growth policy: the capacity an array jumps to when a write lands at or
//! beyond the current capacity.
//!
//! The formula multiplies the current capacity by [`GROWTH_FACTOR`] and then
//! by however many such steps it takes to pass the target index, so a single
//! reallocation reaches indices arbitrarily far beyond the current capacity.

use vstd::prelude::*;

verus! {

use vstd::arithmetic::div_mod::lemma_div_pos_is_pos;
use vstd::arithmetic::div_mod::lemma_fundamental_div_mod;
use vstd::arithmetic::div_mod::lemma_mod_division_less_than_divisor;
use vstd::arithmetic::mul::lemma_mul_is_distributive_add;
use vstd::arithmetic::mul::lemma_mul_nonnegative;

/// Fixed multiplier of the growth formula.
pub const GROWTH_FACTOR: i64 = 2;

/// The capacity reached by one application of the growth formula:
/// `step = capacity * GROWTH_FACTOR`, then
/// `step * (index / step + 1)`, i.e. the smallest multiple of `step` that
/// lies strictly beyond `index`.
pub open spec fn grown_capacity(capacity: int, index: int) -> int {
    let step = capacity * GROWTH_FACTOR;
    step * (index / step + 1)
}

/// The capacity an array holds after a write at `index`: unchanged when the
/// index already lies within it, and [`grown_capacity`] otherwise.
pub open spec fn capacity_after_set(capacity: int, index: int) -> int {
    if index < capacity {
        capacity
    } else {
        grown_capacity(capacity, index)
    }
}

/// One application of the growth formula always overtakes the target index,
/// however far the index lies beyond the current capacity, while overshooting
/// it by at most one doubled capacity; so growing never needs to be repeated,
/// and a write triggers at most one reallocation.
pub proof fn lemma_grown_capacity_bounds(capacity: int, index: int)
    requires
        1 <= capacity,
        0 <= index,
    ensures
        index < grown_capacity(capacity, index),
        grown_capacity(capacity, index) <= index + capacity * GROWTH_FACTOR,
        capacity < grown_capacity(capacity, index),
{
    let step = capacity * GROWTH_FACTOR;
    let quotient = index / step;
    lemma_fundamental_div_mod(index, step);
    lemma_mod_division_less_than_divisor(index, step);
    lemma_div_pos_is_pos(index, step);
    lemma_mul_nonnegative(step, quotient);
    lemma_mul_is_distributive_add(step, quotient, 1);
}

} // verus!
