//! The growable array itself: construction, growth-on-demand, and the
//! indexed accessors.
//!
//! Reads are bounds-checked against the logical `length`, not the allocated
//! `capacity`; writes grow the backing block as needed, so a write never
//! fails for a nonnegative index short of exhausting the address space.

use vstd::prelude::*;

verus! {

use crate::growth;
use crate::growth::GROWTH_FACTOR;
use crate::layout;
use crate::layout::HEADER_BYTES;
use crate::layout::SLOT_ALIGN;
use crate::layout::SLOT_BYTES;
use vstd::arithmetic::div_mod::lemma_div_nonincreasing;
use vstd::arithmetic::mul::lemma_mul_upper_bound;

/// Capacity chosen by construction when the size hint is not positive.
pub const DEFAULT_CAPACITY: i64 = 8;

/// Tag identifying the logical type of the stored elements.  The fixed-width
/// integer kind is the single variant this array supports; the tag is stored
/// verbatim and reported, never branched on.
#[derive(Clone, Copy, PartialEq, Eq, Structural, Debug)]
pub enum BalType {
    Int,
}

/// The failures that the checked entry points report.
#[derive(Clone, Copy, PartialEq, Eq, Structural, Debug)]
pub enum ArrayError {
    /// A read targeted an index at or beyond the logical length, or an
    /// access targeted a negative index.
    IndexOutOfRange,
    /// A write targeted an index so far out that the grown block's byte size
    /// would overflow the address space.
    Overflow,
}

/// The capacity construction chooses for a size hint: the hint itself when
/// positive, [`DEFAULT_CAPACITY`] otherwise.
pub open spec fn spec_initial_capacity(size: i64) -> int {
    if size > 0 {
        size as int
    } else {
        DEFAULT_CAPACITY as int
    }
}

/// A growable array of `i64` slots: an exclusively owned, contiguous,
/// zero-initialized block of `capacity` slots, of which the first `length`
/// are logically populated.
pub struct DynamicBalArray {
    inherent_type: BalType,
    length: i64,
    capacity: i64,
    values: Vec<i64>,
}

impl View for DynamicBalArray {
    type V = Seq<i64>;

    /// The contents of every allocated slot, written or not.
    closed spec fn view(&self) -> Seq<i64> {
        self.values@
    }
}

/// What a successful write of `value` at `index` does to an array: the
/// capacity follows the growth policy, the length advances to `index + 1`
/// when the write lands at or beyond it (and never shrinks), the targeted
/// slot holds the value, every other previously allocated slot is preserved,
/// and every other slot added by growth is zero.
pub open spec fn spec_write_effect(
    pre: DynamicBalArray,
    post: DynamicBalArray,
    index: int,
    value: i64,
) -> bool {
    &&& post.wf()
    &&& post.spec_type() == pre.spec_type()
    &&& post.spec_capacity() == growth::capacity_after_set(pre.spec_capacity(), index)
    &&& post.spec_length() == (if index + 1 > pre.spec_length() {
        index + 1
    } else {
        pre.spec_length()
    })
    &&& pre.spec_length() <= post.spec_length()
    &&& post@[index] == value
    &&& forall|j: int| 0 <= j < pre.spec_capacity() && j != index ==> post@[j] == pre@[j]
    &&& forall|j: int|
        pre.spec_capacity() <= j < post.spec_capacity() && j != index ==> post@[j] == 0
}

/// Law: immediately after construction every index below the capacity is
/// still out of range for a read, because the length is zero, yet the
/// underlying slot already holds zero.
pub proof fn lemma_fresh_slots_unreachable_but_zero(arr: DynamicBalArray, i: int)
    requires
        arr.wf(),
        arr.spec_length() == 0,
        0 <= i < arr.spec_capacity(),
    ensures
        !(i < arr.spec_length()),
        arr@[i] == 0,
{
}

/// Law: a write is immediately readable: after a successful write of
/// `value` at a nonnegative `index`, that index lies below the length and
/// the slot holds exactly `value`.
pub proof fn lemma_write_then_read(
    pre: DynamicBalArray,
    post: DynamicBalArray,
    index: int,
    value: i64,
)
    requires
        spec_write_effect(pre, post, index, value),
        0 <= index,
    ensures
        index < post.spec_length(),
        post@[index] == value,
{
}

impl DynamicBalArray {
    /// Count of logically populated slots: one past the highest index ever
    /// written, and zero for a fresh array.
    pub closed spec fn spec_length(&self) -> int {
        self.length as int
    }

    /// Number of slots currently backed by allocated memory.
    pub closed spec fn spec_capacity(&self) -> int {
        self.capacity as int
    }

    /// The stored element-kind tag.
    pub closed spec fn spec_type(&self) -> BalType {
        self.inherent_type
    }

    /// Well-formedness, established by construction and preserved by every
    /// operation: the length never exceeds the strictly positive capacity,
    /// exactly `capacity` slots are allocated and their layout fits the
    /// address space, the tag is the integer kind, and every slot at or
    /// beyond the logical length still holds its initial zero.
    pub open spec fn wf(&self) -> bool {
        &&& 0 <= self.spec_length() <= self.spec_capacity()
        &&& 0 < self.spec_capacity()
        &&& self@.len() == self.spec_capacity()
        &&& layout::spec_layout_fits(self.spec_capacity())
        &&& self.spec_type() == BalType::Int
        &&& forall|j: int| self.spec_length() <= j < self.spec_capacity() ==> self@[j] == 0
    }

    /// Layout calculator: the byte size and alignment of a block holding the
    /// fixed header followed by `capacity` slots, or `None` when the
    /// capacity is negative or that size would overflow the address space.
    pub fn get_layout(capacity: i64) -> (r: Option<(usize, usize)>)
        ensures
            r is Some <==> 0 <= capacity && layout::spec_layout_fits(capacity as int),
            (r matches Some(l) ==> l.0 == HEADER_BYTES + capacity * SLOT_BYTES),
            (r matches Some(l) ==> l.1 == SLOT_ALIGN),
    {
        if capacity < 0 {
            return None;
        }
        let c: u64 = capacity as u64;
        let max: u64 = usize::MAX as u64;
        let limit: u64 = (max - (HEADER_BYTES as u64)) / (SLOT_BYTES as u64);
        proof {
            layout::lemma_layout_fits_iff_below_limit(capacity as int);
        }
        if c > limit {
            None
        } else {
            let bytes: u64 = (HEADER_BYTES as u64) + c * (SLOT_BYTES as u64);
            Some((bytes as usize, SLOT_ALIGN))
        }
    }

    /// Construction: a fresh array with length zero and every slot zero.
    /// A positive `size` hint becomes the capacity verbatim; any other hint
    /// yields [`DEFAULT_CAPACITY`].  The chosen capacity's layout must fit
    /// the address space; `get_layout` decides that for a prospective
    /// capacity.  Exhaustion of backing memory itself is fatal and aborts.
    pub fn new(size: i64) -> (arr: DynamicBalArray)
        requires
            layout::spec_layout_fits(spec_initial_capacity(size)),
        ensures
            arr.wf(),
            arr.spec_length() == 0,
            arr.spec_capacity() == spec_initial_capacity(size),
            arr.spec_type() == BalType::Int,
            forall|j: int| 0 <= j < arr.spec_capacity() ==> arr@[j] == 0,
    {
        let size_t: i64 = if size > 0 {
            size
        } else {
            DEFAULT_CAPACITY
        };
        let cap: usize = size_t as usize;
        let mut values: Vec<i64> = Vec::new();
        while values.len() < cap
            invariant
                values@.len() <= cap,
                forall|j: int| 0 <= j < values@.len() ==> values@[j] == 0,
            decreases cap - values@.len(),
        {
            values.push(0);
        }
        DynamicBalArray { inherent_type: BalType::Int, length: 0, capacity: size_t, values }
    }

    /// Growth: resize the backing block to `new_capacity` slots, preserving
    /// the contents of the existing slots and zero-filling the added ones;
    /// the length is left untouched, since zero-fill is not logical
    /// population.  The `capacity` field is updated before the fill runs, so
    /// the fill can never re-trigger growth.
    fn grow_array(&mut self, new_capacity: i64)
        requires
            old(self).wf(),
            old(self).spec_capacity() <= new_capacity,
            layout::spec_layout_fits(new_capacity as int),
        ensures
            final(self).wf(),
            final(self).spec_capacity() == new_capacity,
            final(self).spec_length() == old(self).spec_length(),
            final(self).spec_type() == old(self).spec_type(),
            forall|j: int|
                0 <= j < old(self).spec_capacity() ==> final(self)@[j] == old(self)@[j],
            forall|j: int| old(self).spec_capacity() <= j < new_capacity ==> final(self)@[j] == 0,
    {
        self.capacity = new_capacity;
        let target: usize = new_capacity as usize;
        while self.values.len() < target
            invariant
                self.length == old(self).length,
                self.inherent_type == old(self).inherent_type,
                self.capacity == new_capacity,
                target == new_capacity,
                old(self).values@.len() <= self.values@.len() <= target,
                forall|j: int|
                    0 <= j < old(self).values@.len() ==> self.values@[j] == old(self).values@[j],
                forall|j: int|
                    old(self).values@.len() <= j < self.values@.len() ==> self.values@[j] == 0,
            decreases target - self.values@.len(),
        {
            self.values.push(0);
        }
    }

    /// Read: the value stored at `index`.  Reads are bounds-checked against
    /// the logical length, not the capacity: a slot that has never been
    /// reached by a write is out of range even when it lies within allocated
    /// memory.  `try_get_element` reports that case instead of excluding it.
    pub fn get_element(&self, index: i64) -> (r: i64)
        requires
            self.wf(),
            0 <= index < self.spec_length(),
        ensures
            r == self@[index as int],
    {
        self.values[index as usize]
    }

    /// Checked read: `Ok` with the stored value exactly when
    /// `0 <= index < length`, and `Err(IndexOutOfRange)` otherwise.
    pub fn try_get_element(&self, index: i64) -> (r: Result<i64, ArrayError>)
        requires
            self.wf(),
        ensures
            r is Ok <==> 0 <= index < self.spec_length(),
            (r matches Ok(v) ==> v == self@[index as int]),
            (r is Err ==> r == Err::<i64, ArrayError>(ArrayError::IndexOutOfRange)),
    {
        if 0 <= index && index < self.length {
            Ok(self.get_element(index))
        } else {
            Err(ArrayError::IndexOutOfRange)
        }
    }

    /// Write: store `value` at `index`, growing first when the index lies at
    /// or beyond the current capacity, and advancing the length to
    /// `index + 1` when the write lands at or beyond it.  The precondition
    /// admits every nonnegative index whose possibly grown block still fits
    /// the address space; `try_set_element` checks that bound at run time.
    pub fn set_element(&mut self, index: i64, value: i64)
        requires
            old(self).wf(),
            0 <= index,
            layout::spec_layout_fits(
                growth::capacity_after_set(old(self).spec_capacity(), index as int),
            ),
        ensures
            spec_write_effect(*old(self), *final(self), index as int, value),
    {
        if self.capacity <= index {
            let cap_u: u64 = self.capacity as u64;
            let idx_u: u64 = index as u64;
            let step: u64 = cap_u * (GROWTH_FACTOR as u64);
            proof {
                lemma_div_nonincreasing(idx_u as int, step as int);
                growth::lemma_grown_capacity_bounds(cap_u as int, idx_u as int);
            }
            let repeat: u64 = idx_u / step + 1;
            let new_size: u64 = step * repeat;
            self.grow_array(new_size as i64);
        }
        let i: usize = index as usize;
        self.values[i] = value;
        if self.length <= index {
            self.length = index + 1;
        }
    }

    /// Checked write: performs the write exactly when the index is
    /// nonnegative and the possibly grown block still fits the address
    /// space; otherwise reports why and leaves the array unchanged.
    pub fn try_set_element(&mut self, index: i64, value: i64) -> (r: Result<(), ArrayError>)
        requires
            old(self).wf(),
        ensures
            final(self).wf(),
            r is Ok <==> 0 <= index && layout::spec_layout_fits(
                growth::capacity_after_set(old(self).spec_capacity(), index as int),
            ),
            (r is Ok ==> spec_write_effect(*old(self), *final(self), index as int, value)),
            index < 0 ==> r == Err::<(), ArrayError>(ArrayError::IndexOutOfRange),
            (r is Err && 0 <= index) ==> r == Err::<(), ArrayError>(ArrayError::Overflow),
            r is Err ==> *final(self) == *old(self),
    {
        if index < 0 {
            return Err(ArrayError::IndexOutOfRange);
        }
        if index < self.capacity {
            self.set_element(index, value);
            return Ok(());
        }
        let cap_u: u64 = self.capacity as u64;
        let idx_u: u64 = index as u64;
        let step: u64 = cap_u * (GROWTH_FACTOR as u64);
        proof {
            lemma_div_nonincreasing(idx_u as int, step as int);
            growth::lemma_grown_capacity_bounds(cap_u as int, idx_u as int);
        }
        let repeat: u64 = idx_u / step + 1;
        let limit: u64 = ((usize::MAX as u64) - (HEADER_BYTES as u64)) / (SLOT_BYTES as u64);
        proof {
            lemma_mul_upper_bound(step as int, u64::MAX as int, repeat as int, u64::MAX as int);
            layout::lemma_layout_fits_iff_below_limit(
                growth::grown_capacity(self.spec_capacity(), index as int),
            );
        }
        let prod: u128 = (step as u128) * (repeat as u128);
        if prod > limit as u128 {
            Err(ArrayError::Overflow)
        } else {
            self.set_element(index, value);
            Ok(())
        }
    }

    /// Count of logically populated slots.
    pub fn length(&self) -> (r: i64)
        ensures
            r == self.spec_length(),
    {
        self.length
    }

    /// Number of slots currently backed by allocated memory.
    pub fn capacity(&self) -> (r: i64)
        ensures
            r == self.spec_capacity(),
    {
        self.capacity
    }

    /// The stored element-kind tag, reported unaltered.
    pub fn inherent_type(&self) -> (r: BalType)
        ensures
            r == self.spec_type(),
    {
        self.inherent_type
    }
}

} // verus!
