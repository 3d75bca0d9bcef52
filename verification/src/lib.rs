//! A growable, fixed-width integer array intended as the backing store for
//! array values inside a managed-language runtime.
//!
//! The array owns a contiguous, zero-initialized block of `i64` slots, grows
//! it on demand from the write path, and exposes indexed access whose reads
//! are bounds-checked against the logical length.  The crate is organised
//! after the pipeline that a write runs through: the layout calculator
//! ([`layout`]), the growth policy ([`growth`]), and the array itself with
//! its allocator and accessors ([`dynamic_array`]).

pub mod dynamic_array;
pub mod growth;
pub mod layout;

pub use dynamic_array::lemma_fresh_slots_unreachable_but_zero;
pub use dynamic_array::lemma_write_then_read;
pub use dynamic_array::spec_initial_capacity;
pub use dynamic_array::spec_write_effect;
pub use dynamic_array::ArrayError;
pub use dynamic_array::BalType;
pub use dynamic_array::DynamicBalArray;
pub use dynamic_array::DEFAULT_CAPACITY;
pub use growth::capacity_after_set;
pub use growth::grown_capacity;
pub use growth::lemma_grown_capacity_bounds;
pub use growth::GROWTH_FACTOR;
pub use layout::spec_layout_fits;
pub use layout::HEADER_BYTES;
pub use layout::SLOT_ALIGN;
pub use layout::SLOT_BYTES;
