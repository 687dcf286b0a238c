//! Construction of non-zero integer values, generic over the twelve
//! primitive integer kinds.
//!
//! Each primitive integer type is paired with a refinement type that can
//! only hold a non-zero value. A single generic dispatch function builds
//! the refinement value for any of the twelve kinds, recovering the
//! concrete kind through a type-equality witness rather than a runtime
//! type switch.

pub mod construct;
pub mod eq_witness;
pub mod nonzero;
pub mod registry;

pub use construct::{construct_checked, lemma_construct_deterministic, lemma_round_trip};
pub use construct::{ZeroValueRejected, __nonzero_new_unwrap};
pub use nonzero::{
    NonZeroI8, NonZeroI16, NonZeroI32, NonZeroI64, NonZeroI128, NonZeroIsize,
    NonZeroU8, NonZeroU16, NonZeroU32, NonZeroU64, NonZeroU128, NonZeroUsize,
};
pub use registry::{Integer, IntegerWit, NonZeroInt};
