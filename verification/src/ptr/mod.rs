//! The compressed pointers: nullable, non-null, and uniquely owned.

mod arith;
mod const_ptr;
mod mut_ptr;
mod non_null;
mod order;
mod unique;

pub use arith::{aligned_after, is_align_offset, lemma_wrap16, lemma_wrap16_again, wrap16};
pub(crate) use arith::{advance, distance, elements_to_align, offset_by, retreat};
pub use const_ptr::ConstPtr;
pub use mut_ptr::MutPtr;
pub use non_null::NonNull;
pub use unique::Unique;
