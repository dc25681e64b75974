//! The owning handle, and the allocator it gets its memory from.

mod boxed;

pub use boxed::{AllocError, Allocator, Box, Step};
