//! Borrows: pointers that are known to point at a live value for a scope.

mod immutable;
mod mutable;

pub use immutable::Ref;
pub use mutable::RefMut;
