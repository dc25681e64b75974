//! How the metadata of a wide pointer is made small.

use vstd::prelude::*;

verus! {

/// A kind of pointer metadata that has a small form of fixed width.
///
/// The small form loses nothing: a value either fits, and then grows back to
/// itself, or it is refused.
pub trait IntoTiny: Sized {
    /// The small form.
    type Tiny;

    /// Whether the value has a small form.
    spec fn fits(self) -> bool;

    /// The small form of a value that fits.
    spec fn shrunk(self) -> Self::Tiny;

    /// The value that a small form stands for.
    spec fn grown(t: Self::Tiny) -> Self;

    /// Growing the small form of a value that fits gives the value back.
    proof fn lemma_grow_shrunk(self)
        requires
            self.fits(),
        ensures
            Self::grown(self.shrunk()) == self,
    ;

    /// Converts the value into its small form without a range check.
    fn into_tiny_unchecked(self) -> (t: Self::Tiny)
        requires
            self.fits(),
        ensures
            t == self.shrunk(),
    ;

    /// Converts the value into its small form, if it has one.
    fn into_tiny(self) -> (t: Option<Self::Tiny>)
        ensures
            t == if self.fits() {
                Some(self.shrunk())
            } else {
                None
            },
    ;

    /// Converts a small form back.
    fn from_tiny(t: Self::Tiny) -> (m: Self)
        ensures
            m == Self::grown(t),
    ;
}

/// A sized value has no metadata, and nothing to shrink.
impl IntoTiny for () {
    type Tiny = ();

    open spec fn fits(self) -> bool {
        true
    }

    open spec fn shrunk(self) -> () {
        self
    }

    open spec fn grown(t: ()) -> () {
        t
    }

    proof fn lemma_grow_shrunk(self) {
    }

    fn into_tiny_unchecked(self) -> (t: ()) {
        self
    }

    fn into_tiny(self) -> (t: Option<()>) {
        Some(self)
    }

    fn from_tiny(t: ()) -> (m: ()) {
        t
    }
}

/// The length of a sequence shrinks to sixteen bits, if it is at most 65535.
impl IntoTiny for usize {
    type Tiny = crate::TinyUSize;

    open spec fn fits(self) -> bool {
        self <= u16::MAX
    }

    open spec fn shrunk(self) -> u16 {
        self as u16
    }

    open spec fn grown(t: u16) -> usize {
        t as usize
    }

    proof fn lemma_grow_shrunk(self) {
    }

    fn into_tiny_unchecked(self) -> (t: u16) {
        self as u16
    }

    fn into_tiny(self) -> (t: Option<u16>) {
        if self <= 0xFFFF {
            Some(self as u16)
        } else {
            None
        }
    }

    fn from_tiny(t: u16) -> (m: usize) {
        t as usize
    }
}

/// Shrinking is one to one: two values that fit and have the same small form
/// are the same value.
pub proof fn lemma_shrunk_injective<M: IntoTiny>(a: M, b: M)
    requires
        a.fits(),
        b.fits(),
        a.shrunk() == b.shrunk(),
    ensures
        a == b,
{
    a.lemma_grow_shrunk();
    b.lemma_grow_shrunk();
}

} // verus!
