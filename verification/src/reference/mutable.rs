use vstd::prelude::*;
use core::marker::PhantomData;
use crate::pointee::{Pointee, TinyOf};
use crate::ptr::{ConstPtr, MutPtr, NonNull};

verus! {

/// An exclusive borrow of the value at a compressed pointer, for the scope `'a`.
///
/// While it is alive there is no other borrow of the value, shared or
/// exclusive; so it cannot be copied. The borrow is never null.
pub struct RefMut<'a, T: ?Sized + Pointee, const BASE_ADDR: usize> {
    ptr: NonNull<T, BASE_ADDR>,
    _phantom: PhantomData<&'a T>,
}

impl<'a, T: ?Sized + Pointee, const BASE_ADDR: usize> RefMut<'a, T, BASE_ADDR> {
    /// The pointer to the value borrowed.
    pub closed spec fn target(self) -> NonNull<T, BASE_ADDR> {
        self.ptr
    }

    /// Borrows the value at `ptr`.
    pub(crate) fn new(ptr: NonNull<T, BASE_ADDR>) -> (r: Self)
        ensures
            r.target() == ptr,
    {
        Self { ptr, _phantom: PhantomData }
    }

    /// The pointer to the value borrowed, to read through; it is not null.
    pub fn as_ptr(&self) -> (ptr: ConstPtr<T, BASE_ADDR>)
        where TinyOf<T>: Copy
        ensures
            ptr.addr() == self.target().addr(),
            ptr.metadata() == self.target().metadata(),
            ptr.addr() != 0,
    {
        let (addr, metadata) = self.ptr.as_ptr().as_raw_parts();
        ConstPtr::from_raw_parts(addr, metadata)
    }

    /// The pointer to the value borrowed, to write through; it is not null.
    pub fn as_mut_ptr(&mut self) -> (ptr: MutPtr<T, BASE_ADDR>)
        where TinyOf<T>: Copy
        ensures
            ptr.addr() == old(self).target().addr(),
            ptr.metadata() == old(self).target().metadata(),
            ptr.addr() != 0,
            *final(self) == *old(self),
    {
        self.ptr.as_ptr()
    }

    /// Gives the pointer to the value borrowed, and ends the borrow.
    pub(crate) fn into_non_null(self) -> (ptr: NonNull<T, BASE_ADDR>)
        ensures
            ptr == self.target(),
    {
        self.ptr
    }
}

} // verus!
