use vstd::prelude::*;
use vstd::std_specs::convert::FromSpecImpl;
use core::marker::PhantomData;
use crate::pointee::{Pointee, TinyOf};
use crate::ptr::{MutPtr, NonNull};
use crate::reference::{Ref, RefMut};

verus! {

/// A non-null compressed pointer whose holder owns the value pointed to.
///
/// The value is changed and released through its owning pointer alone. The
/// type keeps no books on that: it marks the role of the pointer.
pub struct Unique<T: ?Sized + Pointee, const BASE_ADDR: usize> {
    ptr: NonNull<T, BASE_ADDR>,
    _phantom: PhantomData<T>,
}

impl<T, const BASE_ADDR: usize> Unique<T, BASE_ADDR> {
    /// An owning pointer that points at no value but is aligned for `T`: its
    /// offset is the alignment of `T`. It must never be followed.
    pub fn dangling() -> (r: Self)
        requires
            vstd::layout::align_of::<T>() <= u16::MAX,
        ensures
            r.non_null().addr() == vstd::layout::align_of::<T>(),
            r.non_null().addr() != 0,
    {
        Self { ptr: NonNull::dangling(), _phantom: PhantomData }
    }
}

impl<T: ?Sized + Pointee, const BASE_ADDR: usize> Unique<T, BASE_ADDR> {
    /// The pointer that is owned.
    pub closed spec fn non_null(self) -> NonNull<T, BASE_ADDR> {
        self.ptr
    }

    /// An owning pointer is no more than the pointer that is owned.
    pub proof fn lemma_same_pointer(self, other: Self)
        requires
            self.non_null() == other.non_null(),
        ensures
            self == other,
    {
    }

    /// Takes ownership through `nn`.
    pub fn from_nonnull(nn: NonNull<T, BASE_ADDR>) -> (r: Self)
        ensures
            r.non_null() == nn,
    {
        Self { ptr: nn, _phantom: PhantomData }
    }

    /// Takes ownership through `ptr` without a check for null.
    pub fn new_unchecked(ptr: MutPtr<T, BASE_ADDR>) -> (r: Self)
        requires
            ptr.addr() != 0,
        ensures
            r.non_null().addr() == ptr.addr(),
            r.non_null().metadata() == ptr.metadata(),
    {
        Self::from_nonnull(NonNull::new_unchecked(ptr))
    }

    /// Takes ownership through `ptr`, if it is not null.
    pub fn new(ptr: MutPtr<T, BASE_ADDR>) -> (r: Option<Self>)
        ensures
            r.is_some() == (ptr.addr() != 0),
            r matches Some(u) ==> {
                &&& u.non_null().addr() == ptr.addr()
                &&& u.non_null().metadata() == ptr.metadata()
            },
    {
        match NonNull::new(ptr) {
            Some(nn) => Some(Self::from_nonnull(nn)),
            None => None,
        }
    }

    /// The pointer that is owned, as a nullable one; it is not null.
    pub fn as_ptr(self) -> (r: MutPtr<T, BASE_ADDR>)
        ensures
            r.addr() == self.non_null().addr(),
            r.metadata() == self.non_null().metadata(),
            r.addr() != 0,
    {
        self.ptr.as_ptr()
    }

    /// The shared borrow of the value owned, for as long as `self` is borrowed.
    pub fn as_ref(&self) -> (r: Ref<'_, T, BASE_ADDR>)
        where TinyOf<T>: Copy
        ensures
            r.target() == self.non_null(),
    {
        self.ptr.as_ref()
    }

    /// The exclusive borrow of the value owned, for as long as `self` is
    /// borrowed exclusively.
    pub fn as_mut(&mut self) -> (r: RefMut<'_, T, BASE_ADDR>)
        where TinyOf<T>: Copy
        ensures
            r.target() == old(self).non_null(),
            *final(self) == *old(self),
    {
        let mut nn = self.ptr;
        nn.as_mut()
    }

    /// The owning pointer to the same address, taken as a pointer to a `U`.
    pub fn cast<U>(self) -> (r: Unique<U, BASE_ADDR>)
        ensures
            r.non_null().addr() == self.non_null().addr(),
            r.non_null().addr() != 0,
    {
        Unique::from_nonnull(self.ptr.cast())
    }
}

impl<T: ?Sized + Pointee, const BASE_ADDR: usize> Clone for Unique<T, BASE_ADDR> where TinyOf<T>: Copy {
    fn clone(&self) -> (r: Self)
        ensures
            r == *self,
    {
        *self
    }
}

impl<T: ?Sized + Pointee, const BASE_ADDR: usize> Copy for Unique<T, BASE_ADDR> where TinyOf<T>: Copy {
}

impl<T: ?Sized + Pointee, const BASE_ADDR: usize> From<NonNull<T, BASE_ADDR>> for Unique<T, BASE_ADDR> {
    fn from(nn: NonNull<T, BASE_ADDR>) -> (r: Self)
        ensures
            r.non_null() == nn,
    {
        Self::from_nonnull(nn)
    }
}

impl<T: ?Sized + Pointee, const BASE_ADDR: usize> FromSpecImpl<NonNull<T, BASE_ADDR>> for Unique<T, BASE_ADDR> {
    open spec fn obeys_from_spec() -> bool {
        true
    }

    closed spec fn from_spec(nn: NonNull<T, BASE_ADDR>) -> Self {
        Unique { ptr: nn, _phantom: PhantomData }
    }
}

impl<'a, T: ?Sized + Pointee, const BASE_ADDR: usize> From<RefMut<'a, T, BASE_ADDR>> for Unique<T, BASE_ADDR> {
    fn from(v: RefMut<'a, T, BASE_ADDR>) -> (r: Self)
        ensures
            r.non_null() == v.target(),
    {
        Self::from_nonnull(v.into_non_null())
    }
}

impl<'a, T: ?Sized + Pointee, const BASE_ADDR: usize> FromSpecImpl<RefMut<'a, T, BASE_ADDR>> for Unique<T, BASE_ADDR> {
    open spec fn obeys_from_spec() -> bool {
        true
    }

    closed spec fn from_spec(v: RefMut<'a, T, BASE_ADDR>) -> Self {
        Unique { ptr: v.target(), _phantom: PhantomData }
    }
}

} // verus!
