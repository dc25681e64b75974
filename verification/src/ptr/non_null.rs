use vstd::prelude::*;
use vstd::std_specs::cmp::{PartialEqSpecImpl, PartialOrdSpecImpl};
use vstd::std_specs::convert::FromSpecImpl;
use core::cmp::Ordering;
use core::marker::PhantomData;
use core::mem::MaybeUninit;
use crate::pointee::{Pointee, Ranked, TinyOf};
use crate::ptr::MutPtr;
use crate::reference::{Ref, RefMut};
use crate::util::IntoTiny;

verus! {

/// A compressed pointer that is never null.
pub struct NonNull<T: ?Sized + Pointee, const BASE_ADDR: usize> {
    ptr: u16,
    metadata: TinyOf<T>,
    _phantom: PhantomData<T>,
}

impl<T, const BASE_ADDR: usize> NonNull<T, BASE_ADDR> {
    /// A pointer that points at no value but is aligned for `T`: its offset is
    /// the alignment of `T`. It serves as the pointer of a container that has
    /// not allocated yet, and must never be followed.
    pub fn dangling() -> (r: Self)
        requires
            vstd::layout::align_of::<T>() <= u16::MAX,
        ensures
            r.addr() == vstd::layout::align_of::<T>(),
            r.addr() != 0,
    {
        vstd::layout::layout_for_type_is_valid::<T>();
        Self { ptr: core::mem::align_of::<T>() as u16, metadata: (), _phantom: PhantomData }
    }

    /// The borrow of the place pointed to, as a place that may hold no value yet.
    pub fn as_uninit_ref<'a>(&self) -> (r: Ref<'a, MaybeUninit<T>, BASE_ADDR>)
        ensures
            r.target().addr() == self.addr(),
    {
        self.as_ptr().as_uninit_ref_unchecked()
    }

    /// The exclusive borrow of the place pointed to, as a place that may hold
    /// no value yet.
    pub fn as_uninit_mut<'a>(&mut self) -> (r: RefMut<'a, MaybeUninit<T>, BASE_ADDR>)
        ensures
            r.target().addr() == old(self).addr(),
            *final(self) == *old(self),
    {
        self.as_ptr().as_uninit_mut_unchecked()
    }
}

impl<T: ?Sized + Pointee, const BASE_ADDR: usize> NonNull<T, BASE_ADDR> {
    #[verifier::type_invariant]
    spec fn not_null(self) -> bool {
        self.ptr != 0
    }

    /// The offset from the arena base; never zero in a pointer that exists.
    pub closed spec fn addr(self) -> u16 {
        self.ptr
    }

    /// The metadata of the pointee, in its small form.
    pub closed spec fn metadata(self) -> TinyOf<T> {
        self.metadata
    }

    /// The native address that the pointer stands for.
    pub open spec fn wide_addr(self) -> int {
        crate::decode(BASE_ADDR as int, self.addr())
    }

    /// The metadata of the native pointer that the pointer stands for.
    pub open spec fn wide_metadata(self) -> T::Metadata {
        T::Metadata::grown(self.metadata())
    }

    /// A pointer is no more than its offset and its metadata.
    pub proof fn lemma_same_parts(self, other: Self)
        requires
            self.addr() == other.addr(),
            self.metadata() == other.metadata(),
        ensures
            self == other,
    {
    }

    /// Takes `ptr` for a non-null pointer without a check.
    pub fn new_unchecked(ptr: MutPtr<T, BASE_ADDR>) -> (r: Self)
        requires
            ptr.addr() != 0,
        ensures
            r.addr() == ptr.addr(),
            r.metadata() == ptr.metadata(),
    {
        let (ptr, metadata) = ptr.as_raw_parts();
        Self { ptr, metadata, _phantom: PhantomData }
    }

    /// Takes `ptr` for a non-null pointer, if it is not null.
    pub fn new(ptr: MutPtr<T, BASE_ADDR>) -> (r: Option<Self>)
        ensures
            r.is_some() == (ptr.addr() != 0),
            r matches Some(p) ==> p.addr() == ptr.addr() && p.metadata() == ptr.metadata(),
    {
        let (ptr, metadata) = ptr.as_raw_parts();
        if ptr == 0 {
            None
        } else {
            Some(Self { ptr, metadata, _phantom: PhantomData })
        }
    }

    /// The pointer with the address of `data_address` and the given metadata.
    pub fn from_raw_parts(data_address: NonNull<(), BASE_ADDR>, metadata: TinyOf<T>) -> (r: Self)
        ensures
            r.addr() == data_address.addr(),
            r.metadata() == metadata,
            r.addr() != 0,
    {
        proof {
            use_type_invariant(&data_address);
        }
        Self { ptr: data_address.ptr, metadata, _phantom: PhantomData }
    }

    /// The address, as a pointer to the unit value, and the metadata.
    pub fn to_raw_parts(self) -> (r: (NonNull<(), BASE_ADDR>, TinyOf<T>))
        ensures
            r.0.addr() == self.addr(),
            r.0.addr() != 0,
            r.1 == self.metadata(),
    {
        proof {
            use_type_invariant(&self);
        }
        (NonNull { ptr: self.ptr, metadata: (), _phantom: PhantomData }, self.metadata)
    }

    /// The same pointer as a nullable one; it is not null.
    pub fn as_ptr(self) -> (r: MutPtr<T, BASE_ADDR>)
        ensures
            r.addr() == self.addr(),
            r.metadata() == self.metadata(),
            r.addr() != 0,
    {
        proof {
            use_type_invariant(&self);
        }
        MutPtr::from_raw_parts(self.ptr, self.metadata)
    }

    /// The shared borrow of the value pointed to.
    pub fn as_ref<'a>(&self) -> (r: Ref<'a, T, BASE_ADDR>)
        where TinyOf<T>: Copy
        ensures
            r.target() == *self,
    {
        Ref::new(*self)
    }

    /// The exclusive borrow of the value pointed to.
    pub fn as_mut<'a>(&mut self) -> (r: RefMut<'a, T, BASE_ADDR>)
        where TinyOf<T>: Copy
        ensures
            r.target() == *old(self),
            *final(self) == *old(self),
    {
        RefMut::new(*self)
    }

    /// The pointer to the same address, taken as a pointer to a `U`.
    pub fn cast<U>(self) -> (r: NonNull<U, BASE_ADDR>)
        ensures
            r.addr() == self.addr(),
            r.addr() != 0,
    {
        proof {
            use_type_invariant(&self);
        }
        NonNull { ptr: self.ptr, metadata: (), _phantom: PhantomData }
    }
}

impl<T: ?Sized + Pointee, const BASE_ADDR: usize> Clone for NonNull<T, BASE_ADDR> where TinyOf<T>: Copy {
    fn clone(&self) -> (r: Self)
        ensures
            r == *self,
    {
        *self
    }
}

impl<T: ?Sized + Pointee, const BASE_ADDR: usize> Copy for NonNull<T, BASE_ADDR> where TinyOf<T>: Copy {
}

/// Two pointers are equal when the native pointers they stand for are: the
/// same address and the same metadata.
impl<T: ?Sized + Pointee, const BASE_ADDR: usize> PartialEq for NonNull<T, BASE_ADDR> where T::Metadata: Ranked {
    fn eq(&self, other: &Self) -> (r: bool) {
        self.ptr == other.ptr && T::Metadata::rank_of(&self.metadata) == T::Metadata::rank_of(
            &other.metadata,
        )
    }
}

impl<T: ?Sized + Pointee, const BASE_ADDR: usize> PartialEqSpecImpl for NonNull<T, BASE_ADDR> where T::Metadata: Ranked {
    open spec fn obeys_eq_spec() -> bool {
        true
    }

    open spec fn eq_spec(&self, other: &Self) -> bool {
        self.wide_addr() == other.wide_addr() && self.wide_metadata().rank()
            == other.wide_metadata().rank()
    }
}

impl<T: ?Sized + Pointee, const BASE_ADDR: usize> Eq for NonNull<T, BASE_ADDR> where T::Metadata: Ranked {
}

/// Pointers are ordered as the native pointers they stand for: by address,
/// then by metadata.
impl<T: ?Sized + Pointee, const BASE_ADDR: usize> PartialOrd for NonNull<T, BASE_ADDR> where T::Metadata: Ranked {
    fn partial_cmp(&self, other: &Self) -> (r: Option<Ordering>) {
        let mine = T::Metadata::rank_of(&self.metadata);
        let theirs = T::Metadata::rank_of(&other.metadata);
        if self.ptr < other.ptr {
            Some(Ordering::Less)
        } else if self.ptr > other.ptr {
            Some(Ordering::Greater)
        } else if mine < theirs {
            Some(Ordering::Less)
        } else if mine > theirs {
            Some(Ordering::Greater)
        } else {
            Some(Ordering::Equal)
        }
    }
}

impl<T: ?Sized + Pointee, const BASE_ADDR: usize> PartialOrdSpecImpl for NonNull<T, BASE_ADDR> where T::Metadata: Ranked {
    open spec fn obeys_partial_cmp_spec() -> bool {
        true
    }

    open spec fn partial_cmp_spec(&self, other: &Self) -> Option<Ordering> {
        if self.wide_addr() < other.wide_addr() {
            Some(Ordering::Less)
        } else if self.wide_addr() > other.wide_addr() {
            Some(Ordering::Greater)
        } else if self.wide_metadata().rank() < other.wide_metadata().rank() {
            Some(Ordering::Less)
        } else if self.wide_metadata().rank() > other.wide_metadata().rank() {
            Some(Ordering::Greater)
        } else {
            Some(Ordering::Equal)
        }
    }
}

impl<'a, T: ?Sized + Pointee, const BASE_ADDR: usize> From<RefMut<'a, T, BASE_ADDR>> for NonNull<T, BASE_ADDR> {
    fn from(v: RefMut<'a, T, BASE_ADDR>) -> (r: Self)
        ensures
            r == v.target(),
    {
        v.into_non_null()
    }
}

impl<'a, T: ?Sized + Pointee, const BASE_ADDR: usize> FromSpecImpl<RefMut<'a, T, BASE_ADDR>> for NonNull<T, BASE_ADDR> {
    open spec fn obeys_from_spec() -> bool {
        true
    }

    open spec fn from_spec(v: RefMut<'a, T, BASE_ADDR>) -> Self {
        v.target()
    }
}

} // verus!
