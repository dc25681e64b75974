use vstd::prelude::*;
use vstd::std_specs::cmp::{PartialEqSpecImpl, PartialOrdSpecImpl};
use vstd::std_specs::convert::FromSpecImpl;
use core::cmp::Ordering;
use core::marker::PhantomData;
use core::mem::MaybeUninit;
use crate::pointee::{Pointee, Ranked, TinyOf};
use crate::ptr::{ConstPtr, NonNull};
use crate::reference::{Ref, RefMut};
use crate::util::IntoTiny;

verus! {

/// A compressed pointer through which the pointee may be written; it may be null.
///
/// It is a plain value: the offset from the arena base and the pointee's
/// metadata in its small form. It owns nothing and borrows nothing.
pub struct MutPtr<T: ?Sized + Pointee, const BASE_ADDR: usize> {
    ptr: u16,
    metadata: TinyOf<T>,
    _phantom: PhantomData<T>,
}

impl<T: ?Sized + Pointee, const BASE_ADDR: usize> MutPtr<T, BASE_ADDR> {
    /// The offset from the arena base; zero in the null pointer.
    pub closed spec fn addr(self) -> u16 {
        self.ptr
    }

    /// The metadata of the pointee, in its small form.
    pub closed spec fn metadata(self) -> TinyOf<T> {
        self.metadata
    }

    /// The native address that the pointer stands for; zero for the null pointer.
    pub open spec fn wide_addr(self) -> int {
        crate::decode(BASE_ADDR as int, self.addr())
    }

    /// The metadata of the native pointer that the pointer stands for.
    pub open spec fn wide_metadata(self) -> T::Metadata {
        T::Metadata::grown(self.metadata())
    }

    /// The pointer made of the given offset and small metadata.
    pub closed spec fn from_raw_parts_spec(ptr: u16, metadata: TinyOf<T>) -> Self {
        MutPtr { ptr, metadata, _phantom: PhantomData }
    }

    /// The parts of the pointer made of given parts are those parts.
    pub proof fn lemma_from_raw_parts_spec(ptr: u16, metadata: TinyOf<T>)
        ensures
            Self::from_raw_parts_spec(ptr, metadata).addr() == ptr,
            Self::from_raw_parts_spec(ptr, metadata).metadata() == metadata,
    {
    }

    /// The pointer that a native pointer is compressed to stands for that
    /// native pointer: its address and its metadata come back.
    pub proof fn lemma_round_trip(self, addr: int, metadata: T::Metadata)
        requires
            crate::encodable(BASE_ADDR as int, addr),
            metadata.fits(),
            self.addr() == crate::encode(BASE_ADDR as int, addr),
            self.metadata() == metadata.shrunk(),
        ensures
            self.wide_addr() == addr,
            self.wide_metadata() == metadata,
    {
        metadata.lemma_grow_shrunk();
    }

    /// A pointer is no more than its offset and its metadata.
    pub proof fn lemma_same_parts(self, other: Self)
        requires
            self.addr() == other.addr(),
            self.metadata() == other.metadata(),
        ensures
            self == other,
    {
    }

    /// Compresses the native pointer with address `addr` and the given
    /// metadata, if the address is null or inside the arena and the metadata
    /// has a small form.
    pub fn new(addr: usize, metadata: T::Metadata) -> (r: Option<Self>)
        ensures
            r.is_some() == (crate::encodable(BASE_ADDR as int, addr as int) && metadata.fits()),
            r matches Some(p) ==> {
                &&& p.addr() == crate::encode(BASE_ADDR as int, addr as int)
                &&& p.metadata() == metadata.shrunk()
            },
    {
        let ptr = crate::ptr_to_u16::<BASE_ADDR>(addr);
        let tiny = metadata.into_tiny();
        match (ptr, tiny) {
            (Some(ptr), Some(metadata)) => Some(Self { ptr, metadata, _phantom: PhantomData }),
            _ => None,
        }
    }

    /// Compresses the native pointer with address `addr` and the given
    /// metadata without a check.
    pub fn new_unchecked(addr: usize, metadata: T::Metadata) -> (r: Self)
        requires
            crate::encodable(BASE_ADDR as int, addr as int),
            metadata.fits(),
        ensures
            r.addr() == crate::encode(BASE_ADDR as int, addr as int),
            r.metadata() == metadata.shrunk(),
    {
        Self {
            ptr: crate::ptr_to_u16_unchecked::<BASE_ADDR>(addr),
            metadata: metadata.into_tiny_unchecked(),
            _phantom: PhantomData,
        }
    }

    /// The native pointer that the pointer stands for: its address and its metadata.
    pub fn as_wide_ptr(self) -> (wide: (usize, T::Metadata))
        requires
            self.addr() != 0 ==> BASE_ADDR + self.addr() <= usize::MAX,
        ensures
            wide.0 == self.wide_addr(),
            wide.1 == self.wide_metadata(),
    {
        let addr = crate::u16_to_ptr::<BASE_ADDR>(self.ptr);
        (addr, T::Metadata::from_tiny(self.metadata))
    }

    /// Whether the pointer is null.
    pub fn is_null(self) -> (r: bool)
        ensures
            r == (self.addr() == 0),
    {
        self.ptr == 0
    }

    /// The pointer to the same address, taken as a pointer to a `U`. A `U` is
    /// sized, so the metadata is dropped.
    pub fn cast<U>(self) -> (r: MutPtr<U, BASE_ADDR>)
        ensures
            r.addr() == self.addr(),
    {
        MutPtr { ptr: self.ptr, metadata: (), _phantom: PhantomData }
    }

    /// The offset and the small metadata that the pointer is made of.
    pub fn as_raw_parts(self) -> (parts: (u16, TinyOf<T>))
        ensures
            parts.0 == self.addr(),
            parts.1 == self.metadata(),
    {
        (self.ptr, self.metadata)
    }

    /// The pointer made of the given offset and small metadata.
    pub fn from_raw_parts(ptr: u16, metadata: TinyOf<T>) -> (r: Self)
        ensures
            r.addr() == ptr,
            r.metadata() == metadata,
    {
        Self { ptr, metadata, _phantom: PhantomData }
    }

    /// The shared borrow of the value pointed to; none for the null pointer.
    pub fn as_ref<'a>(self) -> (r: Option<Ref<'a, T, BASE_ADDR>>)
        ensures
            r.is_some() == (self.addr() != 0),
            r matches Some(b) ==> {
                &&& b.target().addr() == self.addr()
                &&& b.target().metadata() == self.metadata()
            },
    {
        if self.ptr == 0 {
            None
        } else {
            Some(self.as_ref_unchecked())
        }
    }

    /// The exclusive borrow of the value pointed to; none for the null pointer.
    pub fn as_mut<'a>(self) -> (r: Option<RefMut<'a, T, BASE_ADDR>>)
        ensures
            r.is_some() == (self.addr() != 0),
            r matches Some(b) ==> {
                &&& b.target().addr() == self.addr()
                &&& b.target().metadata() == self.metadata()
            },
    {
        if self.ptr == 0 {
            None
        } else {
            Some(self.as_mut_unchecked())
        }
    }

    /// The shared borrow of the value pointed to, without a check for null.
    pub fn as_ref_unchecked<'a>(self) -> (r: Ref<'a, T, BASE_ADDR>)
        requires
            self.addr() != 0,
        ensures
            r.target().addr() == self.addr(),
            r.target().metadata() == self.metadata(),
    {
        Ref::new(NonNull::new_unchecked(self))
    }

    /// The exclusive borrow of the value pointed to, without a check for null.
    pub fn as_mut_unchecked<'a>(self) -> (r: RefMut<'a, T, BASE_ADDR>)
        requires
            self.addr() != 0,
        ensures
            r.target().addr() == self.addr(),
            r.target().metadata() == self.metadata(),
    {
        RefMut::new(NonNull::new_unchecked(self))
    }

    /// The pointer with the address of `val` and the metadata of `self`.
    pub fn set_ptr_value(self, val: MutPtr<u8, BASE_ADDR>) -> (r: Self)
        ensures
            r.addr() == val.addr(),
            r.metadata() == self.metadata(),
    {
        Self { ptr: val.ptr, metadata: self.metadata, _phantom: PhantomData }
    }
}

impl<T, const BASE_ADDR: usize> MutPtr<T, BASE_ADDR> {
    /// The shared borrow of the place pointed to, as a place that may hold no
    /// value yet; none for the null pointer.
    pub fn as_uninit_ref<'a>(self) -> (r: Option<Ref<'a, MaybeUninit<T>, BASE_ADDR>>)
        ensures
            r.is_some() == (self.addr() != 0),
            r matches Some(b) ==> b.target().addr() == self.addr(),
    {
        self.cast::<MaybeUninit<T>>().as_ref()
    }

    /// The exclusive borrow of the place pointed to, as a place that may hold
    /// no value yet; none for the null pointer.
    pub fn as_uninit_mut<'a>(self) -> (r: Option<RefMut<'a, MaybeUninit<T>, BASE_ADDR>>)
        ensures
            r.is_some() == (self.addr() != 0),
            r matches Some(b) ==> b.target().addr() == self.addr(),
    {
        self.cast::<MaybeUninit<T>>().as_mut()
    }

    /// As `as_uninit_ref`, without a check for null.
    pub fn as_uninit_ref_unchecked<'a>(self) -> (r: Ref<'a, MaybeUninit<T>, BASE_ADDR>)
        requires
            self.addr() != 0,
        ensures
            r.target().addr() == self.addr(),
    {
        self.cast::<MaybeUninit<T>>().as_ref_unchecked()
    }

    /// As `as_uninit_mut`, without a check for null.
    pub fn as_uninit_mut_unchecked<'a>(self) -> (r: RefMut<'a, MaybeUninit<T>, BASE_ADDR>)
        requires
            self.addr() != 0,
        ensures
            r.target().addr() == self.addr(),
    {
        self.cast::<MaybeUninit<T>>().as_mut_unchecked()
    }

    /// The pointer `count` elements further on. The offset wraps modulo 65536,
    /// as in `wrapping_offset`: this crate has one rule for arithmetic that
    /// leaves the arena.
    pub fn offset(self, count: i16) -> (r: Self)
        ensures
            r.addr() == crate::ptr::wrap16(self.addr() + count * vstd::layout::size_of::<T>()),
            r.metadata() == self.metadata(),
    {
        self.wrapping_offset(count)
    }

    /// The pointer `count` elements further on, the offset wrapping modulo 65536.
    pub fn wrapping_offset(self, count: i16) -> (r: Self)
        ensures
            r.addr() == crate::ptr::wrap16(self.addr() + count * vstd::layout::size_of::<T>()),
            r.metadata() == self.metadata(),
    {
        Self {
            ptr: crate::ptr::offset_by(self.ptr, count, core::mem::size_of::<T>()),
            metadata: self.metadata,
            _phantom: PhantomData,
        }
    }

    /// The number of elements from `origin` to `self`; negative if `self` lies
    /// before `origin`. Both point into one allocation, a whole number of
    /// elements apart.
    pub fn offset_from(self, origin: Self) -> (r: isize)
        requires
            vstd::layout::size_of::<T>() > 0,
            (self.addr() == 0) == (origin.addr() == 0),
            (self.wide_addr() - origin.wide_addr()) % (vstd::layout::size_of::<T>() as int) == 0,
        ensures
            r * vstd::layout::size_of::<T>() == self.wide_addr() - origin.wide_addr(),
    {
        crate::ptr::distance(self.ptr, origin.ptr, core::mem::size_of::<T>())
    }

    /// The pointer `count` elements further on, the offset wrapping modulo 65536.
    pub fn add(self, count: u16) -> (r: Self)
        ensures
            r.addr() == crate::ptr::wrap16(self.addr() + count * vstd::layout::size_of::<T>()),
            r.metadata() == self.metadata(),
    {
        self.wrapping_add(count)
    }

    /// The pointer `count` elements back, the offset wrapping modulo 65536.
    pub fn sub(self, count: u16) -> (r: Self)
        ensures
            r.addr() == crate::ptr::wrap16(self.addr() - count * vstd::layout::size_of::<T>()),
            r.metadata() == self.metadata(),
    {
        self.wrapping_sub(count)
    }

    /// The pointer `count` elements further on, the offset wrapping modulo 65536.
    pub fn wrapping_add(self, count: u16) -> (r: Self)
        ensures
            r.addr() == crate::ptr::wrap16(self.addr() + count * vstd::layout::size_of::<T>()),
            r.metadata() == self.metadata(),
    {
        Self {
            ptr: crate::ptr::advance(self.ptr, count, core::mem::size_of::<T>()),
            metadata: self.metadata,
            _phantom: PhantomData,
        }
    }

    /// The pointer `count` elements back, the offset wrapping modulo 65536.
    pub fn wrapping_sub(self, count: u16) -> (r: Self)
        ensures
            r.addr() == crate::ptr::wrap16(self.addr() - count * vstd::layout::size_of::<T>()),
            r.metadata() == self.metadata(),
    {
        Self {
            ptr: crate::ptr::retreat(self.ptr, count, core::mem::size_of::<T>()),
            metadata: self.metadata,
            _phantom: PhantomData,
        }
    }

    /// The least number of elements to go on by for the native address to be a
    /// multiple of `align`; `usize::MAX` if no number of elements gets there.
    pub fn align_offset(self, align: usize) -> (r: usize)
        requires
            vstd::arithmetic::power2::is_pow2(align as int),
            self.addr() != 0 ==> BASE_ADDR + self.addr() <= usize::MAX,
        ensures
            crate::ptr::is_align_offset(
                self.wide_addr(),
                vstd::layout::size_of::<T>() as int,
                align as int,
                r,
            ),
    {
        proof {
            reveal(vstd::arithmetic::power2::is_pow2);
        }
        let addr = crate::u16_to_ptr::<BASE_ADDR>(self.ptr);
        crate::ptr::elements_to_align(addr, core::mem::size_of::<T>(), align)
    }
}

impl<T: ?Sized + Pointee, const BASE_ADDR: usize> Clone for MutPtr<T, BASE_ADDR> where TinyOf<T>: Copy {
    fn clone(&self) -> (r: Self)
        ensures
            r == *self,
    {
        *self
    }
}

impl<T: ?Sized + Pointee, const BASE_ADDR: usize> Copy for MutPtr<T, BASE_ADDR> where TinyOf<T>: Copy {
}

/// Two pointers are equal when the native pointers they stand for are: the
/// same address and the same metadata.
impl<T: ?Sized + Pointee, const BASE_ADDR: usize> PartialEq for MutPtr<T, BASE_ADDR> where T::Metadata: Ranked {
    fn eq(&self, other: &Self) -> (r: bool) {
        self.ptr == other.ptr && T::Metadata::rank_of(&self.metadata) == T::Metadata::rank_of(
            &other.metadata,
        )
    }
}

impl<T: ?Sized + Pointee, const BASE_ADDR: usize> PartialEqSpecImpl for MutPtr<T, BASE_ADDR> where T::Metadata: Ranked {
    open spec fn obeys_eq_spec() -> bool {
        true
    }

    open spec fn eq_spec(&self, other: &Self) -> bool {
        self.wide_addr() == other.wide_addr() && self.wide_metadata().rank()
            == other.wide_metadata().rank()
    }
}

impl<T: ?Sized + Pointee, const BASE_ADDR: usize> Eq for MutPtr<T, BASE_ADDR> where T::Metadata: Ranked {
}

/// Pointers are ordered as the native pointers they stand for: by address,
/// then by metadata.
impl<T: ?Sized + Pointee, const BASE_ADDR: usize> PartialOrd for MutPtr<T, BASE_ADDR> where T::Metadata: Ranked {
    fn partial_cmp(&self, other: &Self) -> (r: Option<Ordering>) {
        let mine = T::Metadata::rank_of(&self.metadata);
        let theirs = T::Metadata::rank_of(&other.metadata);
        if self.ptr < other.ptr {
            Some(Ordering::Less)
        } else if self.ptr > other.ptr {
            Some(Ordering::Greater)
        } else if mine < theirs {
            Some(Ordering::Less)
        } else if mine > theirs {
            Some(Ordering::Greater)
        } else {
            Some(Ordering::Equal)
        }
    }
}

impl<T: ?Sized + Pointee, const BASE_ADDR: usize> PartialOrdSpecImpl for MutPtr<T, BASE_ADDR> where T::Metadata: Ranked {
    open spec fn obeys_partial_cmp_spec() -> bool {
        true
    }

    open spec fn partial_cmp_spec(&self, other: &Self) -> Option<Ordering> {
        if self.wide_addr() < other.wide_addr() {
            Some(Ordering::Less)
        } else if self.wide_addr() > other.wide_addr() {
            Some(Ordering::Greater)
        } else if self.wide_metadata().rank() < other.wide_metadata().rank() {
            Some(Ordering::Less)
        } else if self.wide_metadata().rank() > other.wide_metadata().rank() {
            Some(Ordering::Greater)
        } else {
            Some(Ordering::Equal)
        }
    }
}

impl<T: ?Sized + Pointee, const BASE_ADDR: usize> From<ConstPtr<T, BASE_ADDR>> for MutPtr<T, BASE_ADDR> {
    fn from(v: ConstPtr<T, BASE_ADDR>) -> (r: Self)
        ensures
            r.addr() == v.addr(),
            r.metadata() == v.metadata(),
    {
        let (ptr, metadata) = v.as_raw_parts();
        Self::from_raw_parts(ptr, metadata)
    }
}

impl<T: ?Sized + Pointee, const BASE_ADDR: usize> FromSpecImpl<ConstPtr<T, BASE_ADDR>> for MutPtr<T, BASE_ADDR> {
    open spec fn obeys_from_spec() -> bool {
        true
    }

    closed spec fn from_spec(v: ConstPtr<T, BASE_ADDR>) -> Self {
        MutPtr { ptr: v.addr(), metadata: v.metadata(), _phantom: PhantomData }
    }
}

impl<'a, T: ?Sized + Pointee, const BASE_ADDR: usize> From<RefMut<'a, T, BASE_ADDR>> for MutPtr<T, BASE_ADDR> {
    fn from(v: RefMut<'a, T, BASE_ADDR>) -> (r: Self)
        ensures
            r.addr() == v.target().addr(),
            r.metadata() == v.target().metadata(),
            r.addr() != 0,
    {
        v.into_non_null().as_ptr()
    }
}

impl<'a, T: ?Sized + Pointee, const BASE_ADDR: usize> FromSpecImpl<RefMut<'a, T, BASE_ADDR>> for MutPtr<T, BASE_ADDR> {
    open spec fn obeys_from_spec() -> bool {
        true
    }

    closed spec fn from_spec(v: RefMut<'a, T, BASE_ADDR>) -> Self {
        MutPtr { ptr: v.target().addr(), metadata: v.target().metadata(), _phantom: PhantomData }
    }
}

} // verus!
