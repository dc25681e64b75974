use vstd::prelude::*;
use core::any::TypeId;
use core::mem::MaybeUninit;
use crate::pointee::{Dynamic, Layout, Pointee, TinyOf};
use crate::ptr::{ConstPtr, MutPtr, Unique};
use crate::util::IntoTiny;

verus! {

/// The allocator has no block to give.
#[derive(Clone, Copy, Debug, PartialEq, Eq, Structural)]
pub struct AllocError;

/// Where the owning handle gets its memory from, and gives it back to.
///
/// An allocator hands out blocks by their native address. This crate claims
/// nothing of what an allocator returns: every address that comes back is
/// checked against the arena.
pub trait Allocator {
    /// A block of the given layout, or a failure.
    fn allocate(&self, layout: Layout) -> Result<usize, AllocError>;

    /// A block of the given layout, filled with zeros, or a failure.
    fn allocate_zeroed(&self, layout: Layout) -> Result<usize, AllocError>;

    /// Takes back the block at `addr`, which this allocator gave out for `layout`.
    fn deallocate(&self, addr: usize, layout: Layout);
}

/// One thing to do to the memory of a handle that is given up. The steps of a
/// list are done in the order of the list.
pub enum Step<T: ?Sized + Pointee, const BASE_ADDR: usize> {
    /// Run the destructor of the value at the pointer.
    Destroy(MutPtr<T, BASE_ADDR>),
    /// Move the value at the pointer out, to the caller.
    Take(MutPtr<T, BASE_ADDR>),
    /// Give the block at the native address back to the allocator, with the
    /// layout it was allocated for.
    Free { addr: usize, layout: Layout },
}

/// An owning handle: a value in the arena, with the allocator that its block
/// came from. Whoever holds the handle owns the value and the block.
pub struct Box<T: ?Sized + Pointee, A: Allocator, const BASE_ADDR: usize>(Unique<T, BASE_ADDR>, A);

impl<T: ?Sized + Pointee, A: Allocator, const BASE_ADDR: usize> Box<T, A, BASE_ADDR> {
    /// The pointer is not null, stands for a native address, and points at a
    /// value whose size a `usize` holds.
    #[verifier::type_invariant]
    spec fn valid(self) -> bool {
        Self::can_own(self.0.non_null().addr(), self.0.non_null().metadata())
    }

    /// Whether a handle can own the value at the given offset with the given
    /// metadata: the offset is not null and stands for a native address, and
    /// a `usize` holds the size of the value.
    pub open spec fn can_own(addr: u16, metadata: TinyOf<T>) -> bool {
        &&& addr != 0
        &&& BASE_ADDR + addr <= usize::MAX
        &&& T::size_of_val(T::Metadata::grown(metadata)) <= usize::MAX
    }

    /// The pointer to the value owned.
    pub closed spec fn raw(self) -> MutPtr<T, BASE_ADDR> {
        MutPtr::from_raw_parts_spec(self.0.non_null().addr(), self.0.non_null().metadata())
    }

    /// The allocator that the block came from.
    pub closed spec fn allocator(self) -> A {
        self.1
    }

    /// A handle is no more than its pointer and its allocator: two handles
    /// that agree in both are the same handle, bit for bit. So a handle taken
    /// apart by `into_raw_with_allocator` and put together again by
    /// `from_raw_in` is the handle it was.
    pub proof fn lemma_same_parts(self, other: Self)
        requires
            self.raw() == other.raw(),
            self.allocator() == other.allocator(),
        ensures
            self == other,
    {
        MutPtr::<T, BASE_ADDR>::lemma_from_raw_parts_spec(
            self.0.non_null().addr(),
            self.0.non_null().metadata(),
        );
        MutPtr::<T, BASE_ADDR>::lemma_from_raw_parts_spec(
            other.0.non_null().addr(),
            other.0.non_null().metadata(),
        );
        self.0.non_null().lemma_same_parts(other.0.non_null());
        self.0.lemma_same_pointer(other.0);
    }

    /// Takes the handle apart. The value is not destroyed and the block is
    /// not freed: both are the caller's to look after from here on.
    pub fn into_raw_with_allocator(b: Self) -> (parts: (MutPtr<T, BASE_ADDR>, A))
        ensures
            parts.0 == b.raw(),
            parts.1 == b.allocator(),
            Self::can_own(parts.0.addr(), parts.0.metadata()),
    {
        proof {
            use_type_invariant(&b);
            MutPtr::<T, BASE_ADDR>::lemma_from_raw_parts_spec(
                b.0.non_null().addr(),
                b.0.non_null().metadata(),
            );
        }
        let ptr = b.0.as_ptr();
        proof {
            ptr.lemma_same_parts(b.raw());
        }
        (ptr, b.1)
    }

    /// Gives up the handle for the pointer to the value; the allocator is
    /// dropped.
    pub fn into_raw(b: Self) -> (ptr: MutPtr<T, BASE_ADDR>)
        ensures
            ptr == b.raw(),
            Self::can_own(ptr.addr(), ptr.metadata()),
    {
        Self::into_raw_with_allocator(b).0
    }

    /// Puts a handle together from the pointer to a value and the allocator
    /// that the value's block came from.
    pub fn from_raw_in(ptr: MutPtr<T, BASE_ADDR>, allocator: A) -> (b: Self)
        requires
            Self::can_own(ptr.addr(), ptr.metadata()),
        ensures
            b.raw() == ptr,
            b.allocator() == allocator,
    {
        let b = Box(Unique::new_unchecked(ptr), allocator);
        proof {
            MutPtr::<T, BASE_ADDR>::lemma_from_raw_parts_spec(ptr.addr(), ptr.metadata());
            ptr.lemma_same_parts(b.raw());
        }
        b
    }

    /// The pointer to the value owned, to read through.
    pub fn as_ptr(&self) -> (ptr: ConstPtr<T, BASE_ADDR>)
        where TinyOf<T>: Copy
        ensures
            ptr.addr() == self.raw().addr(),
            ptr.metadata() == self.raw().metadata(),
            Self::can_own(ptr.addr(), ptr.metadata()),
    {
        proof {
            use_type_invariant(self);
            MutPtr::<T, BASE_ADDR>::lemma_from_raw_parts_spec(
                self.0.non_null().addr(),
                self.0.non_null().metadata(),
            );
        }
        let (addr, metadata) = self.0.as_ptr().as_raw_parts();
        ConstPtr::from_raw_parts(addr, metadata)
    }

    /// The pointer to the value owned, to write through.
    pub fn as_mut_ptr(&mut self) -> (ptr: MutPtr<T, BASE_ADDR>)
        where TinyOf<T>: Copy
        ensures
            ptr == old(self).raw(),
            *final(self) == *old(self),
            Self::can_own(ptr.addr(), ptr.metadata()),
    {
        proof {
            use_type_invariant(&*self);
            MutPtr::<T, BASE_ADDR>::lemma_from_raw_parts_spec(
                self.0.non_null().addr(),
                self.0.non_null().metadata(),
            );
        }
        let ptr = self.0.as_ptr();
        proof {
            ptr.lemma_same_parts(self.raw());
        }
        ptr
    }

    /// Gives up the handle. What is left to do, in this order: destroy the
    /// value, then free its block, with the layout of the value. The allocator
    /// to free it with comes back with the list.
    pub fn release(self) -> (plan: (Vec<Step<T, BASE_ADDR>>, A))
        where TinyOf<T>: Copy
        ensures
            plan.0@ == seq![
                Step::Destroy(self.raw()),
                Step::Free {
                    addr: self.raw().wide_addr() as usize,
                    layout: (Layout {
                        size: T::size_of_val(self.raw().wide_metadata()) as usize,
                        align: T::align_of_val(self.raw().wide_metadata()) as usize,
                    }),
                },
            ],
            plan.1 == self.allocator(),
    {
        let (ptr, alloc) = Self::into_raw_with_allocator(self);
        let (addr, metadata) = ptr.as_wide_ptr();
        let layout = T::layout(metadata).unwrap();
        let mut steps = Vec::new();
        steps.push(Step::Destroy(ptr));
        steps.push(Step::Free { addr, layout });
        (steps, alloc)
    }
}

impl<T, A: Allocator, const BASE_ADDR: usize> Box<T, A, BASE_ADDR> {
    /// Whether `r` is what becomes of the answer `block` that the allocator
    /// `alloc` gave: the handle on the block, with that allocator, where the
    /// block is not null and lies in the arena; and a failure otherwise.
    pub open spec fn allocated(
        block: Result<usize, AllocError>,
        alloc: A,
        r: Result<Box<MaybeUninit<T>, A, BASE_ADDR>, AllocError>,
    ) -> bool {
        match block {
            Ok(addr) if addr != 0 && crate::encodable(BASE_ADDR as int, addr as int) => {
                &&& r matches Ok(b)
                &&& b.raw().addr() == crate::encode(BASE_ADDR as int, addr as int)
                &&& b.raw().wide_addr() == addr
                &&& b.allocator() == alloc
            },
            _ => r == Err::<Box<MaybeUninit<T>, A, BASE_ADDR>, AllocError>(AllocError),
        }
    }

    /// The handle on the block that an allocator answered with, for a value
    /// of type `T` that is yet to be written.
    ///
    /// There is a handle if the allocator gave a block and the block lies in
    /// the arena; else the allocation has failed. A null address is no block.
    /// A block outside the arena is not given back to the allocator.
    pub fn from_allocation(block: Result<usize, AllocError>, alloc: A) -> (r: Result<
        Box<MaybeUninit<T>, A, BASE_ADDR>,
        AllocError,
    >)
        ensures
            Self::allocated(block, alloc, r),
    {
        let addr = match block {
            Ok(addr) => addr,
            Err(e) => {
                return Err(e);
            },
        };
        if addr == 0 {
            return Err(AllocError);
        }
        vstd::layout::layout_for_type_is_valid::<MaybeUninit<T>>();
        match MutPtr::<MaybeUninit<T>, BASE_ADDR>::new(addr, ()) {
            Some(ptr) => Ok(Box::from_raw_in(ptr, alloc)),
            None => Err(AllocError),
        }
    }

    /// A handle on a fresh block for a value of type `T`; the value is yet to
    /// be written. The allocator is asked once, for a block of the layout of
    /// `T`, and the result is what `from_allocation` makes of its answer: a
    /// failure if the allocator has no block, or gives one outside the arena.
    pub fn try_new_uninit_in(alloc: A) -> (r: Result<Box<MaybeUninit<T>, A, BASE_ADDR>, AllocError>)
        ensures
            exists|block: Result<usize, AllocError>|
                {
                    &&& #[trigger] call_ensures(
                        A::allocate,
                        (&alloc, Layout::for_type::<MaybeUninit<T>>()),
                        block,
                    )
                    &&& Self::allocated(block, alloc, r)
                },
            r matches Ok(b) ==> {
                &&& b.allocator() == alloc
                &&& b.raw().addr() != 0
                &&& crate::encodable(BASE_ADDR as int, b.raw().wide_addr())
            },
    {
        let layout = Layout::new::<MaybeUninit<T>>();
        let block = alloc.allocate(layout);
        Self::from_allocation(block, alloc)
    }

    /// A handle on a fresh block of zeros for a value of type `T`; whether the
    /// zeros are a value of type `T` is for the caller to say. The allocator
    /// is asked once, for a zeroed block of the layout of `T`, and the result
    /// is what `from_allocation` makes of its answer: a failure if the
    /// allocator has no block, or gives one outside the arena.
    pub fn try_new_zeroed_in(alloc: A) -> (r: Result<Box<MaybeUninit<T>, A, BASE_ADDR>, AllocError>)
        ensures
            exists|block: Result<usize, AllocError>|
                {
                    &&& #[trigger] call_ensures(
                        A::allocate_zeroed,
                        (&alloc, Layout::for_type::<MaybeUninit<T>>()),
                        block,
                    )
                    &&& Self::allocated(block, alloc, r)
                },
            r matches Ok(b) ==> {
                &&& b.allocator() == alloc
                &&& b.raw().addr() != 0
                &&& crate::encodable(BASE_ADDR as int, b.raw().wide_addr())
            },
    {
        let layout = Layout::new::<MaybeUninit<T>>();
        let block = alloc.allocate_zeroed(layout);
        Self::from_allocation(block, alloc)
    }

    /// The handle on the same value, taken as a sequence of one element.
    pub fn into_boxed_slice(boxed: Self) -> (r: Box<[T], A, BASE_ADDR>)
        ensures
            r.raw().addr() == boxed.raw().addr(),
            r.raw().metadata() == 1,
            r.allocator() == boxed.allocator(),
    {
        let (ptr, alloc) = Box::into_raw_with_allocator(boxed);
        let (addr, _) = ptr.as_raw_parts();
        vstd::layout::layout_for_type_is_valid::<T>();
        assert(1 * vstd::layout::size_of::<T>() == vstd::layout::size_of::<T>());
        Box::from_raw_in(MutPtr::<[T], BASE_ADDR>::from_raw_parts(addr, 1), alloc)
    }

    /// Gives up the handle for the value. What is left to do, in this order:
    /// move the value out, then free its block. The value is not destroyed: it
    /// lives on with the caller. The allocator to free the block with comes
    /// back with the list.
    pub fn into_inner(boxed: Self) -> (plan: (Vec<Step<T, BASE_ADDR>>, A))
        ensures
            plan.0@ == seq![
                Step::Take(boxed.raw()),
                Step::Free {
                    addr: boxed.raw().wide_addr() as usize,
                    layout: (Layout {
                        size: vstd::layout::size_of::<T>() as usize,
                        align: vstd::layout::align_of::<T>() as usize,
                    }),
                },
            ],
            plan.1 == boxed.allocator(),
    {
        let (ptr, alloc) = Self::into_raw_with_allocator(boxed);
        let (addr, _) = ptr.as_wide_ptr();
        broadcast use vstd::layout::layout_of_maybe_uninit;

        let layout = Layout::new::<MaybeUninit<T>>();
        let mut steps = Vec::new();
        steps.push(Step::Take(ptr));
        steps.push(Step::Free { addr, layout });
        (steps, alloc)
    }
}

impl<T, A: Allocator, const BASE_ADDR: usize> Box<MaybeUninit<T>, A, BASE_ADDR> {
    /// The handle on the same block, now that a value has been written to it.
    pub fn assume_init(self) -> (r: Box<T, A, BASE_ADDR>)
        ensures
            r.raw().addr() == self.raw().addr(),
            r.allocator() == self.allocator(),
    {
        broadcast use vstd::layout::layout_of_maybe_uninit;

        let (raw, alloc) = Box::into_raw_with_allocator(self);
        Box::from_raw_in(raw.cast(), alloc)
    }
}

impl<T, A: Allocator, const BASE_ADDR: usize> Box<[MaybeUninit<T>], A, BASE_ADDR> {
    /// The handle on the same block, now that every element has been written.
    pub fn assume_init(self) -> (r: Box<[T], A, BASE_ADDR>)
        ensures
            r.raw().addr() == self.raw().addr(),
            r.raw().metadata() == self.raw().metadata(),
            r.allocator() == self.allocator(),
    {
        broadcast use vstd::layout::layout_of_maybe_uninit;

        let (raw, alloc) = Box::into_raw_with_allocator(self);
        let (ptr, metadata) = raw.as_raw_parts();
        Box::from_raw_in(MutPtr::from_raw_parts(ptr, metadata), alloc)
    }
}

impl<A: Allocator, const BASE_ADDR: usize> Box<dyn Dynamic, A, BASE_ADDR> {
    /// The handle on the same value as a value of type `T`, if the value has
    /// the tag `wanted`, which is for the caller to choose as the tag of `T`.
    /// If the value has another tag, the handle comes back as it was.
    pub fn downcast_tagged<T>(self, wanted: &TypeId) -> (r: Result<Box<T, A, BASE_ADDR>, Self>)
        ensures
            self.raw().metadata().tag() == *wanted ==> {
                &&& r matches Ok(b)
                &&& b.raw().addr() == self.raw().addr()
                &&& b.allocator() == self.allocator()
            },
            self.raw().metadata().tag() != *wanted ==> r == Err::<Box<T, A, BASE_ADDR>, Self>(
                self,
            ),
    {
        let ghost me = self;
        let (raw, alloc) = Box::into_raw_with_allocator(self);
        let (_, descriptor) = raw.as_raw_parts();
        if descriptor.has_tag(wanted) {
            vstd::layout::layout_for_type_is_valid::<T>();
            Ok(Box::from_raw_in(raw.cast::<T>(), alloc))
        } else {
            let back = Box::from_raw_in(raw, alloc);
            proof {
                back.lemma_same_parts(me);
            }
            Err(back)
        }
    }

    /// The handle on the same value as a value of type `T`, if the value is of
    /// type `T`. If it is of another type, the handle comes back as it was.
    pub fn downcast<T: 'static>(self) -> (r: Result<Box<T, A, BASE_ADDR>, Self>)
        ensures
            r matches Ok(b) ==> b.raw().addr() == self.raw().addr() && b.allocator()
                == self.allocator(),
            r matches Err(e) ==> e == self,
    {
        let wanted = crate::pointee::tag_of::<T>();
        self.downcast_tagged::<T>(&wanted)
    }
}

} // verus!
