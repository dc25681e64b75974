//! What a pointer has to know of the kind of value it points to.

use vstd::prelude::*;
use crate::util::IntoTiny;
use core::any::TypeId;

verus! {

/// The size and the alignment of a block of memory, in bytes.
#[derive(Clone, Copy, Debug, PartialEq, Eq, Structural)]
pub struct Layout {
    pub size: usize,
    pub align: usize,
}

impl Layout {
    /// The layout of a value of type `T`.
    pub open spec fn for_type<T>() -> Layout {
        Layout {
            size: vstd::layout::size_of::<T>() as usize,
            align: vstd::layout::align_of::<T>() as usize,
        }
    }

    /// The layout of a value of type `T`.
    pub fn new<T>() -> (layout: Layout)
        ensures
            layout == Layout::for_type::<T>(),
            layout.size == vstd::layout::size_of::<T>(),
            layout.align == vstd::layout::align_of::<T>(),
    {
        Layout { size: core::mem::size_of::<T>(), align: core::mem::align_of::<T>() }
    }
}

/// A kind of value that a pointer can point to: sized values, sequences, and
/// values whose type is known only at run time.
pub trait Pointee {
    /// What a native pointer to such a value carries beside the address.
    type Metadata: IntoTiny;

    /// The size in bytes of the value that the metadata describes.
    spec fn size_of_val(metadata: Self::Metadata) -> nat;

    /// The alignment in bytes of the value that the metadata describes.
    spec fn align_of_val(metadata: Self::Metadata) -> nat;

    /// The layout of the value that the metadata describes; none if its size
    /// is more than a `usize` holds.
    fn layout(metadata: Self::Metadata) -> (layout: Option<Layout>)
        ensures
            layout == if Self::size_of_val(metadata) <= usize::MAX {
                Some(
                    (Layout {
                        size: Self::size_of_val(metadata) as usize,
                        align: Self::align_of_val(metadata) as usize,
                    }),
                )
            } else {
                None
            },
    ;
}

/// The small form of the metadata of a pointer to `T`.
pub type TinyOf<T> = <<T as Pointee>::Metadata as IntoTiny>::Tiny;

/// A sized value: its pointers carry nothing beside the address.
impl<T> Pointee for T {
    type Metadata = ();

    open spec fn size_of_val(metadata: ()) -> nat {
        vstd::layout::size_of::<T>()
    }

    open spec fn align_of_val(metadata: ()) -> nat {
        vstd::layout::align_of::<T>()
    }

    fn layout(metadata: ()) -> (layout: Option<Layout>) {
        Some(Layout::new::<T>())
    }
}

/// A sequence: its pointers carry the number of elements.
impl<T> Pointee for [T] {
    type Metadata = usize;

    open spec fn size_of_val(metadata: usize) -> nat {
        metadata as nat * vstd::layout::size_of::<T>()
    }

    open spec fn align_of_val(metadata: usize) -> nat {
        vstd::layout::align_of::<T>()
    }

    fn layout(metadata: usize) -> (layout: Option<Layout>) {
        let size = core::mem::size_of::<T>();
        let align = core::mem::align_of::<T>();
        match metadata.checked_mul(size) {
            Some(total) => Some(Layout { size: total, align }),
            None => None,
        }
    }
}

/// Stands for a value whose type is known only at run time.
pub trait Dynamic {
}

/// What a pointer to a value of a type known only at run time carries: the
/// tag of that type, and the size and alignment of its values.
#[derive(Clone, Copy)]
pub struct DynMetadata {
    type_id: TypeId,
    size: usize,
    align: usize,
}

impl DynMetadata {
    /// The tag of the type described.
    pub closed spec fn tag(self) -> TypeId {
        self.type_id
    }

    /// The size in bytes of a value of the type described.
    pub closed spec fn size(self) -> usize {
        self.size
    }

    /// The alignment in bytes of a value of the type described.
    pub closed spec fn align(self) -> usize {
        self.align
    }

    /// The descriptor of the type `T`.
    pub fn of<T: 'static>() -> (m: DynMetadata)
        ensures
            m.size() == vstd::layout::size_of::<T>(),
            m.align() == vstd::layout::align_of::<T>(),
    {
        DynMetadata {
            type_id: tag_of::<T>(),
            size: core::mem::size_of::<T>(),
            align: core::mem::align_of::<T>(),
        }
    }

    /// The tag of the type described.
    pub fn type_id(&self) -> (id: TypeId)
        ensures
            id == self.tag(),
    {
        self.type_id
    }

    /// The size in bytes of a value of the type described.
    pub fn size_of(&self) -> (size: usize)
        ensures
            size == self.size(),
    {
        self.size
    }

    /// The alignment in bytes of a value of the type described.
    pub fn align_of(&self) -> (align: usize)
        ensures
            align == self.align(),
    {
        self.align
    }

    /// Whether the type described has the tag `wanted`.
    pub fn has_tag(&self, wanted: &TypeId) -> (r: bool)
        ensures
            r == (self.tag() == *wanted),
    {
        same_type_id(&self.type_id, wanted)
    }

    /// Whether the type described is `T`: whether its tag is the tag that a
    /// descriptor of `T`, as `of` makes it, carries.
    pub fn is<T: 'static>(&self) -> (r: bool)
        ensures
            exists|other: DynMetadata| #[trigger]
                call_ensures(DynMetadata::of::<T>, (), other) && r == (self.tag() == other.tag()),
    {
        let other = DynMetadata::of::<T>();
        self.has_tag(&other.type_id)
    }
}

/// A descriptor has a fixed width already: it is its own small form.
impl IntoTiny for DynMetadata {
    type Tiny = DynMetadata;

    open spec fn fits(self) -> bool {
        true
    }

    open spec fn shrunk(self) -> DynMetadata {
        self
    }

    open spec fn grown(t: DynMetadata) -> DynMetadata {
        t
    }

    proof fn lemma_grow_shrunk(self) {
    }

    fn into_tiny_unchecked(self) -> (t: DynMetadata) {
        self
    }

    fn into_tiny(self) -> (t: Option<DynMetadata>) {
        Some(self)
    }

    fn from_tiny(t: DynMetadata) -> (m: DynMetadata) {
        t
    }
}

/// A value of a type known only at run time: its pointers carry a descriptor.
impl Pointee for dyn Dynamic {
    type Metadata = DynMetadata;

    open spec fn size_of_val(metadata: DynMetadata) -> nat {
        metadata.size() as nat
    }

    open spec fn align_of_val(metadata: DynMetadata) -> nat {
        metadata.align() as nat
    }

    fn layout(metadata: DynMetadata) -> (layout: Option<Layout>) {
        Some(Layout { size: metadata.size_of(), align: metadata.align_of() })
    }
}

/// Metadata that native pointers are ordered by, after the address.
pub trait Ranked: IntoTiny {
    /// The number that native pointer comparison reads the metadata as.
    spec fn rank(self) -> int;

    /// Two metadata values of one rank are the same value.
    proof fn lemma_rank_injective(self, other: Self)
        requires
            self.rank() == other.rank(),
        ensures
            self == other,
    ;

    /// The rank of the metadata that a small form stands for.
    fn rank_of(t: &Self::Tiny) -> (r: usize)
        ensures
            r == Self::grown(*t).rank(),
    ;
}

impl Ranked for () {
    open spec fn rank(self) -> int {
        0
    }

    proof fn lemma_rank_injective(self, other: ()) {
    }

    fn rank_of(t: &()) -> (r: usize) {
        0
    }
}

impl Ranked for usize {
    open spec fn rank(self) -> int {
        self as int
    }

    proof fn lemma_rank_injective(self, other: usize) {
    }

    fn rank_of(t: &u16) -> (r: usize) {
        *t as usize
    }
}

/// `core::any::TypeId`, the run-time tag of a type, as a value that is only
/// carried about: nothing of its inside is known here.
#[verifier::external_type_specification]
#[verifier::external_body]
pub struct ExTypeId(TypeId);

/// Calls `TypeId::of::<T>()`, which gives the tag of the type `T`. Nothing is
/// claimed of the tag that comes back.
#[verifier::external_body]
pub(crate) fn tag_of<T: 'static>() -> (id: TypeId) {
    TypeId::of::<T>()
}

/// Calls `==` on two values of `TypeId`, and claims that it tells whether the
/// two are one and the same tag.
#[verifier::external_body]
fn same_type_id(a: &TypeId, b: &TypeId) -> (r: bool)
    ensures
        r == (*a == *b),
{
    a == b
}

} // verus!
