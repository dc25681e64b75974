//! Sixteen-bit pointers into an arena of at most 65536 bytes.
//!
//! A pointer of this crate is an offset from a fixed arena base, together with
//! the pointee's metadata in a small form. Offset zero is the null pointer;
//! offsets `1..=65535` stand for the native address `base + offset`.
//!
//! This crate holds the representation and its rules. It never touches the
//! memory behind an address: a native address is a `usize` here, and the
//! caller turns it into a machine pointer.

use vstd::prelude::*;

mod alloc_integration;
pub mod pointee;
pub mod ptr;
mod reference;
pub mod util;

pub use alloc_integration::{AllocError, Allocator, Box, Step};
pub use reference::{Ref, RefMut};

verus! {

/// The small form of a host-word length.
pub type TinyUSize = u16;

/// Whether the native address `addr` can be written as an offset from `base`:
/// it is null, or lies strictly inside the 65536-byte window that starts at `base`.
pub open spec fn encodable(base: int, addr: int) -> bool {
    addr == 0 || base < addr < base + 65536
}

/// The offset that stands for the native address `addr`; zero stands for null.
pub open spec fn encode(base: int, addr: int) -> u16
    recommends
        encodable(base, addr),
{
    if addr == 0 {
        0u16
    } else {
        (addr - base) as u16
    }
}

/// The native address that the offset `ptr` stands for; null (zero) for offset zero.
pub open spec fn decode(base: int, ptr: u16) -> int {
    if ptr == 0 {
        0
    } else {
        base + ptr
    }
}

/// Decoding the offset of an encodable address gives the address back.
pub proof fn lemma_decode_encode(base: int, addr: int)
    requires
        encodable(base, addr),
    ensures
        decode(base, encode(base, addr)) == addr,
{
}

/// Every offset decodes to an encodable address, whose offset it is: over a
/// base that is not negative, `encode` and `decode` are inverse bijections
/// between the offsets and the encodable addresses.
pub proof fn lemma_encode_decode(base: int, ptr: u16)
    requires
        0 <= base,
    ensures
        encodable(base, decode(base, ptr)),
        encode(base, decode(base, ptr)) == ptr,
{
}

/// Null is offset zero and offset zero is null, whatever the base.
pub proof fn lemma_null_identity(base: int)
    ensures
        encodable(base, 0),
        encode(base, 0) == 0,
        decode(base, 0) == 0,
{
}

/// Two offsets stand in the order of the native addresses they decode to.
pub proof fn lemma_decode_monotonic(base: int, a: u16, b: u16)
    requires
        0 <= base,
    ensures
        a < b <==> decode(base, a) < decode(base, b),
        a == b <==> decode(base, a) == decode(base, b),
{
}

/// Converts a native address to an offset without checking the range.
pub fn ptr_to_u16_unchecked<const BASE_ADDR: usize>(addr: usize) -> (ptr: u16)
    requires
        encodable(BASE_ADDR as int, addr as int),
    ensures
        ptr == encode(BASE_ADDR as int, addr as int),
{
    if addr == 0 {
        return 0;
    }
    (addr - BASE_ADDR) as u16
}

/// Converts a native address to an offset, if it is null or lies inside the arena.
pub fn ptr_to_u16<const BASE_ADDR: usize>(addr: usize) -> (ptr: Option<u16>)
    ensures
        ptr == if encodable(BASE_ADDR as int, addr as int) {
            Some(encode(BASE_ADDR as int, addr as int))
        } else {
            None
        },
{
    if addr == 0 {
        return Some(0);
    }
    if addr <= BASE_ADDR || addr - BASE_ADDR >= 65536 {
        return None;
    }
    Some((addr - BASE_ADDR) as u16)
}

/// Converts an offset back to the native address it stands for.
pub fn u16_to_ptr<const BASE_ADDR: usize>(ptr: u16) -> (addr: usize)
    requires
        ptr != 0 ==> BASE_ADDR + ptr <= usize::MAX,
    ensures
        addr == decode(BASE_ADDR as int, ptr),
{
    if ptr == 0 {
        return 0;
    }
    ptr as usize + BASE_ADDR
}

} // verus!
