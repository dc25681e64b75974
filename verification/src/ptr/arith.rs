//! Arithmetic on offsets, shared by the pointer types.

use vstd::prelude::*;
use vstd::arithmetic::div_mod::{
    lemma_add_mod_noop,
    lemma_add_mod_noop_right,
    lemma_fundamental_div_mod,
    lemma_mod_mod,
    lemma_mod_multiples_vanish,
    lemma_mod_twice,
    lemma_mul_mod_noop_left,
    lemma_mul_mod_noop_right,
    lemma_small_mod,
};

verus! {

/// The offset that an integer wraps to: its remainder modulo 65536.
pub open spec fn wrap16(x: int) -> u16 {
    (x % 65536) as u16
}

/// Wrapping leaves an integer that is already an offset as it is, and does not
/// see a multiple of 65536.
pub proof fn lemma_wrap16(x: int, k: int)
    ensures
        0 <= x < 65536 ==> wrap16(x) == x,
        wrap16(x + k * 65536) == wrap16(x),
{
    lemma_mod_multiples_vanish(k, x, 65536);
}

/// Going on from where a first step has wrapped to is going on from where it
/// would have led without wrapping: two steps are one step of their sum, no
/// step is no move, and a step back undoes a step on.
pub proof fn lemma_wrap16_again(x: int, y: int)
    ensures
        wrap16(wrap16(x) + y) == wrap16(x + y),
{
    lemma_add_mod_noop_right(y, x, 65536);
}

/// Whether going on by `k` elements of `stride` bytes from the address `addr`
/// reaches a multiple of `align`.
pub open spec fn aligned_after(addr: int, stride: int, align: int, k: int) -> bool {
    (addr + k * stride) % align == 0
}

/// Whether `r` answers the question how many elements to go on by to reach a
/// multiple of `align`: the least such number if there is one, and
/// `usize::MAX` if there is none.
pub open spec fn is_align_offset(addr: int, stride: int, align: int, r: usize) -> bool {
    if exists|k: int| 0 <= k && #[trigger] aligned_after(addr, stride, align, k) {
        &&& aligned_after(addr, stride, align, r as int)
        &&& forall|k: int| 0 <= k < r ==> !#[trigger] aligned_after(addr, stride, align, k)
    } else {
        r == usize::MAX
    }
}

/// Whether a multiple of `align` is reached depends on the number of elements
/// modulo `align` only.
proof fn lemma_aligned_after_periodic(addr: int, stride: int, align: int, k: int)
    requires
        align > 0,
    ensures
        aligned_after(addr, stride, align, k) == aligned_after(addr, stride, align, k % align),
{
    lemma_mul_mod_noop_left(k, stride, align);
    lemma_add_mod_noop_right(addr, k * stride, align);
    lemma_add_mod_noop_right(addr, (k % align) * stride, align);
}

/// Where a number divides the stride and the alignment but not the address,
/// no number of elements reaches a multiple of the alignment.
proof fn lemma_never_aligned(addr: int, stride: int, align: int, g: int, k: int)
    requires
        align > 0,
        g > 0,
        stride % g == 0,
        align % g == 0,
        addr % g != 0,
    ensures
        !aligned_after(addr, stride, align, k),
{
    let x = addr + k * stride;
    // the stride is a multiple of g, so x and addr leave one remainder
    lemma_fundamental_div_mod(stride, g);
    assert(x == g * (k * (stride / g)) + addr) by (nonlinear_arith)
        requires
            x == addr + k * stride,
            stride == g * (stride / g) + stride % g,
            stride % g == 0,
    ;
    lemma_mod_multiples_vanish(k * (stride / g), addr, g);
    // the alignment is a multiple of g, so a multiple of it is one of g
    lemma_fundamental_div_mod(align, g);
    let q = align / g;
    assert(q > 0 && align == g * q) by (nonlinear_arith)
        requires
            align == g * q + align % g,
            align % g == 0,
            align > 0,
            g > 0,
    ;
    lemma_mod_mod(x, g, q);
    if x % align == 0 {
        lemma_small_mod(0, g as nat);
        assert(false);
    }
}

/// The offset `count` elements of `size` bytes away from `ptr`, wrapping
/// modulo 65536.
pub(crate) fn offset_by(ptr: u16, count: i16, size: usize) -> (r: u16)
    ensures
        r == wrap16(ptr + count * size),
{
    let low: u16 = (size % 65536) as u16;
    let stride: i16 = if low >= 32768 {
        (low as i32 - 65536) as i16
    } else {
        low as i16
    };
    let scaled = count.wrapping_mul(stride);
    let r = ptr.wrapping_add_signed(scaled);
    proof {
        let m = 65536int;
        let s = size as int;
        let c = count as int;
        assert((stride as int) % m == s % m) by {
            if low >= 32768 {
                lemma_mod_multiples_vanish(-1, low as int, m);
            }
            lemma_small_mod(low as nat, m as nat);
            lemma_mod_twice(s, m);
        }
        assert((scaled as int) % m == (c * stride) % m) by {
            let x = c * stride;
            if (x % m) > i16::MAX as int {
                lemma_mod_multiples_vanish(-1, x % m, m);
            }
            lemma_mod_twice(x, m);
        }
        assert((c * stride) % m == (c * s) % m) by {
            lemma_mul_mod_noop_right(c, stride as int, m);
            lemma_mul_mod_noop_right(c, s, m);
        }
        assert((ptr + scaled) % m == (ptr + c * s) % m) by {
            lemma_add_mod_noop_right(ptr as int, scaled as int, m);
            lemma_add_mod_noop_right(ptr as int, c * s, m);
        }
        assert(r as int == (ptr + scaled) % m) by {
            if ptr + scaled > u16::MAX {
                lemma_mod_multiples_vanish(-1, ptr + scaled, m);
            } else if ptr + scaled < 0 {
                lemma_mod_multiples_vanish(1, ptr + scaled, m);
            }
            lemma_small_mod(r as nat, m as nat);
        }
    }
    r
}

/// The offset `count` elements of `size` bytes after `ptr`, wrapping modulo 65536.
pub(crate) fn advance(ptr: u16, count: u16, size: usize) -> (r: u16)
    ensures
        r == wrap16(ptr + count * size),
{
    let signed: i16 = if count >= 32768 {
        (count as i32 - 65536) as i16
    } else {
        count as i16
    };
    proof {
        if count >= 32768 {
            assert(ptr + signed * size == (ptr + count * size) + (-(size as int)) * 65536)
                by (nonlinear_arith)
                requires
                    signed == count - 65536,
            ;
            lemma_wrap16(ptr + count * size, -(size as int));
        }
    }
    offset_by(ptr, signed, size)
}

/// The offset `count` elements of `size` bytes before `ptr`, wrapping modulo 65536.
pub(crate) fn retreat(ptr: u16, count: u16, size: usize) -> (r: u16)
    ensures
        r == wrap16(ptr - count * size),
{
    let signed: i16 = if count >= 32768 {
        (count as i32 - 65536) as i16
    } else {
        count as i16
    };
    let back: i16 = 0i16.wrapping_sub(signed);
    proof {
        if 32768 < count {
            assert(ptr + back * size == (ptr - count * size) + (size as int) * 65536)
                by (nonlinear_arith)
                requires
                    back == 65536 - count,
            ;
            lemma_wrap16(ptr - count * size, size as int);
        } else {
            assert(ptr + back * size == ptr - count * size) by (nonlinear_arith)
                requires
                    back == -count,
            ;
        }
    }
    offset_by(ptr, back, size)
}

/// The number of elements of `size` bytes from the offset `origin` to the
/// offset `ptr`.
pub(crate) fn distance(ptr: u16, origin: u16, size: usize) -> (r: isize)
    requires
        size > 0,
        (ptr - origin) % (size as int) == 0,
    ensures
        r * size == ptr - origin,
{
    if ptr >= origin {
        let bytes = (ptr - origin) as usize;
        let r = (bytes / size) as isize;
        proof {
            lemma_fundamental_div_mod(bytes as int, size as int);
            assert(r * size == size * r) by (nonlinear_arith);
        }
        r
    } else {
        let bytes = (origin - ptr) as usize;
        let q = (bytes / size) as isize;
        proof {
            let d = ptr - origin;
            let s = size as int;
            lemma_fundamental_div_mod(d, s);
            // the way back is a whole number of elements too
            assert(bytes as int == s * (-(d / s)) + 0) by (nonlinear_arith)
                requires
                    d == s * (d / s) + d % s,
                    d % s == 0,
                    bytes == -d,
            ;
            lemma_mod_multiples_vanish(-(d / s), 0, s);
            lemma_small_mod(0, s as nat);
            lemma_fundamental_div_mod(bytes as int, s);
            assert((-q) * size == ptr - origin) by (nonlinear_arith)
                requires
                    bytes as int == s * (bytes as int / s) + bytes as int % s,
                    bytes as int % s == 0,
                    q == bytes as int / s,
                    bytes == origin - ptr,
                    s == size,
            ;
        }
        -q
    }
}

/// The least number of elements of `stride` bytes to go on by from `addr` to
/// reach a multiple of `align`, or `usize::MAX` if there is none.
pub(crate) fn elements_to_align(addr: usize, stride: usize, align: usize) -> (r: usize)
    requires
        align > 0,
    ensures
        is_align_offset(addr as int, stride as int, align as int, r),
{
    // the largest power of two, up to the alignment, that divides both the
    // stride and the alignment: where it does not divide the address, the
    // search below would run the whole length and find nothing
    let mut g: usize = 1;
    while g <= align / 2 && stride % (g * 2) == 0 && align % (g * 2) == 0
        invariant
            0 < g <= align,
            stride % g == 0,
            align % g == 0,
        decreases align - g,
    {
        g = g * 2;
    }
    if addr % g != 0 {
        proof {
            assert forall|j: int| 0 <= j implies !#[trigger] aligned_after(
                addr as int,
                stride as int,
                align as int,
                j,
            ) by {
                lemma_never_aligned(addr as int, stride as int, align as int, g as int, j);
            }
        }
        return usize::MAX;
    }
    let step = stride % align;
    let mut cur = addr % align;
    let mut k: usize = 0;
    while k < align
        invariant
            align > 0,
            k <= align,
            step == stride % align,
            cur == (addr + k * stride) % (align as int),
            forall|j: int| 0 <= j < k ==> !#[trigger] aligned_after(addr as int, stride as int, align as int, j),
        decreases align - k,
    {
        if cur == 0 {
            assert(aligned_after(addr as int, stride as int, align as int, k as int));
            return k;
        }
        let ghost before = cur;
        cur = if cur >= align - step {
            cur - (align - step)
        } else {
            cur + step
        };
        proof {
            let m = align as int;
            let x = addr + k * stride;
            assert(addr + (k + 1) * stride == x + stride) by (nonlinear_arith)
                requires
                    x == addr + k * stride,
            ;
            lemma_add_mod_noop(x, stride as int, m);
            if before + step >= m {
                lemma_mod_multiples_vanish(-1, before + step, m);
            }
            lemma_small_mod(cur as nat, m as nat);
        }
        k = k + 1;
    }
    proof {
        assert forall|j: int| 0 <= j implies !#[trigger] aligned_after(
            addr as int,
            stride as int,
            align as int,
            j,
        ) by {
            lemma_aligned_after_periodic(addr as int, stride as int, align as int, j);
            assert(0 <= j % (align as int) < align);
        }
    }
    usize::MAX
}

} // verus!
