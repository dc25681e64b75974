use core::cmp::Ordering;
use tinyptr::ptr::{ConstPtr, MutPtr, NonNull, Unique};
use tinyptr::{Ref, RefMut};

const BASE: usize = 0x8000_0000;

type Const<T> = ConstPtr<T, BASE>;
type Mut<T> = MutPtr<T, BASE>;

#[test]
fn new_compresses_an_address_in_the_arena() {
    let p = Const::<u32>::new(0x8000_0010, ()).unwrap();
    assert_eq!(p.as_raw_parts(), (0x10, ()));
    let q = Mut::<u32>::new(0x8000_FFFF, ()).unwrap();
    assert_eq!(q.as_raw_parts(), (0xFFFF, ()));
}

#[test]
fn new_refuses_an_address_outside_the_arena() {
    assert!(Const::<u32>::new(0x9000_0000, ()).is_none());
    assert!(Mut::<u32>::new(0x9000_0000, ()).is_none());
    assert!(Const::<u32>::new(BASE, ()).is_none());
    assert!(Mut::<u32>::new(BASE + 65536, ()).is_none());
    assert!(Const::<[u8]>::new(0x7000_0000, 3).is_none());
}

#[test]
fn new_refuses_metadata_that_does_not_fit() {
    assert!(Const::<[u8]>::new(0x8000_0010, 70000).is_none());
    assert!(Mut::<[u8]>::new(0x8000_0010, 65536).is_none());
    assert!(Mut::<[u8]>::new(0x9000_0000, 70000).is_none());
}

#[test]
fn new_keeps_the_length_of_a_sequence() {
    let p = Const::<[u32]>::new(0x8000_0100, 65535).unwrap();
    assert_eq!(p.as_raw_parts(), (0x100, 65535));
    assert_eq!(p.as_wide_ptr(), (0x8000_0100, 65535));
    let q = Mut::<[u32]>::new(0x8000_0100, 0).unwrap();
    assert_eq!(q.as_wide_ptr(), (0x8000_0100, 0));
}

#[test]
fn new_of_null_is_the_null_pointer() {
    let p = Const::<u32>::new(0, ()).unwrap();
    assert!(p.is_null());
    assert_eq!(p.as_raw_parts().0, 0);
    assert_eq!(p.as_wide_ptr(), (0, ()));
    let q = Mut::<[u8]>::new(0, 9).unwrap();
    assert!(q.is_null());
    assert_eq!(q.as_wide_ptr(), (0, 9));
}

#[test]
fn new_unchecked_agrees_with_new() {
    let p = Const::<u32>::new_unchecked(0x8000_0420, ());
    assert!(p == Const::<u32>::new(0x8000_0420, ()).unwrap());
    let q = Mut::<[u16]>::new_unchecked(0x8000_0420, 12);
    assert_eq!(q.as_raw_parts(), (0x420, 12));
    assert!(Mut::<u8>::new_unchecked(0, ()).is_null());
}

#[test]
fn wide_pointer_of_a_compressed_pointer_is_the_pointer_compressed() {
    let mut addr = BASE + 1;
    while addr < BASE + 65536 {
        let p = Const::<[u8]>::new(addr, addr % 1000).unwrap();
        assert_eq!(p.as_wide_ptr(), (addr, addr % 1000));
        let q = Mut::<u64>::new(addr, ()).unwrap();
        assert_eq!(q.as_wide_ptr(), (addr, ()));
        addr += 509;
    }
}

#[test]
fn is_null_only_for_offset_zero() {
    assert!(Const::<u8>::from_raw_parts(0, ()).is_null());
    assert!(!Const::<u8>::from_raw_parts(1, ()).is_null());
    assert!(!Mut::<u8>::from_raw_parts(0xFFFF, ()).is_null());
    assert!(Mut::<[u8]>::from_raw_parts(0, 5).is_null());
}

#[test]
fn raw_parts_are_what_the_pointer_was_made_of() {
    assert_eq!(Const::<[u8]>::from_raw_parts(0xABCD, 77).as_raw_parts(), (0xABCD, 77));
    assert_eq!(Mut::<u8>::from_raw_parts(0x0001, ()).as_raw_parts(), (0x0001, ()));
    let p = Mut::<[u64]>::new(0x8000_0008, 4).unwrap();
    let (addr, len) = p.as_raw_parts();
    assert!(Mut::<[u64]>::from_raw_parts(addr, len) == p);
}

#[test]
fn cast_keeps_the_address() {
    let p = Const::<[u32]>::from_raw_parts(0x400, 8);
    let q: Const<u8> = p.cast::<u8>();
    assert_eq!(q.as_raw_parts(), (0x400, ()));
    let m = Mut::<u64>::from_raw_parts(0x18, ());
    assert_eq!(m.cast::<[u8; 8]>().as_raw_parts(), (0x18, ()));
    assert!(Mut::<u64>::from_raw_parts(0, ()).cast::<u8>().is_null());
}

#[test]
fn offset_wraps_past_the_end_of_the_arena() {
    let p = Const::<u32>::from_raw_parts(0xFFFE, ());
    assert_eq!(p.wrapping_offset(1).as_raw_parts().0, 0x0002);
    assert_eq!(p.offset(1).as_raw_parts().0, 0x0002);
    assert_eq!(p.wrapping_add(1).as_raw_parts().0, 0x0002);
    assert_eq!(p.add(1).as_raw_parts().0, 0x0002);
    let q = Mut::<u32>::from_raw_parts(0xFFFE, ());
    assert_eq!(q.wrapping_offset(1).as_raw_parts().0, 0x0002);
    assert_eq!(q.offset(1).as_raw_parts().0, 0x0002);
    assert_eq!(q.wrapping_add(1).as_raw_parts().0, 0x0002);
    assert_eq!(q.add(1).as_raw_parts().0, 0x0002);
}

#[test]
fn offset_wraps_before_the_start_of_the_arena() {
    let p = Const::<u32>::from_raw_parts(0x0002, ());
    assert_eq!(p.wrapping_offset(-1).as_raw_parts().0, 0xFFFE);
    assert_eq!(p.wrapping_sub(1).as_raw_parts().0, 0xFFFE);
    assert_eq!(p.sub(1).as_raw_parts().0, 0xFFFE);
    let q = Mut::<u32>::from_raw_parts(0x0002, ());
    assert_eq!(q.offset(-1).as_raw_parts().0, 0xFFFE);
    assert_eq!(q.wrapping_sub(1).as_raw_parts().0, 0xFFFE);
    assert_eq!(q.sub(1).as_raw_parts().0, 0xFFFE);
}

#[test]
fn offset_scales_by_the_size_of_the_element() {
    assert_eq!(Const::<u8>::from_raw_parts(100, ()).offset(5).as_raw_parts().0, 105);
    assert_eq!(Const::<u16>::from_raw_parts(100, ()).offset(5).as_raw_parts().0, 110);
    assert_eq!(Const::<u64>::from_raw_parts(100, ()).offset(5).as_raw_parts().0, 140);
    assert_eq!(Mut::<u64>::from_raw_parts(100, ()).offset(-5).as_raw_parts().0, 60);
    assert_eq!(Mut::<[u8; 3]>::from_raw_parts(100, ()).offset(7).as_raw_parts().0, 121);
    assert_eq!(Mut::<()>::from_raw_parts(100, ()).offset(7).as_raw_parts().0, 100);
    assert_eq!(Const::<u64>::from_raw_parts(100, ()).offset(0).as_raw_parts().0, 100);
}

#[test]
fn offset_by_extreme_counts() {
    assert_eq!(Const::<u8>::from_raw_parts(0, ()).wrapping_offset(i16::MIN).as_raw_parts().0, 32768);
    assert_eq!(Const::<u8>::from_raw_parts(0, ()).wrapping_offset(i16::MAX).as_raw_parts().0, 32767);
    assert_eq!(Const::<u32>::from_raw_parts(0, ()).wrapping_offset(i16::MIN).as_raw_parts().0, 0);
    assert_eq!(Mut::<u32>::from_raw_parts(7, ()).wrapping_offset(i16::MAX).as_raw_parts().0, 3);
    assert_eq!(Mut::<u16>::from_raw_parts(1, ()).wrapping_offset(i16::MIN).as_raw_parts().0, 1);
}

#[test]
fn offset_by_an_element_larger_than_the_arena() {
    assert_eq!(Const::<[u8; 65536]>::from_raw_parts(9, ()).offset(3).as_raw_parts().0, 9);
    assert_eq!(Const::<[u8; 70000]>::from_raw_parts(0, ()).offset(1).as_raw_parts().0, 4464);
    assert_eq!(Mut::<[u8; 70000]>::from_raw_parts(0, ()).offset(-1).as_raw_parts().0, 61072);
    assert_eq!(Mut::<[u8; 98304]>::from_raw_parts(0, ()).offset(1).as_raw_parts().0, 32768);
    assert_eq!(Mut::<[u8; 98304]>::from_raw_parts(0, ()).offset(-1).as_raw_parts().0, 32768);
}

#[test]
fn add_and_sub_take_counts_above_32767() {
    assert_eq!(Const::<u8>::from_raw_parts(10, ()).add(40000).as_raw_parts().0, 40010);
    assert_eq!(Const::<u8>::from_raw_parts(10, ()).wrapping_add(65535).as_raw_parts().0, 9);
    assert_eq!(Const::<u32>::from_raw_parts(10, ()).add(40000).as_raw_parts().0, 28938);
    assert_eq!(Mut::<u32>::from_raw_parts(10, ()).sub(40000).as_raw_parts().0, 36618);
    assert_eq!(Mut::<u8>::from_raw_parts(10, ()).wrapping_sub(32768).as_raw_parts().0, 32778);
    assert_eq!(Mut::<u8>::from_raw_parts(10, ()).wrapping_sub(65535).as_raw_parts().0, 11);
    assert_eq!(Mut::<u8>::from_raw_parts(10, ()).sub(0).as_raw_parts().0, 10);
    assert_eq!(Mut::<u8>::from_raw_parts(10, ()).add(32768).as_raw_parts().0, 32778);
}

#[test]
fn offset_keeps_the_metadata() {
    let p = Mut::<u32>::from_raw_parts(8, ());
    assert_eq!(p.wrapping_add(2).wrapping_sub(2).as_raw_parts(), (8, ()));
}

#[test]
fn offset_from_counts_elements() {
    let a = Const::<u32>::from_raw_parts(4, ());
    let b = Const::<u32>::from_raw_parts(8, ());
    assert_eq!(b.offset_from(a), 1);
    assert_eq!(a.offset_from(b), -1);
    assert_eq!(a.offset_from(a), 0);
    let c = Mut::<u16>::from_raw_parts(1, ());
    let d = Mut::<u16>::from_raw_parts(65535, ());
    assert_eq!(d.offset_from(c), 32767);
    assert_eq!(c.offset_from(d), -32767);
    let n = Mut::<u64>::from_raw_parts(0, ());
    assert_eq!(n.offset_from(n), 0);
    let e = Const::<u8>::from_raw_parts(1, ());
    let f = Const::<u8>::from_raw_parts(65535, ());
    assert_eq!(f.offset_from(e), 65534);
    assert_eq!(e.offset_from(f), -65534);
}

#[test]
fn set_ptr_value_takes_the_address_and_keeps_the_metadata() {
    let p = Const::<[u32]>::from_raw_parts(0x100, 6);
    let q = p.set_ptr_value(Const::<u8>::from_raw_parts(0x204, ()));
    assert_eq!(q.as_raw_parts(), (0x204, 6));
    let m = Mut::<[u32]>::from_raw_parts(0x100, 6);
    let n = m.set_ptr_value(Mut::<u8>::from_raw_parts(0, ()));
    assert_eq!(n.as_raw_parts(), (0, 6));
}

#[test]
fn align_offset_is_the_least_count_that_aligns() {
    assert_eq!(Const::<u8>::from_raw_parts(3, ()).align_offset(8), 5);
    assert_eq!(Const::<u8>::from_raw_parts(8, ()).align_offset(8), 0);
    assert_eq!(Const::<u16>::from_raw_parts(2, ()).align_offset(8), 3);
    assert_eq!(Mut::<u32>::from_raw_parts(4, ()).align_offset(16), 3);
    assert_eq!(Mut::<[u8; 3]>::from_raw_parts(1, ()).align_offset(4), 1);
    assert_eq!(Mut::<[u8; 3]>::from_raw_parts(2, ()).align_offset(4), 2);
    assert_eq!(Mut::<u8>::from_raw_parts(0xFFFF, ()).align_offset(1), 0);
    assert_eq!(Mut::<u8>::from_raw_parts(0xFFFF, ()).align_offset(0x1_0000), 1);
}

#[test]
fn align_offset_is_max_where_no_count_aligns() {
    assert_eq!(Const::<u32>::from_raw_parts(2, ()).align_offset(4), usize::MAX);
    assert_eq!(Const::<u16>::from_raw_parts(1, ()).align_offset(2), usize::MAX);
    assert_eq!(Mut::<()>::from_raw_parts(1, ()).align_offset(2), usize::MAX);
    assert_eq!(Mut::<()>::from_raw_parts(2, ()).align_offset(2), 0);
    assert_eq!(Mut::<u64>::from_raw_parts(4, ()).align_offset(64), usize::MAX);
}

#[test]
fn align_offset_to_the_largest_alignment() {
    let top = 1usize << (usize::BITS - 1);
    assert_eq!(Const::<u16>::from_raw_parts(1, ()).align_offset(top), usize::MAX);
    assert_eq!(Const::<u64>::from_raw_parts(4, ()).align_offset(top), usize::MAX);
    assert_eq!(Mut::<()>::from_raw_parts(4, ()).align_offset(top), usize::MAX);
    assert_eq!(Mut::<u8>::from_raw_parts(0, ()).align_offset(top), 0);
}

#[test]
fn align_offset_of_null_is_zero() {
    assert_eq!(Const::<u32>::from_raw_parts(0, ()).align_offset(4096), 0);
    assert_eq!(Mut::<u8>::from_raw_parts(0, ()).align_offset(1), 0);
}

#[test]
fn align_offset_counts_from_the_native_address() {
    type Odd = ConstPtr<u8, 0x1001>;
    assert_eq!(Odd::from_raw_parts(1, ()).align_offset(2), 0);
    assert_eq!(Odd::from_raw_parts(2, ()).align_offset(2), 1);
    assert_eq!(Odd::from_raw_parts(2, ()).align_offset(16), 13);
}

#[test]
fn pointers_are_equal_when_address_and_metadata_are() {
    assert!(Const::<u32>::from_raw_parts(4, ()) == Const::<u32>::from_raw_parts(4, ()));
    assert!(Const::<u32>::from_raw_parts(4, ()) != Const::<u32>::from_raw_parts(8, ()));
    assert!(Mut::<[u8]>::from_raw_parts(4, 2) == Mut::<[u8]>::from_raw_parts(4, 2));
    assert!(Mut::<[u8]>::from_raw_parts(4, 2) != Mut::<[u8]>::from_raw_parts(4, 3));
    assert!(Mut::<[u8]>::from_raw_parts(4, 2) != Mut::<[u8]>::from_raw_parts(5, 2));
    assert!(Mut::<u8>::from_raw_parts(0, ()) == Mut::<u8>::new(0, ()).unwrap());
}

#[test]
fn pointers_are_ordered_by_address_then_metadata() {
    let a = Const::<u32>::from_raw_parts(4, ());
    let b = Const::<u32>::from_raw_parts(8, ());
    let null = Const::<u32>::from_raw_parts(0, ());
    assert!(a < b);
    assert!(b > a);
    assert!(a <= a);
    assert!(a >= a);
    assert!(null < a);
    assert_eq!(a.partial_cmp(&b), Some(Ordering::Less));
    assert_eq!(b.partial_cmp(&a), Some(Ordering::Greater));
    assert_eq!(a.partial_cmp(&a), Some(Ordering::Equal));
    let s = Mut::<[u8]>::from_raw_parts(4, 2);
    let t = Mut::<[u8]>::from_raw_parts(4, 3);
    let u = Mut::<[u8]>::from_raw_parts(5, 0);
    assert!(s < t);
    assert!(t < u);
    assert!(s < u);
    assert_eq!(t.partial_cmp(&s), Some(Ordering::Greater));
    assert_eq!(s.partial_cmp(&s), Some(Ordering::Equal));
    assert_eq!(Mut::<u8>::from_raw_parts(1, ()).partial_cmp(&Mut::<u8>::from_raw_parts(0xFFFF, ())), Some(Ordering::Less));
}

#[test]
fn the_order_is_that_of_the_native_addresses() {
    let mut offset: u32 = 0;
    while offset + 263 < 65536 {
        let a = Mut::<u8>::from_raw_parts(offset as u16, ());
        let b = Mut::<u8>::from_raw_parts((offset + 263) as u16, ());
        assert!(a.as_wide_ptr().0 < b.as_wide_ptr().0);
        assert!(a < b);
        assert!(a != b);
        offset += 263;
    }
}

#[test]
fn const_and_mut_pointers_convert_into_each_other() {
    let m = Mut::<[u16]>::from_raw_parts(0x222, 5);
    let c = Const::<[u16]>::from(m);
    assert_eq!(c.as_raw_parts(), (0x222, 5));
    let back = Mut::<[u16]>::from(c);
    assert!(back == m);
    let d: Const<u8> = Mut::<u8>::from_raw_parts(0, ()).into();
    assert!(d.is_null());
}

#[test]
fn as_ref_is_none_for_null() {
    assert!(Const::<u32>::from_raw_parts(0, ()).as_ref().is_none());
    assert!(Mut::<u32>::from_raw_parts(0, ()).as_ref().is_none());
    assert!(Mut::<u32>::from_raw_parts(0, ()).as_mut().is_none());
    assert!(Const::<u32>::from_raw_parts(0, ()).as_uninit_ref().is_none());
    assert!(Mut::<u32>::from_raw_parts(0, ()).as_uninit_ref().is_none());
    assert!(Mut::<u32>::from_raw_parts(0, ()).as_uninit_mut().is_none());
}

#[test]
fn as_ref_borrows_the_value_at_the_pointer() {
    let c = Const::<[u32]>::from_raw_parts(0x40, 3);
    let r: Ref<'_, [u32], BASE> = c.as_ref().unwrap();
    assert!(Const::from(r) == c);
    let r2 = c.as_ref_unchecked();
    assert!(Const::from(r2) == c);
    let m = Mut::<[u32]>::from_raw_parts(0x40, 3);
    assert!(Const::from(m.as_ref().unwrap()) == c);
    assert!(Const::from(m.as_ref_unchecked()) == c);
}

#[test]
fn a_shared_borrow_can_be_copied() {
    let c = Const::<u32>::from_raw_parts(0x40, ());
    let r = c.as_ref().unwrap();
    let s = r;
    let t = r.clone();
    assert!(Const::from(r) == c);
    assert!(Const::from(s) == c);
    assert!(Const::from(t) == c);
}

#[test]
fn as_mut_borrows_the_value_at_the_pointer() {
    let m = Mut::<[u32]>::from_raw_parts(0x40, 3);
    let r: RefMut<'_, [u32], BASE> = m.as_mut().unwrap();
    assert!(Mut::from(r) == m);
    assert!(Const::from(m.as_mut_unchecked()) == Const::from(m));
    assert!(NonNull::from(m.as_mut().unwrap()) == NonNull::new(m).unwrap());
    assert!(Unique::from(m.as_mut().unwrap()).as_ptr() == m);
}

#[test]
fn as_uninit_borrows_the_same_place() {
    let c = Const::<u64>::from_raw_parts(0x48, ());
    assert_eq!(Const::from(c.as_uninit_ref().unwrap()).as_raw_parts(), (0x48, ()));
    assert_eq!(Const::from(c.as_uninit_ref_unchecked()).as_raw_parts(), (0x48, ()));
    let m = Mut::<u64>::from_raw_parts(0x48, ());
    assert_eq!(Const::from(m.as_uninit_ref().unwrap()).as_raw_parts(), (0x48, ()));
    assert_eq!(Mut::from(m.as_uninit_mut().unwrap()).as_raw_parts(), (0x48, ()));
    assert_eq!(Const::from(m.as_uninit_ref_unchecked()).as_raw_parts(), (0x48, ()));
    assert_eq!(Mut::from(m.as_uninit_mut_unchecked()).as_raw_parts(), (0x48, ()));
}

#[test]
fn non_null_refuses_null() {
    assert!(NonNull::new(Mut::<u32>::from_raw_parts(0, ())).is_none());
    assert!(NonNull::new(Mut::<[u8]>::from_raw_parts(0, 4)).is_none());
    assert!(Unique::new(Mut::<u32>::from_raw_parts(0, ())).is_none());
}

#[test]
fn non_null_keeps_the_pointer() {
    let m = Mut::<[u8]>::from_raw_parts(0x77, 4);
    let nn = NonNull::new(m).unwrap();
    assert!(nn.as_ptr() == m);
    assert!(NonNull::new_unchecked(m).as_ptr() == m);
    assert!(!nn.as_ptr().is_null());
}

#[test]
fn non_null_splits_into_address_and_metadata() {
    let nn = NonNull::new(Mut::<[u8]>::from_raw_parts(0x77, 4)).unwrap();
    let (address, len) = nn.to_raw_parts();
    assert_eq!(address.as_ptr().as_raw_parts(), (0x77, ()));
    assert_eq!(len, 4);
    let again = NonNull::<[u8], BASE>::from_raw_parts(address, len);
    assert!(again == nn);
    let other = NonNull::<[u16], BASE>::from_raw_parts(address, 9);
    assert_eq!(other.as_ptr().as_raw_parts(), (0x77, 9));
}

#[test]
fn non_null_cast_keeps_the_address() {
    let nn = NonNull::new(Mut::<[u8]>::from_raw_parts(0x77, 4)).unwrap();
    assert_eq!(nn.cast::<u32>().as_ptr().as_raw_parts(), (0x77, ()));
}

#[test]
fn non_null_borrows() {
    let mut nn = NonNull::new(Mut::<[u8]>::from_raw_parts(0x77, 4)).unwrap();
    assert_eq!(Const::from(nn.as_ref()).as_raw_parts(), (0x77, 4));
    assert_eq!(Mut::from(nn.as_mut()).as_raw_parts(), (0x77, 4));
    let mut thin = NonNull::new(Mut::<u16>::from_raw_parts(0x78, ())).unwrap();
    assert_eq!(Const::from(thin.as_uninit_ref()).as_raw_parts(), (0x78, ()));
    assert_eq!(Mut::from(thin.as_uninit_mut()).as_raw_parts(), (0x78, ()));
}

#[test]
fn non_null_pointers_compare_as_pointers() {
    let a = NonNull::new(Mut::<u32>::from_raw_parts(4, ())).unwrap();
    let b = NonNull::new(Mut::<u32>::from_raw_parts(8, ())).unwrap();
    assert!(a == a);
    assert!(a != b);
    assert!(a < b);
    assert_eq!(b.partial_cmp(&a), Some(Ordering::Greater));
    assert_eq!(a.partial_cmp(&a), Some(Ordering::Equal));
    let s = NonNull::new(Mut::<[u8]>::from_raw_parts(4, 1)).unwrap();
    let t = NonNull::new(Mut::<[u8]>::from_raw_parts(4, 2)).unwrap();
    assert!(s < t);
    assert!(s != t);
}

#[test]
fn dangling_is_aligned_and_not_null() {
    let d = NonNull::<u32, BASE>::dangling();
    assert_eq!(d.as_ptr().as_raw_parts().0 as usize, core::mem::align_of::<u32>());
    let e = NonNull::<u8, BASE>::dangling();
    assert_eq!(e.as_ptr().as_raw_parts().0, 1);
    let u = Unique::<u64, BASE>::dangling();
    assert_eq!(u.as_ptr().as_raw_parts().0 as usize, core::mem::align_of::<u64>());
    assert!(!u.as_ptr().is_null());
    assert_eq!(u.as_ptr().as_wide_ptr().0, BASE + core::mem::align_of::<u64>());
}

#[test]
fn unique_owns_through_a_non_null_pointer() {
    let m = Mut::<[u32]>::from_raw_parts(0x300, 2);
    let u = Unique::new(m).unwrap();
    assert!(u.as_ptr() == m);
    assert!(Unique::new_unchecked(m).as_ptr() == m);
    let nn = NonNull::new(m).unwrap();
    assert!(Unique::from_nonnull(nn).as_ptr() == m);
    assert!(Unique::from(nn).as_ptr() == m);
    assert_eq!(u.cast::<u8>().as_ptr().as_raw_parts(), (0x300, ()));
}

#[test]
fn unique_borrows_for_its_own_scope() {
    let mut u = Unique::new(Mut::<[u32]>::from_raw_parts(0x300, 2)).unwrap();
    let shared = Const::from(u.as_ref()).as_raw_parts();
    assert_eq!(shared, (0x300, 2));
    let exclusive = Mut::from(u.as_mut()).as_raw_parts();
    assert_eq!(exclusive, (0x300, 2));
}

#[test]
fn a_compressed_pointer_is_smaller_than_a_native_one() {
    assert_eq!(core::mem::size_of::<Const<u32>>(), 2);
    assert_eq!(core::mem::size_of::<Mut<u32>>(), 2);
    assert_eq!(core::mem::size_of::<NonNull<u32, BASE>>(), 2);
    assert_eq!(core::mem::size_of::<Unique<u32, BASE>>(), 2);
    assert_eq!(core::mem::size_of::<Ref<'static, u32, BASE>>(), 2);
    assert_eq!(core::mem::size_of::<Const<[u32]>>(), 4);
    assert_eq!(core::mem::size_of::<Mut<[u32]>>(), 4);
}
