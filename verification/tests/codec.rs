use tinyptr::{ptr_to_u16, ptr_to_u16_unchecked, u16_to_ptr, TinyUSize};

const BASE: usize = 0x8000_0000;

#[test]
fn null_is_offset_zero_whatever_the_base() {
    assert_eq!(ptr_to_u16::<BASE>(0), Some(0));
    assert_eq!(ptr_to_u16::<0>(0), Some(0));
    assert_eq!(ptr_to_u16::<0x1234_0000>(0), Some(0));
    assert_eq!(ptr_to_u16_unchecked::<BASE>(0), 0);
    assert_eq!(ptr_to_u16_unchecked::<0x1234_0000>(0), 0);
}

#[test]
fn offset_zero_is_null_whatever_the_base() {
    assert_eq!(u16_to_ptr::<BASE>(0), 0);
    assert_eq!(u16_to_ptr::<0>(0), 0);
    assert_eq!(u16_to_ptr::<0x1234_0000>(0), 0);
    assert_eq!(u16_to_ptr::<{ usize::MAX }>(0), 0);
}

#[test]
fn address_outside_the_window_is_refused() {
    assert_eq!(ptr_to_u16::<BASE>(0x9000_0000), None);
}

#[test]
fn the_window_is_open_at_both_ends() {
    assert_eq!(ptr_to_u16::<BASE>(BASE), None);
    assert_eq!(ptr_to_u16::<BASE>(BASE + 1), Some(1));
    assert_eq!(ptr_to_u16::<BASE>(BASE + 65535), Some(65535));
    assert_eq!(ptr_to_u16::<BASE>(BASE + 65536), None);
    assert_eq!(ptr_to_u16::<BASE>(BASE - 1), None);
    assert_eq!(ptr_to_u16::<BASE>(1), None);
    assert_eq!(ptr_to_u16::<BASE>(usize::MAX), None);
}

#[test]
fn a_base_near_the_top_of_memory_does_not_overflow() {
    const HIGH: usize = usize::MAX - 10;
    assert_eq!(ptr_to_u16::<HIGH>(usize::MAX), Some(10));
    assert_eq!(ptr_to_u16::<HIGH>(HIGH), None);
    assert_eq!(ptr_to_u16::<HIGH>(5), None);
    assert_eq!(u16_to_ptr::<HIGH>(10), usize::MAX);
}

#[test]
fn encode_gives_the_distance_from_the_base() {
    assert_eq!(ptr_to_u16::<BASE>(0x8000_1234), Some(0x1234));
    assert_eq!(ptr_to_u16_unchecked::<BASE>(0x8000_1234), 0x1234);
    assert_eq!(ptr_to_u16::<0>(0x1234), Some(0x1234));
}

#[test]
fn decode_adds_the_base() {
    assert_eq!(u16_to_ptr::<BASE>(0x1234), 0x8000_1234);
    assert_eq!(u16_to_ptr::<BASE>(1), 0x8000_0001);
    assert_eq!(u16_to_ptr::<BASE>(0xFFFF), 0x8000_FFFF);
    assert_eq!(u16_to_ptr::<0>(0x1234), 0x1234);
}

#[test]
fn decode_of_encode_is_the_address() {
    let mut addr = BASE + 1;
    while addr < BASE + 65536 {
        let offset = ptr_to_u16::<BASE>(addr).unwrap();
        assert_eq!(u16_to_ptr::<BASE>(offset), addr);
        assert_eq!(ptr_to_u16_unchecked::<BASE>(addr), offset);
        addr += 257;
    }
    assert_eq!(u16_to_ptr::<BASE>(ptr_to_u16::<BASE>(0).unwrap()), 0);
}

#[test]
fn encode_of_decode_is_the_offset() {
    let mut offset: u32 = 0;
    while offset < 65536 {
        let addr = u16_to_ptr::<BASE>(offset as u16);
        assert_eq!(ptr_to_u16::<BASE>(addr), Some(offset as u16));
        offset += 251;
    }
    assert_eq!(ptr_to_u16::<BASE>(u16_to_ptr::<BASE>(65535)), Some(65535));
}

#[test]
fn a_small_length_is_sixteen_bits_wide() {
    let n: TinyUSize = 7;
    assert_eq!(core::mem::size_of_val(&n), 2);
}
