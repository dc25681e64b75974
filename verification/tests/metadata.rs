use core::any::TypeId;
use tinyptr::pointee::{DynMetadata, Dynamic, Layout, Pointee, Ranked};
use tinyptr::util::IntoTiny;

#[test]
fn a_length_of_70000_does_not_fit() {
    assert_eq!(70000usize.into_tiny(), None);
}

#[test]
fn a_length_of_65535_fits_and_comes_back() {
    let tiny = 65535usize.into_tiny();
    assert_eq!(tiny, Some(65535u16));
    assert_eq!(<usize as IntoTiny>::from_tiny(tiny.unwrap()), 65535usize);
}

#[test]
fn the_first_length_that_does_not_fit_is_65536() {
    assert_eq!(65536usize.into_tiny(), None);
    assert_eq!(usize::MAX.into_tiny(), None);
    assert_eq!(0usize.into_tiny(), Some(0));
}

#[test]
fn lengths_that_fit_grow_back() {
    let mut n: usize = 0;
    while n <= 65535 {
        let tiny = n.into_tiny().unwrap();
        assert_eq!(tiny as usize, n);
        assert_eq!(n.into_tiny_unchecked(), tiny);
        assert_eq!(<usize as IntoTiny>::from_tiny(tiny), n);
        n += 97;
    }
}

#[test]
fn unit_metadata_is_its_own_small_form() {
    assert_eq!(().into_tiny(), Some(()));
    assert_eq!(().into_tiny_unchecked(), ());
    assert_eq!(<() as IntoTiny>::from_tiny(()), ());
}

#[test]
fn a_descriptor_is_its_own_small_form() {
    let d = DynMetadata::of::<u64>();
    let tiny = d.into_tiny().unwrap();
    assert_eq!(tiny.size_of(), 8);
    assert_eq!(tiny.align_of(), core::mem::align_of::<u64>());
    assert!(tiny.is::<u64>());
    let back = <DynMetadata as IntoTiny>::from_tiny(tiny);
    assert!(back.is::<u64>());
    assert_eq!(back.size_of(), 8);
    let unchecked = d.into_tiny_unchecked();
    assert!(unchecked.is::<u64>());
}

#[test]
fn a_descriptor_knows_its_type() {
    let d = DynMetadata::of::<u32>();
    assert!(d.is::<u32>());
    assert!(!d.is::<i32>());
    assert!(!d.is::<u64>());
    assert!(!d.is::<String>());
    assert!(d.has_tag(&TypeId::of::<u32>()));
    assert!(!d.has_tag(&TypeId::of::<u64>()));
    assert!(d.type_id() == TypeId::of::<u32>());
    assert!(d.type_id() != TypeId::of::<()>());
}

#[test]
fn a_descriptor_knows_size_and_alignment() {
    let d = DynMetadata::of::<[u16; 5]>();
    assert_eq!(d.size_of(), 10);
    assert_eq!(d.align_of(), core::mem::align_of::<u16>());
    let z = DynMetadata::of::<()>();
    assert_eq!(z.size_of(), 0);
    assert_eq!(z.align_of(), 1);
}

#[test]
fn layout_of_a_type() {
    let l = Layout::new::<u32>();
    assert_eq!(l, Layout { size: 4, align: core::mem::align_of::<u32>() });
    assert_eq!(Layout::new::<()>(), Layout { size: 0, align: 1 });
    assert_eq!(Layout::new::<[u8; 100]>(), Layout { size: 100, align: 1 });
}

#[test]
fn layout_of_a_sized_value() {
    assert_eq!(<u64 as Pointee>::layout(()), Some(Layout::new::<u64>()));
    assert_eq!(<u8 as Pointee>::layout(()), Some(Layout { size: 1, align: 1 }));
}

#[test]
fn layout_of_a_sequence_is_length_times_element() {
    let align = core::mem::align_of::<u32>();
    assert_eq!(<[u32] as Pointee>::layout(3), Some(Layout { size: 12, align }));
    assert_eq!(<[u32] as Pointee>::layout(0), Some(Layout { size: 0, align }));
    assert_eq!(<[u8] as Pointee>::layout(65535), Some(Layout { size: 65535, align: 1 }));
    assert_eq!(<[()] as Pointee>::layout(usize::MAX), Some(Layout { size: 0, align: 1 }));
}

#[test]
fn a_sequence_too_large_for_the_machine_has_no_layout() {
    assert_eq!(<[u32] as Pointee>::layout(usize::MAX), None);
    assert_eq!(<[u16] as Pointee>::layout(usize::MAX / 2 + 1), None);
    assert_eq!(<[u16] as Pointee>::layout(usize::MAX / 2), Some(Layout { size: usize::MAX - 1, align: core::mem::align_of::<u16>() }));
}

#[test]
fn layout_of_a_value_of_a_run_time_type() {
    let d = DynMetadata::of::<u64>();
    assert_eq!(<dyn Dynamic as Pointee>::layout(d), Some(Layout::new::<u64>()));
}

#[test]
fn rank_of_metadata() {
    assert_eq!(<() as Ranked>::rank_of(&()), 0);
    assert_eq!(<usize as Ranked>::rank_of(&0), 0);
    assert_eq!(<usize as Ranked>::rank_of(&17), 17);
    assert_eq!(<usize as Ranked>::rank_of(&65535), 65535);
}
