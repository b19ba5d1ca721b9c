use intel_x64::addr::{align_down, align_up, PhysAddr, VirtAddr};

#[test]
fn canonical_values_round_trip() {
    // Bits 47..64 a consistent sign extension of bit 47: new returns the
    // value unchanged.
    for &v in &[
        0u64,
        1,
        0x1234_5678,
        0x0000_7FFF_FFFF_FFFF,
        0xFFFF_8000_0000_0000,
        0xFFFF_FFFF_FFFF_FFFF,
        0xFFFF_9234_5678_9ABC,
    ] {
        assert_eq!(VirtAddr::new(v).as_u64(), v);
        assert_eq!(VirtAddr::try_new(v).unwrap().as_u64(), v);
    }
}

#[test]
fn non_canonical_values_are_rejected() {
    // Any violation of the sign-extension rule fails, reporting bits 47..64.
    assert_eq!(
        VirtAddr::try_new(0x0000_8000_0000_0000).unwrap_err().high_bits(),
        1
    );
    assert_eq!(
        VirtAddr::try_new(0x0001_0000_0000_0000).unwrap_err().high_bits(),
        2
    );
    assert_eq!(
        VirtAddr::try_new(0x8000_0000_0000_0000).unwrap_err().high_bits(),
        0x10000
    );
    assert_eq!(
        VirtAddr::try_new(0xFFFF_7FFF_FFFF_FFFF).unwrap_err().high_bits(),
        0x1FFFE
    );
}

#[test]
fn new_unchecked_rewrites_high_bits() {
    // Bit 47 set with zero high bits: rejected by try_new, sign-extended by
    // new_unchecked.
    assert!(VirtAddr::try_new(0x0000_8000_0000_0000).is_err());
    assert_eq!(
        VirtAddr::new_unchecked(0x0000_8000_0000_0000).as_u64(),
        0xFFFF_8000_0000_0000
    );
    assert_eq!(
        VirtAddr::new_unchecked(0x1234_0000_4321_0000).as_u64(),
        0x0000_0000_4321_0000
    );
}

#[test]
fn index_decomposition_reassembles_low_bits() {
    for &v in &[0xFFFF_9234_5678_9ABCu64, 0x0000_7ACE_B00F_4321, 0, 0x1000] {
        let a = VirtAddr::new(v);
        let reassembled = (a.page_offset().as_u16() as u64)
            | ((a.page1_index().as_u16() as u64) << 12)
            | ((a.page2_index().as_u16() as u64) << 21)
            | ((a.page3_index().as_u16() as u64) << 30)
            | ((a.page4_index().as_u16() as u64) << 39);
        assert_eq!(reassembled, v & 0x0000_FFFF_FFFF_FFFF);
    }
}

#[test]
fn virt_index_windows() {
    let a = VirtAddr::new(0x0000_7FFF_FFFF_FFFF);
    assert_eq!(a.page_offset().as_u16(), 0xFFF);
    assert_eq!(a.page1_index().as_u16(), 511);
    assert_eq!(a.page2_index().as_u16(), 511);
    assert_eq!(a.page3_index().as_u16(), 511);
    assert_eq!(a.page4_index().as_u16(), 255);
}

#[test]
fn phys_addr_range_check() {
    assert!(PhysAddr::try_new(0x0010_0000_0000_0000).is_err());
    assert_eq!(
        PhysAddr::try_new(0x0010_0000_0000_0000).unwrap_err().high_bits(),
        1
    );
    assert_eq!(
        PhysAddr::try_new(0x000F_FFFF_FFFF_FFFF).unwrap().as_u64(),
        0x000F_FFFF_FFFF_FFFF
    );
    assert_eq!(PhysAddr::new(0x2000).as_u64(), 0x2000);
    assert!(PhysAddr::new(0).is_null());
    assert!(!PhysAddr::new(4).is_null());
}

#[test]
fn alignment_helpers() {
    assert_eq!(align_down(0x1234, 0x1000), 0x1000);
    assert_eq!(align_down(0x1000, 0x1000), 0x1000);
    assert_eq!(align_up(0x1234, 0x1000), 0x2000);
    assert_eq!(align_up(0x1000, 0x1000), 0x1000);
    assert_eq!(align_up(0, 0x1000), 0);
    assert_eq!(align_down(0xFFFF, 1), 0xFFFF);

    let v = VirtAddr::new(0x1234);
    assert_eq!(v.align_down(0x1000).as_u64(), 0x1000);
    assert_eq!(v.align_up(0x1000).as_u64(), 0x2000);
    assert!(v.align_down(0x1000).is_aligned(0x1000));
    assert!(!v.is_aligned(0x1000));

    let p = PhysAddr::new(0x2345);
    assert_eq!(p.align_down(0x1000).as_u64(), 0x2000);
    assert_eq!(p.align_up(0x1000).as_u64(), 0x3000);
    assert!(p.align_up(0x1000).is_aligned(0x1000));
}

#[test]
fn address_arithmetic() {
    let v = VirtAddr::new(0x1000);
    assert_eq!(v.add(0x123).as_u64(), 0x1123);
    assert_eq!(v.sub(0x800).as_u64(), 0x800);
    assert_eq!(v.add(0x123).sub_addr(v), 0x123);

    let p = PhysAddr::new(0x2000);
    assert_eq!(p.add(0x123).as_u64(), 0x2123);
    assert_eq!(p.sub(0x1000).as_u64(), 0x1000);
    assert_eq!(p.add(0x123).sub_addr(p), 0x123);

    assert_eq!(VirtAddr::zero().as_u64(), 0);
    assert_eq!(VirtAddr::new(0xABC).as_usize(), 0xABC);
    assert_eq!(PhysAddr::new(0xABC).as_usize(), 0xABC);
}
