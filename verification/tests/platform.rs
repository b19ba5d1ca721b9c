use intel_x64::arch::{
    ArchIntel, DescriptorTablePointer, IntelX32, IntelX64, PrivilegedLevel, SegmentSelector,
    Selector, TablePointer,
};
use intel_x64::chip_flags::{CR0Flags, CR3Flags, CR4Flags, EferFlags, LocalAPICFlags};
use intel_x64::descriptor::{Descriptor, DescriptorFlags};
use intel_x64::interrupt::{
    ApicInfo, IpiAllShorthand, IpiDeliveryMode, IpiDestMode, LocalApicRegisters, TimerDivide,
    TimerMode,
};
use intel_x64::memory::{MemoryArea, MemoryAreaIter, MemorySpace, MemoryType};
use intel_x64::msr::{Efer, ESR, IA32_EFER, MSR};

#[test]
fn privilege_levels_encode() {
    assert_eq!(PrivilegedLevel::from_u16(0), PrivilegedLevel::Ring0);
    assert_eq!(PrivilegedLevel::from_u16(3), PrivilegedLevel::Ring3);
    assert_eq!(PrivilegedLevel::Ring2.as_u16(), 2);
}

#[test]
fn segment_selectors_pack_index_and_level() {
    let s = SegmentSelector::new(2, PrivilegedLevel::Ring3);
    assert_eq!(s.as_u16(), (2 << 3) | 3);
    assert_eq!(s.index(), 2);
    assert_eq!(s.rpl(), PrivilegedLevel::Ring3);
    assert_eq!(s.as_usize(), 0x13);
    assert_eq!(s.as_u64(), 0x13);
    assert_eq!(s.as_u32(), 0x13);
}

#[test]
fn arch_variants() {
    assert_eq!(IntelX32::bit(), 32);
    assert_eq!(IntelX64::bit(), 64);
    assert_eq!(IntelX64::display_str(), "Intel x64");
    assert_eq!(IntelX32::display_str(), "Intel x32");
    let p = DescriptorTablePointer::<IntelX64>::empty();
    assert_eq!(p.limit(), 0);
    assert_eq!(p.base(), 0);
}

#[test]
fn segment_descriptors_bit_exact() {
    assert_eq!(
        Descriptor::kernel_code_segment(),
        Descriptor::KernelSegment(0x0020_9800_0000_0000)
    );
    assert_eq!(
        Descriptor::kernel_data_segment(),
        Descriptor::KernelSegment(0x0000_9200_0000_0000)
    );
    assert_eq!(
        Descriptor::kernel_thread_local_store(),
        Descriptor::KernelSegment(0x0020_9000_0000_0000)
    );
    assert_eq!(
        Descriptor::user_data_segment(),
        Descriptor::UserSegment(0x0000_F200_0000_0000)
    );
    assert_eq!(
        Descriptor::user_code_segment(),
        Descriptor::UserSegment(0x0020_F800_0000_0000)
    );
    let f = DescriptorFlags::present().union(DescriptorFlags::executable());
    assert!(f.contains(DescriptorFlags::present()));
    assert!(!f.contains(DescriptorFlags::writable()));
    assert_eq!(DescriptorFlags::dpl_ring_3().bits(), 3 << 45);
    assert_eq!(DescriptorFlags::dpl_ring_0().bits(), 0);
    assert_eq!(DescriptorFlags::accessed().bits(), 1 << 40);
    assert_eq!(DescriptorFlags::conforming().bits(), 1 << 42);
}

#[test]
fn memory_space_collects_areas() {
    let mut space = MemorySpace::new();
    space.add_area(0x0, 0x1000, MemoryType::FreeArea, 0x1000);
    space.add_area(0x1000, 0x3000, MemoryType::ReservedArea, 0x2000);
    space.add_area(0x3000, 0x4000, MemoryType::FreeArea, 0x1000);
    assert_eq!(space.iter().len(), 3);
    assert_eq!(space.iter()[1].size(), 0x2000);
    assert_eq!(space.iter()[2].start_address(), 0x3000);

    let mut cursor = MemoryAreaIter::new(MemoryType::FreeArea);
    let a = cursor.next_area(&space).unwrap();
    assert_eq!(a.start_address(), 0x0);
    let b = cursor.next_area(&space).unwrap();
    assert_eq!(b.start_address(), 0x3000);
    assert_eq!(cursor.next_area(&space), None);
    assert_eq!(cursor.next_area(&space), None);

    let mut none = MemoryAreaIter::new(MemoryType::MMIO);
    assert_eq!(none.next_area(&space), None);
}

#[test]
fn memory_area_records() {
    let a = MemoryArea::new(0x100, 0x300, MemoryType::UsedArea, 0x200);
    assert_eq!(a.size(), 0x200);
    assert_eq!(a.start_address(), 0x100);
    assert_eq!(a.ty, MemoryType::UsedArea);
    let d = MemoryArea::default();
    assert_eq!(d.ty, MemoryType::EmptyArea);
    assert_eq!(d.length, 0);
    assert_eq!(MemoryType::default(), MemoryType::EmptyArea);
}

#[test]
fn apic_builder_requires_error_and_spurious_vectors() {
    let mut info = ApicInfo::new();
    assert!(info.build().is_err());
    assert_eq!(
        info.build().unwrap_err(),
        "x2apic: required field(s) empty".to_owned()
    );
    info.set_error_vector(0x21);
    assert!(info.build().is_err());
    info.set_spurious_vector(0x22);
    let built = info.build().unwrap();
    assert_eq!(built.error_vector, Some(0x21));
    assert_eq!(built.spurious_vector, Some(0x22));

    info.set_timer_vector(0x20);
    info.set_timer_mode(TimerMode::Periodic);
    info.set_timer_divide(TimerDivide::Div256);
    info.set_timer_initial(10_000_000);
    info.set_ipi_destination_mode(IpiDestMode::Physical);
    info.set_io_apic_offset(0x30);
    let full = info.build().unwrap();
    assert_eq!(full.timer_vector, Some(0x20));
    assert_eq!(full.timer_mode, Some(TimerMode::Periodic));
    assert_eq!(full.timer_divide, Some(TimerDivide::Div256));
    assert_eq!(full.timer_initial, Some(10_000_000));
    assert_eq!(full.ipi_destination_mode, Some(IpiDestMode::Physical));
    assert_eq!(full.ioapic_offset, Some(0x30));
}

#[test]
fn interrupt_field_encodings() {
    assert_eq!(TimerMode::OneShot.as_u64(), 0);
    assert_eq!(TimerMode::TscDeadline.as_u64(), 2);
    assert_eq!(TimerDivide::Div2.as_u64(), 0);
    assert_eq!(TimerDivide::Div32.as_u64(), 8);
    assert_eq!(TimerDivide::Div256.as_u64(), 0xB);
    assert_eq!(IpiDestMode::Logical.as_u64(), 1);
    assert_eq!(IpiDeliveryMode::NonMaskable.as_u64(), 4);
    assert_eq!(IpiDeliveryMode::StartUp.as_u64(), 6);
    assert_eq!(IpiAllShorthand::AllIncludingSelf.as_u64(), 2);
    assert_eq!(IpiAllShorthand::AllExcludingSelf.as_u64(), 3);
}

#[test]
fn msr_register_numbers() {
    assert_eq!(MSR::new(0x1B).number(), 0x1B);
    assert_eq!(Efer::new().msr().number(), IA32_EFER);
    assert_eq!(IA32_EFER, 0xC000_0080);
    assert_eq!(ESR::new().msr().number(), 0x828);

    let regs = LocalApicRegisters::new();
    assert_eq!(regs.base.number(), 0x1B);
    assert_eq!(regs.id.number(), 0x802);
    assert_eq!(regs.version.number(), 0x803);
    assert_eq!(regs.tpr.msr().number(), 0x808);
    assert_eq!(regs.eoi.msr().number(), 0x80B);
    assert_eq!(regs.isr0.msr().number(), 0x810);
    assert_eq!(regs.tmr7.msr().number(), 0x81F);
    assert_eq!(regs.irr3.msr().number(), 0x823);
    assert_eq!(regs.error.msr().number(), 0x828);
    assert_eq!(regs.icr.msr().number(), 0x830);
    assert_eq!(regs.lvt_timer.msr().number(), 0x832);
    assert_eq!(regs.self_ipi.msr().number(), 0x83F);
}

#[test]
fn chip_flag_sets() {
    let cr0 = CR0Flags::from_bits_truncate(u64::MAX);
    assert_eq!(cr0.bits(), CR0Flags::all().bits());
    assert!(cr0.contains(CR0Flags::protected_mode_enable()));
    assert!(cr0.contains(CR0Flags::paging()));
    assert_eq!(CR0Flags::paging().bits(), 1 << 31);
    assert_eq!(
        CR0Flags::empty().union(CR0Flags::write_protect()).bits(),
        1 << 16
    );
    assert_eq!(cr0.remove(CR0Flags::all()).bits(), 0);

    assert_eq!(CR3Flags::page_level_writethrough().bits(), 1 << 3);
    assert_eq!(CR3Flags::page_level_cache_disable().bits(), 1 << 4);
    assert_eq!(CR4Flags::physical_address_extension().bits(), 1 << 5);
    assert_eq!(EferFlags::long_mode_enable().bits(), 1 << 8);
    assert!(EferFlags::from_bits_truncate(0x100).contains(EferFlags::long_mode_enable()));
    assert_eq!(LocalAPICFlags::send_checksum_error().bits(), 1);
    assert_eq!(LocalAPICFlags::register_address_invalid().bits(), 1 << 7);
}
