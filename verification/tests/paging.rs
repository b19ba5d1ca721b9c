use intel_x64::addr::{PhysAddr, VirtAddr};
use intel_x64::descriptor::Descriptor;
use intel_x64::mapper::{MapAllSize, Mapper, MapperFlush, PageTableTree};
use intel_x64::page_flags::PageTableFlags;
use intel_x64::page_table::{PageTable, PageTableEntry};
use intel_x64::paging::{
    FlagUpdateError, Frame, FrameAllocator, FrameError, MapToError, Page, PageIndex, PageOffset,
    PageSize, TranslateError, TranslationResult, UnmapError,
};

/// Hands out consecutive 4 KiB frames starting at a base address, up to a
/// budget; counts how many were taken.
struct SeqAllocator {
    next: u64,
    left: usize,
    taken: usize,
}

impl SeqAllocator {
    fn new(base: u64, budget: usize) -> SeqAllocator {
        SeqAllocator { next: base, left: budget, taken: 0 }
    }
}

impl FrameAllocator for SeqAllocator {
    fn allocate_frame(&mut self) -> Option<Frame> {
        if self.left == 0 {
            return None;
        }
        let f = Frame::from_start_address(PhysAddr::new(self.next), PageSize::Size4KB);
        self.next += 0x1000;
        self.left -= 1;
        self.taken += 1;
        Some(f)
    }
}

fn wp() -> PageTableFlags {
    PageTableFlags::writable().union(PageTableFlags::present())
}

#[test]
fn map_then_translate_page() {
    // Map page P to frame F with flags X; translating P afterwards yields F.
    let mut tree = PageTableTree::new();
    let mut alloc = SeqAllocator::new(0x10_0000, 8);
    let page = Page::from_start_address(VirtAddr::new(0x1000), PageSize::Size4KB);
    let frame = Frame::from_start_address(PhysAddr::new(0x2000), PageSize::Size4KB);
    tree.map_to(page, frame, wp(), &mut alloc).unwrap().ignore();
    assert_eq!(tree.translate_page(page), Ok(frame));
    assert_eq!(alloc.taken, 3);
}

#[test]
fn translate_addr_adds_offset() {
    // Map virtual page 0x1000 to physical frame 0x2000 writable and present;
    // 0x1123 translates to 0x2123.
    let mut tree = PageTableTree::new();
    let mut alloc = SeqAllocator::new(0x10_0000, 8);
    let page = Page::from_start_address(VirtAddr::new(0x1000), PageSize::Size4KB);
    let frame = Frame::from_start_address(PhysAddr::new(0x2000), PageSize::Size4KB);
    tree.map_to(page, frame, wp(), &mut alloc).unwrap().ignore();
    assert_eq!(
        tree.translate_addr(VirtAddr::new(0x1123)),
        Some(PhysAddr::new(0x2123))
    );
    assert_eq!(tree.translate_addr(VirtAddr::new(0x3123)), None);
    match tree.translate(VirtAddr::new(0x1123)) {
        TranslationResult::Frame4KB { frame: f, offset } => {
            assert_eq!(f, frame);
            assert_eq!(offset, 0x123);
        },
        other => panic!("wrong translation {:?}", other),
    }
}

#[test]
fn remapping_reports_already_mapped_and_keeps_the_mapping() {
    // Mapping an already-mapped page without unmapping returns the prior
    // frame and leaves the original mapping unchanged.
    let mut tree = PageTableTree::new();
    let mut alloc = SeqAllocator::new(0x10_0000, 8);
    let page = Page::from_start_address(VirtAddr::new(0x1000), PageSize::Size4KB);
    let frame = Frame::from_start_address(PhysAddr::new(0x2000), PageSize::Size4KB);
    let other = Frame::from_start_address(PhysAddr::new(0x5000), PageSize::Size4KB);
    tree.map_to(page, frame, wp(), &mut alloc).unwrap().ignore();
    let before = alloc.taken;
    assert_eq!(
        tree.map_to(page, other, wp(), &mut alloc),
        Err(MapToError::PageAlreadyMapped(frame))
    );
    assert_eq!(alloc.taken, before);
    assert_eq!(tree.translate_page(page), Ok(frame));
}

#[test]
fn unmapping_an_unmapped_page_allocates_nothing() {
    // Unmapping a never-mapped page returns the not-mapped error; no frame
    // allocation can even be attempted, and the tree answers as before.
    let mut tree = PageTableTree::new();
    let page = Page::from_start_address(VirtAddr::new(0x4000), PageSize::Size4KB);
    assert_eq!(tree.unmap(page), Err(UnmapError::PageNotMapped));
    assert_eq!(tree.translate_page(page), Err(TranslateError::PageNotMapped));
}

#[test]
fn unmap_returns_the_frame() {
    let mut tree = PageTableTree::new();
    let mut alloc = SeqAllocator::new(0x10_0000, 8);
    let page = Page::from_start_address(VirtAddr::new(0x1000), PageSize::Size4KB);
    let frame = Frame::from_start_address(PhysAddr::new(0x2000), PageSize::Size4KB);
    tree.map_to(page, frame, wp(), &mut alloc).unwrap().ignore();
    let (freed, flush) = tree.unmap(page).unwrap();
    flush.ignore();
    assert_eq!(freed, frame);
    assert_eq!(tree.translate_page(page), Err(TranslateError::PageNotMapped));
    assert_eq!(tree.unmap(page), Err(UnmapError::PageNotMapped));
}

#[test]
fn huge_pages_map_and_translate() {
    let mut tree = PageTableTree::new();
    let mut alloc = SeqAllocator::new(0x10_0000, 8);
    let page2m = Page::from_start_address(VirtAddr::new(0x4000_0000), PageSize::Size2MB);
    let frame2m = Frame::from_start_address(PhysAddr::new(0x20_0000), PageSize::Size2MB);
    tree.map_to(page2m, frame2m, wp(), &mut alloc).unwrap().ignore();
    assert_eq!(tree.translate_page(page2m), Ok(frame2m));
    assert_eq!(
        tree.translate_addr(VirtAddr::new(0x4000_0000 + 0x1_2345)),
        Some(PhysAddr::new(0x20_0000 + 0x1_2345))
    );
    match tree.translate(VirtAddr::new(0x4000_0000)) {
        TranslationResult::Frame2MB { frame: f, offset } => {
            assert_eq!(f, frame2m);
            assert_eq!(offset, 0);
        },
        other => panic!("wrong translation {:?}", other),
    }

    let page1g = Page::from_start_address(VirtAddr::new(0x80_0000_0000), PageSize::Size1GB);
    let frame1g = Frame::from_start_address(PhysAddr::new(0x4000_0000), PageSize::Size1GB);
    tree.map_to(page1g, frame1g, wp(), &mut alloc).unwrap().ignore();
    assert_eq!(
        tree.translate_addr(VirtAddr::new(0x80_0000_0777)),
        Some(PhysAddr::new(0x4000_0777))
    );
}

#[test]
fn finer_mapping_under_a_huge_entry_is_refused() {
    let mut tree = PageTableTree::new();
    let mut alloc = SeqAllocator::new(0x10_0000, 8);
    let page2m = Page::from_start_address(VirtAddr::new(0x4000_0000), PageSize::Size2MB);
    let frame2m = Frame::from_start_address(PhysAddr::new(0x20_0000), PageSize::Size2MB);
    tree.map_to(page2m, frame2m, wp(), &mut alloc).unwrap().ignore();

    let page4k = Page::from_start_address(VirtAddr::new(0x4000_0000), PageSize::Size4KB);
    let frame4k = Frame::from_start_address(PhysAddr::new(0x9000), PageSize::Size4KB);
    assert_eq!(
        tree.map_to(page4k, frame4k, wp(), &mut alloc),
        Err(MapToError::ParentEntryHugePage)
    );
    assert_eq!(tree.unmap(page4k), Err(UnmapError::ParentEntryHugePage));
    assert_eq!(
        tree.translate_page(page4k),
        Err(TranslateError::ParentEntryHugePage)
    );
    // The 2 MiB view of the same range still answers.
    assert_eq!(tree.translate_page(page2m), Ok(frame2m));
}

#[test]
fn allocation_failure_leaves_page_unmapped() {
    let mut tree = PageTableTree::new();
    let mut empty = SeqAllocator::new(0x10_0000, 0);
    let page = Page::from_start_address(VirtAddr::new(0x1000), PageSize::Size4KB);
    let frame = Frame::from_start_address(PhysAddr::new(0x2000), PageSize::Size4KB);
    assert_eq!(
        tree.map_to(page, frame, wp(), &mut empty),
        Err(MapToError::FrameAllocationFailed)
    );
    assert_eq!(tree.translate_page(page), Err(TranslateError::PageNotMapped));

    // A budget that runs dry mid-walk also fails; the page stays unmapped.
    let mut short = SeqAllocator::new(0x10_0000, 2);
    assert_eq!(
        tree.map_to(page, frame, wp(), &mut short),
        Err(MapToError::FrameAllocationFailed)
    );
    assert_eq!(tree.translate_page(page), Err(TranslateError::PageNotMapped));
}

#[test]
fn update_flags_reencodes_the_terminal_entry() {
    let mut tree = PageTableTree::new();
    let mut alloc = SeqAllocator::new(0x10_0000, 8);
    let page = Page::from_start_address(VirtAddr::new(0x1000), PageSize::Size4KB);
    let frame = Frame::from_start_address(PhysAddr::new(0x2000), PageSize::Size4KB);
    tree.map_to(page, frame, wp(), &mut alloc).unwrap().ignore();

    let ro = PageTableFlags::present();
    tree.update_flags(page, ro).unwrap().ignore();
    // The frame address is preserved.
    assert_eq!(tree.translate_page(page), Ok(frame));

    let missing = Page::from_start_address(VirtAddr::new(0x9000), PageSize::Size4KB);
    assert_eq!(
        tree.update_flags(missing, ro),
        Err(FlagUpdateError::PageNotMapped)
    );
}

#[test]
fn non_present_mapping_does_not_translate() {
    // Installing an entry without the present flag records it, but the walk
    // reports the page as not mapped.
    let mut tree = PageTableTree::new();
    let mut alloc = SeqAllocator::new(0x10_0000, 8);
    let page = Page::from_start_address(VirtAddr::new(0x1000), PageSize::Size4KB);
    let frame = Frame::from_start_address(PhysAddr::new(0x2000), PageSize::Size4KB);
    tree.map_to(page, frame, PageTableFlags::writable(), &mut alloc)
        .unwrap()
        .ignore();
    assert_eq!(tree.translate_page(page), Err(TranslateError::PageNotMapped));
    assert_eq!(tree.translate_addr(VirtAddr::new(0x1123)), None);
}

#[test]
fn identity_map_uses_the_frame_address() {
    let mut tree = PageTableTree::new();
    let mut alloc = SeqAllocator::new(0x10_0000, 8);
    let frame = Frame::from_start_address(PhysAddr::new(0x3000), PageSize::Size4KB);
    tree.identity_map(frame, wp(), &mut alloc).unwrap().ignore();
    assert_eq!(
        tree.translate_addr(VirtAddr::new(0x3abc)),
        Some(PhysAddr::new(0x3abc))
    );
}

#[test]
fn mapper_flush_names_the_page() {
    let page = Page::from_start_address(VirtAddr::new(0x1000), PageSize::Size4KB);
    let flush = MapperFlush::new(page);
    assert_eq!(flush.page(), page);
    flush.ignore();
}

#[test]
fn entry_bit_layout() {
    let mut e = PageTableEntry::new();
    assert!(e.is_unused());
    assert_eq!(e.frame(), Err(FrameError::FrameNotPresent));

    e.set_addr(PhysAddr::new(0x2000), wp());
    assert_eq!(e.entry, 0x2003);
    assert_eq!(e.addr().as_u64(), 0x2000);
    assert!(e.flags().contains(PageTableFlags::present()));
    assert!(e.flags().contains(PageTableFlags::writable()));
    assert_eq!(
        e.frame(),
        Ok(Frame::from_start_address(PhysAddr::new(0x2000), PageSize::Size4KB))
    );

    e.set_flags(wp().union(PageTableFlags::huge_page()));
    assert_eq!(e.entry, 0x2083);
    assert_eq!(e.frame(), Err(FrameError::HugeFrame));

    let f = Frame::from_start_address(PhysAddr::new(0x5000), PageSize::Size4KB);
    e.set_frame(f, PageTableFlags::present());
    assert_eq!(e.entry, 0x5001);

    e.set_unused();
    assert!(e.is_unused());

    let mut nx = PageTableEntry::new();
    nx.set_addr(
        PhysAddr::new(0x1000),
        PageTableFlags::present().union(PageTableFlags::no_execute()),
    );
    assert_eq!(nx.entry, 0x8000_0000_0000_1001);
}

#[test]
fn page_table_holds_512_entries() {
    let mut t = PageTable::new();
    for i in [0usize, 17, 511] {
        assert!(t.entry(i).is_unused());
    }
    let mut e = PageTableEntry::new();
    e.set_addr(PhysAddr::new(0x7000), PageTableFlags::present());
    t.set_entry(3, e);
    assert_eq!(t.entry(3).entry, 0x7001);
    t.set_entry_at(PageIndex::new(4), e);
    assert_eq!(t.entry_at(PageIndex::new(4)).entry, 0x7001);
    t.zero();
    assert!(t.entry(3).is_unused());
    assert!(t.entry(4).is_unused());
}

#[test]
fn flag_sets_combine() {
    let f = PageTableFlags::from_bits_truncate(0xFFFF);
    assert_eq!(f.bits(), 0xFFF);
    let g = PageTableFlags::from_bits_truncate(0x0000_1000_0000_0000);
    assert_eq!(g.bits(), 0);
    let wp = PageTableFlags::writable().union(PageTableFlags::present());
    assert_eq!(wp.bits(), 3);
    assert!(wp.contains(PageTableFlags::present()));
    assert!(!wp.contains(PageTableFlags::huge_page()));
    assert_eq!(wp.remove(PageTableFlags::writable()).bits(), 1);
    assert_eq!(PageTableFlags::empty().bits(), 0);
    assert_eq!(PageTableFlags::global().bits(), 0x100);
    assert_eq!(PageTableFlags::no_cache().bits(), 0x10);
    assert_eq!(PageTableFlags::accessed().bits(), 0x20);
    assert_eq!(PageTableFlags::dirty().bits(), 0x40);
    assert_eq!(PageTableFlags::user_accessible().bits(), 4);
    assert_eq!(PageTableFlags::write_through().bits(), 8);
    assert_eq!(PageTableFlags::bit_9().bits(), 0x200);
    assert_eq!(PageTableFlags::bit_10().bits(), 0x400);
    assert_eq!(PageTableFlags::bit_11().bits(), 0x800);
}

#[test]
fn index_and_offset_types_truncate() {
    assert_eq!(PageIndex::new_truncate(0xFFFF).as_u16(), 0x1FF);
    assert_eq!(PageIndex::new(7).as_usize(), 7);
    assert_eq!(PageOffset::new_truncate(0xFFFF).as_u16(), 0xFFF);
    assert_eq!(PageOffset::new(0x123).as_usize(), 0x123);
}

#[test]
fn pages_and_frames_are_aligned_locators() {
    let p = Page::include_address(VirtAddr::new(0x1234), PageSize::Size4KB);
    assert_eq!(p.start_address().as_u64(), 0x1000);
    assert_eq!(p.size(), PageSize::Size4KB);

    let p2 = Page::include_address(VirtAddr::new(0x4012_3456), PageSize::Size2MB);
    assert_eq!(p2.start_address().as_u64(), 0x4000_0000);

    let f = Frame::include_address(PhysAddr::new(0x5678), PageSize::Size4KB);
    assert_eq!(f.start_address().as_u64(), 0x5000);

    let g = Frame::from_start_address(PhysAddr::new(0x4000_0000), PageSize::Size1GB);
    assert_eq!(g.size().size(), 0x4000_0000);
    assert_eq!(PageSize::Size4KB.size(), 0x1000);
    assert_eq!(PageSize::Size2MB.size(), 0x20_0000);
}

#[test]
fn mapping_one_page_leaves_others_untouched() {
    // Two 4 KiB pages sharing the same table chain translate independently:
    // mapping the second leaves the first as it was, and unmapping the
    // first leaves the second.
    let mut tree = PageTableTree::new();
    let mut alloc = SeqAllocator::new(0x10_0000, 8);
    let page_a = Page::from_start_address(VirtAddr::new(0x1000), PageSize::Size4KB);
    let frame_a = Frame::from_start_address(PhysAddr::new(0x2000), PageSize::Size4KB);
    let page_b = Page::from_start_address(VirtAddr::new(0x8000), PageSize::Size4KB);
    let frame_b = Frame::from_start_address(PhysAddr::new(0x6000), PageSize::Size4KB);
    tree.map_to(page_a, frame_a, wp(), &mut alloc).unwrap().ignore();
    tree.map_to(page_b, frame_b, wp(), &mut alloc).unwrap().ignore();
    // The second mapping reused the chain: no further table allocation.
    assert_eq!(alloc.taken, 3);
    assert_eq!(tree.translate_page(page_a), Ok(frame_a));
    assert_eq!(tree.translate_page(page_b), Ok(frame_b));

    let (freed, flush) = tree.unmap(page_a).unwrap();
    flush.ignore();
    assert_eq!(freed, frame_a);
    assert_eq!(tree.translate_page(page_a), Err(TranslateError::PageNotMapped));
    assert_eq!(tree.translate_page(page_b), Ok(frame_b));
}

#[test]
fn tss_descriptor_packs_base_and_limit() {
    let d = Descriptor::tss_segment(0x1234_5678_9ABC_DEF0, 0x68);
    match d {
        Descriptor::SystemSegment(low, high) => {
            assert_eq!(low & 0xFFFF, 0x67);
            assert_eq!((low >> 16) & 0xFF_FFFF, 0xBC_DEF0);
            assert_eq!((low >> 56) & 0xFF, 0x9A);
            assert_eq!((low >> 40) & 0xF, 0x9);
            assert_eq!((low >> 47) & 1, 1);
            assert_eq!(high, 0x1234_5678);
        },
        other => panic!("wrong descriptor {:?}", other),
    }
}
