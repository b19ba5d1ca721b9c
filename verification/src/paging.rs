//! Page-size classes, table indices, size-tagged page and frame locators,
//! the frame-allocation capability, and the paging error taxonomy.

use vstd::prelude::*;

use crate::addr::{align_down_spec, is_canonical, is_valid_phys, PhysAddr, VirtAddr};

verus! {

/// The number of entries in one page table.
pub const ENTRY_COUNT: usize = 512;

/// The closed set of long-mode page-size classes.
///
/// A 4 KiB page is mapped by a level-1 entry after a full four-level walk;
/// a 2 MiB page terminates the walk at level 2 and a 1 GiB page at level 3,
/// both with the huge-page bit set in the terminal entry.
#[derive(Clone, Copy, Debug, PartialEq, Eq, Structural)]
pub enum PageSize {
    /// 4 KiB, mapped at level 1.
    Size4KB,
    /// 2 MiB, mapped at level 2 with the huge-page bit.
    Size2MB,
    /// 1 GiB, mapped at level 3 with the huge-page bit.
    Size1GB,
}

impl PageSize {
    /// The size class in bytes.
    pub open spec fn bytes(self) -> u64 {
        match self {
            PageSize::Size4KB => 0x1000,
            PageSize::Size2MB => 0x20_0000,
            PageSize::Size1GB => 0x4000_0000,
        }
    }

    /// The size class in bytes.
    pub fn size(self) -> (r: u64)
        ensures
            r == self.bytes(),
    {
        match self {
            PageSize::Size4KB => 0x1000,
            PageSize::Size2MB => 0x20_0000,
            PageSize::Size1GB => 0x4000_0000,
        }
    }
}

/// A nine-bit page-table index; by construction it cannot hold a value
/// outside 0..512, so out-of-range table access cannot arise from it.
#[derive(Clone, Copy, Debug, PartialEq, Eq, Structural)]
pub struct PageIndex(pub u16);

impl View for PageIndex {
    type V = u16;

    open spec fn view(&self) -> u16 {
        self.0
    }
}

impl PageIndex {
    /// Builds an index from a value already below 512.
    pub fn new(v: u16) -> (r: PageIndex)
        requires
            v < 512,
        ensures
            r@ == v,
    {
        PageIndex(v)
    }

    /// Builds an index from the low nine bits of the value.
    pub fn new_truncate(v: u16) -> (r: PageIndex)
        ensures
            r@ == v & 0x1FF,
            r@ < 512,
    {
        proof {
            assert(v & 0x1FF < 512) by (bit_vector);
        }
        PageIndex(v & 0x1FF)
    }

    /// The index value.
    pub fn as_u16(self) -> (r: u16)
        ensures
            r == self@,
    {
        self.0
    }

    /// The index value as `usize`.
    pub fn as_usize(self) -> (r: usize)
        ensures
            r == self@ as usize,
    {
        self.0 as usize
    }
}

/// A twelve-bit offset within a 4 KiB page; by construction below 4096.
#[derive(Clone, Copy, Debug, PartialEq, Eq, Structural)]
pub struct PageOffset(pub u16);

impl View for PageOffset {
    type V = u16;

    open spec fn view(&self) -> u16 {
        self.0
    }
}

impl PageOffset {
    /// Builds an offset from a value already below 4096.
    pub fn new(v: u16) -> (r: PageOffset)
        requires
            v < 4096,
        ensures
            r@ == v,
    {
        PageOffset(v)
    }

    /// Builds an offset from the low twelve bits of the value.
    pub fn new_truncate(v: u16) -> (r: PageOffset)
        ensures
            r@ == v & 0xFFF,
            r@ < 4096,
    {
        proof {
            assert(v & 0xFFF < 4096) by (bit_vector);
        }
        PageOffset(v & 0xFFF)
    }

    /// The offset value.
    pub fn as_u16(self) -> (r: u16)
        ensures
            r == self@,
    {
        self.0
    }

    /// The offset value as `usize`.
    pub fn as_usize(self) -> (r: usize)
        ensures
            r == self@ as usize,
    {
        self.0 as usize
    }
}

/// A virtual page: a canonical address aligned to its size class. A pure
/// locator, not an owner of memory.
#[derive(Clone, Copy, Debug, PartialEq, Eq, Structural)]
pub struct Page {
    pub addr: VirtAddr,
    pub size: PageSize,
}

impl Page {
    /// Validity: the start address is canonical and aligned to the size
    /// class. Constructors establish this and all operations preserve it.
    pub open spec fn wf(self) -> bool {
        &&& is_canonical(self.addr@)
        &&& self.addr@ as int % self.size.bytes() as int == 0
    }

    /// The page of the given size class that contains the address.
    pub fn include_address(addr: VirtAddr, size: PageSize) -> (r: Page)
        requires
            is_canonical(addr@),
        ensures
            r.size == size,
            r.addr@ == addr@ & !((size.bytes() - 1) as u64),
            r.wf(),
    {
        let bytes = size.size();
        proof {
            let b = size.bytes();
            let av = addr@;
            assert((b == 0x1000 || b == 0x20_0000 || b == 0x4000_0000) ==> {
                &&& b != 0 && b & ((b - 1) as u64) == 0
                &&& ((av >> 47 == 0 || av >> 47 == 0x1FFFF) ==> ((av & !((b - 1) as u64)) >> 47
                    == 0 || (av & !((b - 1) as u64)) >> 47 == 0x1FFFF))
            }) by (bit_vector);
            crate::addr::lemma_masked_is_multiple(align_down_spec(av, b), b);
            assert((av & !((b - 1) as u64)) & ((b - 1) as u64) == 0) by (bit_vector);
        }
        Page { addr: addr.align_down(bytes), size }
    }

    /// Builds the page that starts exactly at the given address.
    pub fn from_start_address(addr: VirtAddr, size: PageSize) -> (r: Page)
        requires
            is_canonical(addr@),
            addr@ as int % size.bytes() as int == 0,
        ensures
            r == (Page { addr, size }),
            r.wf(),
    {
        Page { addr, size }
    }

    /// The first address of the page.
    pub fn start_address(&self) -> (r: VirtAddr)
        ensures
            r == self.addr,
    {
        self.addr
    }

    /// The size class of the page.
    pub fn size(&self) -> (r: PageSize)
        ensures
            r == self.size,
    {
        self.size
    }
}

/// A physical frame: a valid physical address aligned to its size class. A
/// pure locator; holding a `Frame` implies no ownership of the memory.
#[derive(Clone, Copy, Debug, PartialEq, Eq, Structural)]
pub struct Frame {
    pub addr: PhysAddr,
    pub size: PageSize,
}

impl Frame {
    /// Validity: the start address is below the physical ceiling and aligned
    /// to the size class.
    pub open spec fn wf(self) -> bool {
        &&& is_valid_phys(self.addr@)
        &&& self.addr@ as int % self.size.bytes() as int == 0
    }

    /// The frame of the given size class that contains the address.
    pub fn include_address(addr: PhysAddr, size: PageSize) -> (r: Frame)
        requires
            is_valid_phys(addr@),
        ensures
            r.size == size,
            r.addr@ == addr@ & !((size.bytes() - 1) as u64),
            r.wf(),
    {
        let bytes = size.size();
        proof {
            let b = size.bytes();
            let av = addr@;
            assert((b == 0x1000 || b == 0x20_0000 || b == 0x4000_0000) ==> {
                &&& b != 0 && b & ((b - 1) as u64) == 0
                &&& (av >> 52 == 0 ==> (av & !((b - 1) as u64)) >> 52 == 0)
            }) by (bit_vector);
            crate::addr::lemma_masked_is_multiple(align_down_spec(av, b), b);
            assert((av & !((b - 1) as u64)) & ((b - 1) as u64) == 0) by (bit_vector);
        }
        Frame { addr: addr.align_down(bytes), size }
    }

    /// Builds the frame that starts exactly at the given address.
    pub fn from_start_address(addr: PhysAddr, size: PageSize) -> (r: Frame)
        requires
            is_valid_phys(addr@),
            addr@ as int % size.bytes() as int == 0,
        ensures
            r == (Frame { addr, size }),
            r.wf(),
    {
        Frame { addr, size }
    }

    /// The first address of the frame.
    pub fn start_address(&self) -> (r: PhysAddr)
        ensures
            r == self.addr,
    {
        self.addr
    }

    /// The size class of the frame.
    pub fn size(&self) -> (r: PageSize)
        ensures
            r == self.size,
    {
        self.size
    }
}

/// The frame-allocation capability that mapping consumes: hands out frames of
/// the smallest size class. Implementations live outside this crate, so the
/// mapper validates every frame it receives rather than relying on a promise
/// here.
pub trait FrameAllocator {
    /// Allocates one frame, or reports exhaustion with `None`.
    fn allocate_frame(&mut self) -> Option<Frame>;
}

/// The failure of reading a single entry as a mapped frame.
#[derive(Clone, Copy, Debug, PartialEq, Eq, Structural)]
pub enum FrameError {
    /// The entry does not have the present bit.
    FrameNotPresent,
    /// The entry maps a huge frame; the walk must treat it at its own level.
    HugeFrame,
}

/// The failures of `map_to`.
#[derive(Clone, Copy, Debug, PartialEq, Eq, Structural)]
pub enum MapToError {
    /// The frame allocator could not supply a usable frame for a new table.
    FrameAllocationFailed,
    /// An entry above the terminal level already maps a huge page, so a
    /// finer mapping cannot be threaded through it.
    ParentEntryHugePage,
    /// The terminal entry is already present; carries the frame it maps.
    PageAlreadyMapped(Frame),
}

/// The failures of `unmap`.
#[derive(Clone, Copy, Debug, PartialEq, Eq, Structural)]
pub enum UnmapError {
    /// The size class of the request does not match the entries found: an
    /// entry above the terminal level maps a huge page, or the terminal
    /// entry for a huge request points to a finer table instead.
    ParentEntryHugePage,
    /// Some entry on the walk is not present.
    PageNotMapped,
    /// An entry holds a frame address that is not usable: a table pointer
    /// leading outside the tree, or a huge frame address that is not aligned
    /// to its size class.
    InvalidFrameAddress(PhysAddr),
}

/// The failures of `update_flags`.
#[derive(Clone, Copy, Debug, PartialEq, Eq, Structural)]
pub enum FlagUpdateError {
    /// There is no terminal entry of the requested size class for the page.
    PageNotMapped,
}

/// The failures of `translate_page`.
#[derive(Clone, Copy, Debug, PartialEq, Eq, Structural)]
pub enum TranslateError {
    /// Some entry on the walk is not present, or the terminal entry does not
    /// carry the size class asked for.
    PageNotMapped,
    /// An entry above the terminal level already maps a huge page.
    ParentEntryHugePage,
    /// An entry holds a frame address that is not usable.
    InvalidFrameAddress(PhysAddr),
}

/// The outcome of a size-class-agnostic translation of one virtual address.
#[derive(Clone, Copy, Debug, PartialEq, Eq, Structural)]
pub enum TranslationResult {
    /// Mapped by a 4 KiB leaf entry; carries the frame and the in-frame
    /// offset of the translated address.
    Frame4KB { frame: Frame, offset: u64 },
    /// Mapped by a 2 MiB huge entry.
    Frame2MB { frame: Frame, offset: u64 },
    /// Mapped by a 1 GiB huge entry.
    Frame1GB { frame: Frame, offset: u64 },
    /// No present mapping of any size class covers the address.
    PageNotMapped,
    /// An entry on the walk holds a frame address that is not usable.
    InvalidFrameAddress(PhysAddr),
}

} // verus!
