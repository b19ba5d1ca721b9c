//! The 8-byte page-table entry and the 512-entry page table of one level.

use vstd::prelude::*;

use crate::addr::{is_valid_phys, PhysAddr};
use crate::page_flags::{PageTableFlags, ADDR_BITS, FLAG_BITS};
use crate::paging::{Frame, FrameError, PageIndex, PageSize};

verus! {

/// Whether the present bit (bit 0) of a raw entry is set.
pub open spec fn entry_present(e: u64) -> bool {
    e & 0x1 == 0x1
}

/// Whether the huge-page bit (bit 7) of a raw entry is set.
pub open spec fn entry_huge(e: u64) -> bool {
    e & 0x80 == 0x80
}

/// The frame-address field (bits 12..52) of a raw entry.
pub open spec fn entry_addr(e: u64) -> u64 {
    e & ADDR_BITS
}

/// The flag field (bits 0..12 and 52..64) of a raw entry.
pub open spec fn entry_flag_bits(e: u64) -> u64 {
    e & FLAG_BITS
}

/// Facts about the two fields of an entry that every reader of the layout
/// uses: the address field is a valid, page-aligned physical address, and the
/// present and huge bits sit in the flag field.
pub proof fn lemma_entry_fields(e: u64)
    by (bit_vector)
    ensures
        entry_addr(e) >> 52 == 0,
        entry_addr(e) & 0xFFF == 0,
        entry_addr(e) & !(0xFFFu64) == entry_addr(e),
        entry_present(e) <==> entry_flag_bits(e) & 0x1 == 0x1,
        entry_huge(e) <==> entry_flag_bits(e) & 0x80 == 0x80,
{
}

/// One 64-bit page-table entry: a bit-packed record of attribute flags and a
/// 40-bit frame-address field at bits 12..52.
///
/// Layout, bit-exact to the architecture manual: bit 0 present, bit 1
/// writable, bit 2 user-accessible, bit 3 write-through, bit 4 no-cache,
/// bit 5 accessed, bit 6 dirty, bit 7 huge-page, bit 8 global, bits 9..12 and
/// 52..63 software-defined, bit 63 no-execute.
#[derive(Clone, Copy, Debug, PartialEq, Eq, Structural)]
pub struct PageTableEntry {
    pub entry: u64,
}

impl PageTableEntry {
    /// An empty (unused) entry.
    pub fn new() -> (r: PageTableEntry)
        ensures
            r.entry == 0,
    {
        PageTableEntry { entry: 0 }
    }

    /// Whether the entry is all zero.
    pub fn is_unused(&self) -> (r: bool)
        ensures
            r <==> self.entry == 0,
    {
        self.entry == 0
    }

    /// Clears the entry.
    pub fn set_unused(&mut self)
        ensures
            final(self).entry == 0,
    {
        self.entry = 0;
    }

    /// The attribute flags of the entry.
    pub fn flags(&self) -> (r: PageTableFlags)
        ensures
            r.bits == entry_flag_bits(self.entry),
            r.wf(),
    {
        PageTableFlags::from_bits_truncate(self.entry)
    }

    /// The physical address of the entry's frame-address field.
    pub fn addr(&self) -> (r: PhysAddr)
        ensures
            r@ == entry_addr(self.entry),
            is_valid_phys(r@),
    {
        proof {
            lemma_entry_fields(self.entry);
        }
        PhysAddr::new(self.entry & ADDR_BITS)
    }

    /// The 4 KiB frame the entry maps. A non-present entry yields
    /// `FrameNotPresent`; a present huge entry yields `HugeFrame` rather than
    /// a misread address, since its frame must be taken at its own level.
    pub fn frame(&self) -> (r: Result<Frame, FrameError>)
        ensures
            !entry_present(self.entry) ==> r == Err::<Frame, FrameError>(
                FrameError::FrameNotPresent,
            ),
            entry_present(self.entry) && entry_huge(self.entry) ==> r == Err::<Frame, FrameError>(
                FrameError::HugeFrame,
            ),
            entry_present(self.entry) && !entry_huge(self.entry) ==> r == Ok::<Frame, FrameError>(
                Frame {
                    addr: PhysAddr(entry_addr(self.entry)),
                    size: PageSize::Size4KB,
                },
            ),
    {
        let fl = self.flags();
        proof {
            lemma_entry_fields(self.entry);
        }
        if !fl.contains(PageTableFlags::present()) {
            Err(FrameError::FrameNotPresent)
        } else if fl.contains(PageTableFlags::huge_page()) {
            Err(FrameError::HugeFrame)
        } else {
            Ok(Frame::include_address(self.addr(), PageSize::Size4KB))
        }
    }

    /// Writes the entry as the union of a 4 KiB-aligned physical address and
    /// a flag set; alignment keeps the two fields disjoint.
    pub fn set_addr(&mut self, phy: PhysAddr, flags: PageTableFlags)
        requires
            phy@ & 0xFFF == 0,
            flags.wf(),
        ensures
            final(self).entry == phy@ | flags.bits,
    {
        self.entry = phy.as_u64() | flags.bits();
    }

    /// Maps the entry to a 4 KiB frame with the given flags; the huge-page
    /// flag cannot be attached through this setter.
    pub fn set_frame(&mut self, f: Frame, flags: PageTableFlags)
        requires
            f.wf(),
            f.size == PageSize::Size4KB,
            flags.wf(),
            !flags.spec_contains(PageTableFlags { bits: 0x80 }),
        ensures
            final(self).entry == f.addr@ | flags.bits,
    {
        let a = f.start_address();
        proof {
            assert(0x1000u64 != 0 && 0x1000u64 & ((0x1000u64 - 1) as u64) == 0) by (bit_vector);
            crate::addr::lemma_masked_is_multiple(a@, 0x1000);
        }
        self.set_addr(a, flags);
    }

    /// Re-encodes the flag field while keeping the frame-address field.
    pub fn set_flags(&mut self, flags: PageTableFlags)
        requires
            flags.wf(),
        ensures
            final(self).entry == entry_addr(old(self).entry) | flags.bits,
    {
        let a = self.addr();
        self.entry = a.as_u64() | flags.bits();
    }
}

/// One page table: the 512 eight-byte entries of a single tree level,
/// filling exactly one 4 KiB page. Viewed as the sequence of its raw
/// entry values.
#[derive(Clone, Debug, PartialEq, Eq)]
pub struct PageTable {
    entries: Vec<PageTableEntry>,
}

impl View for PageTable {
    type V = Seq<u64>;

    closed spec fn view(&self) -> Seq<u64> {
        Seq::new(self.entries@.len(), |i: int| self.entries@[i].entry)
    }
}

impl PageTable {
    /// Validity: exactly 512 entries.
    pub open spec fn wf(&self) -> bool {
        self@.len() == 512
    }

    /// An empty table: 512 unused entries.
    pub fn new() -> (r: PageTable)
        ensures
            r.wf(),
            forall|i: int| 0 <= i < 512 ==> r@[i] == 0,
    {
        let mut entries: Vec<PageTableEntry> = Vec::new();
        let mut i: usize = 0;
        while i < 512
            invariant
                i <= 512,
                entries@.len() == i,
                forall|j: int| 0 <= j < i ==> entries@[j].entry == 0,
            decreases 512 - i,
        {
            entries.push(PageTableEntry::new());
            i = i + 1;
        }
        PageTable { entries }
    }

    /// Clears every entry.
    pub fn zero(&mut self)
        requires
            old(self).wf(),
        ensures
            final(self).wf(),
            forall|i: int| 0 <= i < 512 ==> final(self)@[i] == 0,
    {
        let mut i: usize = 0;
        while i < 512
            invariant
                i <= 512,
                self.entries@.len() == 512,
                forall|j: int| 0 <= j < i ==> self.entries@[j].entry == 0,
            decreases 512 - i,
        {
            self.entries.set(i, PageTableEntry::new());
            i = i + 1;
        }
    }

    /// The entry at a numeric index below 512.
    pub fn entry(&self, index: usize) -> (r: PageTableEntry)
        requires
            self.wf(),
            index < 512,
        ensures
            r.entry == self@[index as int],
    {
        self.entries[index]
    }

    /// Replaces the entry at a numeric index below 512.
    pub fn set_entry(&mut self, index: usize, e: PageTableEntry)
        requires
            old(self).wf(),
            index < 512,
        ensures
            final(self).wf(),
            final(self)@ == old(self)@.update(index as int, e.entry),
    {
        self.entries.set(index, e);
        proof {
            assert(self@ =~= old(self)@.update(index as int, e.entry));
        }
    }

    /// The entry at a nine-bit table index.
    pub fn entry_at(&self, index: PageIndex) -> (r: PageTableEntry)
        requires
            self.wf(),
            index@ < 512,
        ensures
            r.entry == self@[index@ as int],
    {
        self.entries[index.as_usize()]
    }

    /// Replaces the entry at a nine-bit table index.
    pub fn set_entry_at(&mut self, index: PageIndex, e: PageTableEntry)
        requires
            old(self).wf(),
            index@ < 512,
        ensures
            final(self).wf(),
            final(self)@ == old(self)@.update(index@ as int, e.entry),
    {
        self.set_entry(index.as_usize(), e);
    }
}

} // verus!
