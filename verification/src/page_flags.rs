//! The bit set of a page-table entry: architectural attribute bits 0..12 and
//! 52..64; bits 12..52 belong to the frame-address field and are never part
//! of a flag set.

use vstd::prelude::*;

verus! {

/// The bits of an entry that carry flags: bits 0..12 and 52..64.
pub const FLAG_BITS: u64 = 0xFFF0_0000_0000_0FFF;

/// The bits of an entry that carry the frame address: bits 12..52.
pub const ADDR_BITS: u64 = 0x000F_FFFF_FFFF_F000;

/// Each single architectural flag lies inside the flag field.
proof fn lemma_single_flags_wf()
    by (bit_vector)
    ensures
        0u64 & FLAG_BITS == 0u64,
        0x1u64 & FLAG_BITS == 0x1u64,
        0x2u64 & FLAG_BITS == 0x2u64,
        0x4u64 & FLAG_BITS == 0x4u64,
        0x8u64 & FLAG_BITS == 0x8u64,
        0x10u64 & FLAG_BITS == 0x10u64,
        0x20u64 & FLAG_BITS == 0x20u64,
        0x40u64 & FLAG_BITS == 0x40u64,
        0x80u64 & FLAG_BITS == 0x80u64,
        0x100u64 & FLAG_BITS == 0x100u64,
        0x200u64 & FLAG_BITS == 0x200u64,
        0x400u64 & FLAG_BITS == 0x400u64,
        0x800u64 & FLAG_BITS == 0x800u64,
        0x8000_0000_0000_0000u64 & FLAG_BITS == 0x8000_0000_0000_0000u64,
{
}

/// The attribute bits of one page-table entry.
///
/// Each value holds only bits inside [`FLAG_BITS`]; the constructors
/// guarantee it, so a flag set can be united with a page-aligned frame
/// address without the two overlapping.
#[derive(Clone, Copy, Debug, PartialEq, Eq, Structural)]
pub struct PageTableFlags {
    pub bits: u64,
}

impl PageTableFlags {
    /// Validity: only bits of the flag field are set.
    pub open spec fn wf(self) -> bool {
        self.bits & FLAG_BITS == self.bits
    }

    /// Whether every flag of `other` is set in `self`.
    pub open spec fn spec_contains(self, other: PageTableFlags) -> bool {
        self.bits & other.bits == other.bits
    }

    /// The empty flag set.
    pub fn empty() -> (r: PageTableFlags)
        ensures
            r.bits == 0,
            r.wf(),
    {
        proof {
            lemma_single_flags_wf();
        }
        PageTableFlags { bits: 0 }
    }

    /// Keeps the architectural flag bits of a raw value and drops the rest.
    pub fn from_bits_truncate(v: u64) -> (r: PageTableFlags)
        ensures
            r.bits == v & FLAG_BITS,
            r.wf(),
    {
        proof {
            assert((v & 0xFFF0_0000_0000_0FFF) & 0xFFF0_0000_0000_0FFF == v
                & 0xFFF0_0000_0000_0FFF) by (bit_vector);
        }
        PageTableFlags { bits: v & FLAG_BITS }
    }

    /// The raw bits of the flag set.
    pub fn bits(self) -> (r: u64)
        ensures
            r == self.bits,
    {
        self.bits
    }

    /// Whether every flag of `other` is set in `self`.
    pub fn contains(self, other: PageTableFlags) -> (r: bool)
        ensures
            r == self.spec_contains(other),
    {
        self.bits & other.bits == other.bits
    }

    /// The flags set in either operand.
    pub fn union(self, other: PageTableFlags) -> (r: PageTableFlags)
        requires
            self.wf(),
            other.wf(),
        ensures
            r.bits == self.bits | other.bits,
            r.wf(),
    {
        let (a, b) = (self.bits, other.bits);
        proof {
            assert(a & 0xFFF0_0000_0000_0FFF == a && b & 0xFFF0_0000_0000_0FFF == b ==> (a | b)
                & 0xFFF0_0000_0000_0FFF == (a | b)) by (bit_vector);
        }
        PageTableFlags { bits: a | b }
    }

    /// The flags of `self` with those of `other` removed.
    pub fn remove(self, other: PageTableFlags) -> (r: PageTableFlags)
        requires
            self.wf(),
        ensures
            r.bits == self.bits & !other.bits,
            r.wf(),
    {
        let (a, b) = (self.bits, other.bits);
        proof {
            assert(a & 0xFFF0_0000_0000_0FFF == a ==> (a & !b) & 0xFFF0_0000_0000_0FFF == (a
                & !b)) by (bit_vector);
        }
        PageTableFlags { bits: a & !b }
    }

    /// Bit 0: the entry is present.
    pub fn present() -> (r: PageTableFlags)
        ensures
            r.bits == 0x1,
            r.wf(),
    {
        proof {
            lemma_single_flags_wf();
        }
        PageTableFlags { bits: 0x1 }
    }

    /// Bit 1: the mapped range may be written.
    pub fn writable() -> (r: PageTableFlags)
        ensures
            r.bits == 0x2,
            r.wf(),
    {
        proof {
            lemma_single_flags_wf();
        }
        PageTableFlags { bits: 0x2 }
    }

    /// Bit 2: the mapped range is reachable from user mode.
    pub fn user_accessible() -> (r: PageTableFlags)
        ensures
            r.bits == 0x4,
            r.wf(),
    {
        proof {
            lemma_single_flags_wf();
        }
        PageTableFlags { bits: 0x4 }
    }

    /// Bit 3: write-through caching instead of write-back.
    pub fn write_through() -> (r: PageTableFlags)
        ensures
            r.bits == 0x8,
            r.wf(),
    {
        proof {
            lemma_single_flags_wf();
        }
        PageTableFlags { bits: 0x8 }
    }

    /// Bit 4: the mapped range must not be cached.
    pub fn no_cache() -> (r: PageTableFlags)
        ensures
            r.bits == 0x10,
            r.wf(),
    {
        proof {
            lemma_single_flags_wf();
        }
        PageTableFlags { bits: 0x10 }
    }

    /// Bit 5: the processor has read through the entry.
    pub fn accessed() -> (r: PageTableFlags)
        ensures
            r.bits == 0x20,
            r.wf(),
    {
        proof {
            lemma_single_flags_wf();
        }
        PageTableFlags { bits: 0x20 }
    }

    /// Bit 6: the processor has written through the entry.
    pub fn dirty() -> (r: PageTableFlags)
        ensures
            r.bits == 0x40,
            r.wf(),
    {
        proof {
            lemma_single_flags_wf();
        }
        PageTableFlags { bits: 0x40 }
    }

    /// Bit 7: the entry maps a huge page (valid at levels 2 and 3 only).
    pub fn huge_page() -> (r: PageTableFlags)
        ensures
            r.bits == 0x80,
            r.wf(),
    {
        proof {
            lemma_single_flags_wf();
        }
        PageTableFlags { bits: 0x80 }
    }

    /// Bit 8: the translation survives an address-space switch.
    pub fn global() -> (r: PageTableFlags)
        ensures
            r.bits == 0x100,
            r.wf(),
    {
        proof {
            lemma_single_flags_wf();
        }
        PageTableFlags { bits: 0x100 }
    }

    /// Bit 9: free for software use.
    pub fn bit_9() -> (r: PageTableFlags)
        ensures
            r.bits == 0x200,
            r.wf(),
    {
        proof {
            lemma_single_flags_wf();
        }
        PageTableFlags { bits: 0x200 }
    }

    /// Bit 10: free for software use.
    pub fn bit_10() -> (r: PageTableFlags)
        ensures
            r.bits == 0x400,
            r.wf(),
    {
        proof {
            lemma_single_flags_wf();
        }
        PageTableFlags { bits: 0x400 }
    }

    /// Bit 11: free for software use.
    pub fn bit_11() -> (r: PageTableFlags)
        ensures
            r.bits == 0x800,
            r.wf(),
    {
        proof {
            lemma_single_flags_wf();
        }
        PageTableFlags { bits: 0x800 }
    }

    /// Bit 63: instruction fetches from the mapped range are forbidden.
    pub fn no_execute() -> (r: PageTableFlags)
        ensures
            r.bits == 0x8000_0000_0000_0000,
            r.wf(),
    {
        proof {
            assert(0x8000_0000_0000_0000u64 & FLAG_BITS == 0x8000_0000_0000_0000u64)
                by (bit_vector);
        }
        PageTableFlags { bits: 0x8000_0000_0000_0000 }
    }
}

} // verus!
