//! Segment descriptors for the 64-bit global descriptor table, built as
//! bit-exact records; the loading of descriptor tables is privileged work
//! outside this crate.

use vstd::prelude::*;

verus! {

/// The flag bits of a segment descriptor.
///
/// ```text
/// | 63-56     |55|54 |53|52 |51-48   |47|46-45|44|43 |42|41|40|39-16       |15-0     |
/// +-----------+--+---+--+---+--------+--+-----+--+---+--+--+--+------------+---------+
/// |BaseAddr(H)|G |D/B|L |AVL|limit(H)|P |DPL  |S |C/D|C |R |A | BaseAddr(L)|limit(L) |
/// +-----------+--+---+--+---+--------+--+-----+--+---+--+--+--+------------+---------+
/// ```
#[derive(Clone, Copy, Debug, PartialEq, Eq, Structural)]
pub struct DescriptorFlags {
    pub bits: u64,
}

impl DescriptorFlags {
    /// The raw bits of the flag set.
    pub fn bits(self) -> (r: u64)
        ensures
            r == self.bits,
    {
        self.bits
    }

    /// Whether every flag of `other` is set in `self`.
    pub fn contains(self, other: DescriptorFlags) -> (r: bool)
        ensures
            r <==> self.bits & other.bits == other.bits,
    {
        self.bits & other.bits == other.bits
    }

    /// The flags set in either operand.
    pub fn union(self, other: DescriptorFlags) -> (r: DescriptorFlags)
        ensures
            r.bits == self.bits | other.bits,
    {
        DescriptorFlags { bits: self.bits | other.bits }
    }

    /// Bit 40: the segment has been accessed.
    pub fn accessed() -> (r: DescriptorFlags)
        ensures
            r.bits == 1u64 << 40,
    {
        DescriptorFlags { bits: 1u64 << 40 }
    }

    /// Bit 41: a data segment is writable (or a code segment readable).
    pub fn writable() -> (r: DescriptorFlags)
        ensures
            r.bits == 1u64 << 41,
    {
        DescriptorFlags { bits: 1u64 << 41 }
    }

    /// Bit 42: a conforming code segment.
    pub fn conforming() -> (r: DescriptorFlags)
        ensures
            r.bits == 1u64 << 42,
    {
        DescriptorFlags { bits: 1u64 << 42 }
    }

    /// Bit 43: a code segment.
    pub fn executable() -> (r: DescriptorFlags)
        ensures
            r.bits == 1u64 << 43,
    {
        DescriptorFlags { bits: 1u64 << 43 }
    }

    /// Bit 44: an ordinary (non-system) segment.
    pub fn user_segment() -> (r: DescriptorFlags)
        ensures
            r.bits == 1u64 << 44,
    {
        DescriptorFlags { bits: 1u64 << 44 }
    }

    /// Bit 47: the descriptor is present.
    pub fn present() -> (r: DescriptorFlags)
        ensures
            r.bits == 1u64 << 47,
    {
        DescriptorFlags { bits: 1u64 << 47 }
    }

    /// Bit 53: a 64-bit code segment.
    pub fn long_mode() -> (r: DescriptorFlags)
        ensures
            r.bits == 1u64 << 53,
    {
        DescriptorFlags { bits: 1u64 << 53 }
    }

    /// Bits 45..47 zero: descriptor privilege level 0.
    pub fn dpl_ring_0() -> (r: DescriptorFlags)
        ensures
            r.bits == 0,
    {
        DescriptorFlags { bits: 0 }
    }

    /// Bits 45..47 set to three: descriptor privilege level 3.
    pub fn dpl_ring_3() -> (r: DescriptorFlags)
        ensures
            r.bits == 3u64 << 45,
    {
        DescriptorFlags { bits: 3u64 << 45 }
    }
}

/// A 64-bit segment descriptor, carried as its raw flag words.
#[derive(Clone, Debug, PartialEq, Eq, Structural)]
pub enum Descriptor {
    /// A kernel segment descriptor.
    KernelSegment(u64),
    /// A user segment descriptor.
    UserSegment(u64),
    /// A two-word system segment descriptor.
    SystemSegment(u64, u64),
}

impl Descriptor {
    /// The kernel code segment: ordinary, present, executable, 64-bit, ring
    /// 0.
    pub fn kernel_code_segment() -> (r: Descriptor)
        ensures
            r == Descriptor::KernelSegment(
                ((((1u64 << 44) | (1u64 << 47)) | (1u64 << 43)) | (1u64 << 53)) | 0,
            ),
    {
        let flags = DescriptorFlags::user_segment().union(DescriptorFlags::present()).union(
            DescriptorFlags::executable(),
        ).union(DescriptorFlags::long_mode()).union(DescriptorFlags::dpl_ring_0());
        Descriptor::KernelSegment(flags.bits())
    }

    /// The kernel data segment: ordinary, present, writable, ring 0.
    pub fn kernel_data_segment() -> (r: Descriptor)
        ensures
            r == Descriptor::KernelSegment((((1u64 << 44) | (1u64 << 47)) | 0) | (1u64 << 41)),
    {
        let flags = DescriptorFlags::user_segment().union(DescriptorFlags::present()).union(
            DescriptorFlags::dpl_ring_0(),
        ).union(DescriptorFlags::writable());
        Descriptor::KernelSegment(flags.bits())
    }

    /// The kernel thread-local-storage segment: ordinary, present, 64-bit,
    /// ring 0.
    pub fn kernel_thread_local_store() -> (r: Descriptor)
        ensures
            r == Descriptor::KernelSegment((((1u64 << 44) | (1u64 << 47)) | (1u64 << 53)) | 0),
    {
        let flags = DescriptorFlags::user_segment().union(DescriptorFlags::present()).union(
            DescriptorFlags::long_mode(),
        ).union(DescriptorFlags::dpl_ring_0());
        Descriptor::KernelSegment(flags.bits())
    }

    /// The user data segment: ordinary, present, writable, ring 3.
    pub fn user_data_segment() -> (r: Descriptor)
        ensures
            r == Descriptor::UserSegment(
                (((1u64 << 44) | (1u64 << 47)) | (1u64 << 41)) | (3u64 << 45),
            ),
    {
        let flags = DescriptorFlags::user_segment().union(DescriptorFlags::present()).union(
            DescriptorFlags::writable(),
        ).union(DescriptorFlags::dpl_ring_3());
        Descriptor::UserSegment(flags.bits())
    }

    /// The user code segment: ordinary, present, executable, 64-bit, ring 3.
    pub fn user_code_segment() -> (r: Descriptor)
        ensures
            r == Descriptor::UserSegment(
                ((((1u64 << 44) | (1u64 << 47)) | (1u64 << 43)) | (1u64 << 53)) | (3u64 << 45),
            ),
    {
        let flags = DescriptorFlags::user_segment().union(DescriptorFlags::present()).union(
            DescriptorFlags::executable(),
        ).union(DescriptorFlags::long_mode()).union(DescriptorFlags::dpl_ring_3());
        Descriptor::UserSegment(flags.bits())
    }

    /// The two words of a 64-bit task-state-segment descriptor for a segment
    /// that starts at `base` and is `size` bytes long: present, system type
    /// 0b1001 (64-bit available task-state segment), the limit in bits 0..16
    /// and the base address spread over bits 16..40, 56..64 and the second
    /// word. The caller supplies the segment's numeric address; taking the
    /// address of the live segment is its work.
    pub fn tss_segment(base: u64, size: u64) -> (r: Descriptor)
        requires
            1 <= size <= 0x1_0000,
        ensures
            r == Descriptor::SystemSegment(
                ((((1u64 << 47) | ((base & 0xFF_FFFF) << 16)) | (((base >> 24) & 0xFF) << 56)) | (
                (size - 1) as u64)) | (0x9u64 << 40),
                (base >> 32) & 0xFFFF_FFFF,
            ),
    {
        let low = ((((1u64 << 47) | ((base & 0xFF_FFFF) << 16)) | (((base >> 24) & 0xFF) << 56))
            | (size - 1)) | (0x9u64 << 40);
        let high = (base >> 32) & 0xFFFF_FFFF;
        Descriptor::SystemSegment(low, high)
    }
}

} // verus!
