//! Architecture-wide vocabulary: privilege levels, segment selectors,
//! descriptor-table pointers, and the traits that name an architecture
//! variant and its table-loading collaborators.

use vstd::prelude::*;

verus! {

/// A descriptor table that can install itself into the processor; loading is
/// a privileged instruction and lives with the implementors outside this
/// crate.
pub trait DescriptorTable {
    /// Installs the table into the processor.
    fn load();
}

/// The four protection rings.
#[derive(Debug, Copy, Clone, PartialEq, Eq, Structural)]
pub enum PrivilegedLevel {
    /// Ring 0, the most privileged.
    Ring0,
    /// Ring 1.
    Ring1,
    /// Ring 2.
    Ring2,
    /// Ring 3, the least privileged.
    Ring3,
}

/// The numeric encoding of a privilege level.
pub open spec fn level_number(l: PrivilegedLevel) -> u16 {
    match l {
        PrivilegedLevel::Ring0 => 0,
        PrivilegedLevel::Ring1 => 1,
        PrivilegedLevel::Ring2 => 2,
        PrivilegedLevel::Ring3 => 3,
    }
}

impl PrivilegedLevel {
    /// The privilege level with the given number; numbers above three name
    /// no ring.
    pub fn from_u16(level: u16) -> (r: PrivilegedLevel)
        requires
            level < 4,
        ensures
            level_number(r) == level,
    {
        match level {
            0 => PrivilegedLevel::Ring0,
            1 => PrivilegedLevel::Ring1,
            2 => PrivilegedLevel::Ring2,
            _ => PrivilegedLevel::Ring3,
        }
    }

    /// The numeric encoding of this level.
    pub fn as_u16(self) -> (r: u16)
        ensures
            r == level_number(self),
    {
        match self {
            PrivilegedLevel::Ring0 => 0,
            PrivilegedLevel::Ring1 => 1,
            PrivilegedLevel::Ring2 => 2,
            PrivilegedLevel::Ring3 => 3,
        }
    }
}

/// A selector into a descriptor table: a 13-bit index, a table bit, and the
/// two-bit requested privilege level.
pub trait Selector {
    /// The raw 16-bit selector value.
    spec fn raw(&self) -> u16;

    /// The descriptor index, bits 3..16.
    fn index(&self) -> (r: u16)
        ensures
            r == self.raw() >> 3,
    ;

    /// The requested privilege level, bits 0..2.
    fn rpl(&self) -> (r: PrivilegedLevel)
        ensures
            level_number(r) == self.raw() & 3,
    ;

    /// The raw value.
    fn as_u16(&self) -> (r: u16)
        ensures
            r == self.raw(),
    ;

    /// The raw value as `usize`.
    fn as_usize(&self) -> (r: usize)
        ensures
            r == self.raw() as usize,
    ;

    /// The raw value as `u64`.
    fn as_u64(&self) -> (r: u64)
        ensures
            r == self.raw() as u64,
    ;

    /// The raw value as `u32`.
    fn as_u32(&self) -> (r: u32)
        ensures
            r == self.raw() as u32,
    ;
}

/// A segment selector: descriptor index and requested privilege level.
///
/// See Intel 3a, section 3.4.2, "Segment Selectors".
#[derive(Copy, Clone, Eq, PartialEq, Structural, Debug)]
pub struct SegmentSelector(pub u16);

impl SegmentSelector {
    /// Builds a selector from a descriptor index and a privilege level; the
    /// index occupies bits 3..16, so it must fit in thirteen bits.
    pub fn new(index: u16, rpl: PrivilegedLevel) -> (r: SegmentSelector)
        requires
            index < 0x2000,
        ensures
            r.0 == (index << 3) | level_number(rpl),
    {
        SegmentSelector((index << 3) | rpl.as_u16())
    }
}

impl Selector for SegmentSelector {
    open spec fn raw(&self) -> u16 {
        self.0
    }

    fn index(&self) -> (r: u16) {
        self.0 >> 3
    }

    fn rpl(&self) -> (r: PrivilegedLevel) {
        let v = self.0;
        let low = v & 3;
        proof {
            assert(v & 3 < 4) by (bit_vector);
        }
        PrivilegedLevel::from_u16(low)
    }

    fn as_u16(&self) -> (r: u16) {
        self.0
    }

    fn as_usize(&self) -> (r: usize) {
        self.0 as usize
    }

    fn as_u64(&self) -> (r: u64) {
        self.0 as u64
    }

    fn as_u32(&self) -> (r: u32) {
        self.0 as u32
    }
}

/// An architecture variant of this processor family: its register width and
/// its display name.
pub trait ArchIntel {
    /// The register width in bits.
    spec fn spec_bit() -> u64;

    /// The display name.
    spec fn spec_display_str() -> Seq<char>;

    /// The register width in bits.
    fn bit() -> (r: u64)
        ensures
            r == Self::spec_bit(),
    ;

    /// The display name.
    fn display_str() -> (r: &'static str)
        ensures
            r@ == Self::spec_display_str(),
    ;
}

/// The 32-bit protected-mode variant.
pub struct IntelX32;

impl ArchIntel for IntelX32 {
    open spec fn spec_bit() -> u64 {
        32
    }

    open spec fn spec_display_str() -> Seq<char> {
        "Intel x32"@
    }

    fn bit() -> (r: u64) {
        32
    }

    fn display_str() -> (r: &'static str) {
        "Intel x32"
    }
}

/// The 64-bit long-mode variant.
pub struct IntelX64;

impl ArchIntel for IntelX64 {
    open spec fn spec_bit() -> u64 {
        64
    }

    open spec fn spec_display_str() -> Seq<char> {
        "Intel x64"@
    }

    fn bit() -> (r: u64) {
        64
    }

    fn display_str() -> (r: &'static str) {
        "Intel x64"
    }
}

/// A pointer-form descriptor table record: the limit and base that the
/// table-register load instructions consume.
pub trait TablePointer<A: ArchIntel> {
    /// The table limit as the record holds it.
    spec fn spec_limit(&self) -> u16;

    /// The table base as the record holds it.
    spec fn spec_base(&self) -> u64;

    /// The table limit.
    fn limit(&self) -> (r: u16)
        ensures
            r == self.spec_limit(),
    ;

    /// The table base address.
    fn base(&self) -> (r: u64)
        ensures
            r == self.spec_base(),
    ;
}

/// The limit-and-base record under which descriptor tables are handed to the
/// table-register load instructions.
#[derive(Debug)]
pub struct DescriptorTablePointer<A: ArchIntel> {
    limit: u16,
    base: u64,
    _mark: core::marker::PhantomData<A>,
}

impl<A: ArchIntel> DescriptorTablePointer<A> {
    /// A record naming no table: zero base and zero limit.
    pub fn empty() -> (r: DescriptorTablePointer<A>)
        ensures
            r.spec_limit() == 0,
            r.spec_base() == 0,
    {
        DescriptorTablePointer { limit: 0, base: 0, _mark: core::marker::PhantomData }
    }
}

impl<A: ArchIntel> TablePointer<A> for DescriptorTablePointer<A> {
    closed spec fn spec_limit(&self) -> u16 {
        self.limit
    }

    closed spec fn spec_base(&self) -> u64 {
        self.base
    }

    fn limit(&self) -> (r: u16) {
        self.limit
    }

    fn base(&self) -> (r: u64) {
        self.base
    }
}

} // verus!
