//! Canonical 64-bit virtual addresses and range-checked physical addresses.
//!
//! A virtual address is canonical when bits 48..64 replicate bit 47 (the sign
//! extension of a 48-bit address space). A physical address is valid when
//! bits 52..64 are zero (the 52-bit physical addressing ceiling).

use vstd::prelude::*;

use crate::paging::{PageIndex, PageOffset};

verus! {

/// Bits 47..64 of a raw virtual address, the part that the canonical rule
/// constrains.
pub open spec fn virt_high_bits(a: u64) -> u64 {
    a >> 47
}

/// The canonical rule: bits 47..64 are all zero or all one.
pub open spec fn is_canonical(a: u64) -> bool {
    a >> 47 == 0 || a >> 47 == 0x1FFFF
}

/// Rewrites bits 48..64 of a raw value to copies of bit 47.
pub open spec fn sign_extend_47(a: u64) -> u64 {
    if (a >> 47) & 1 == 1 {
        a | 0xFFFF_0000_0000_0000
    } else {
        a & 0x0000_FFFF_FFFF_FFFF
    }
}

/// Bits 52..64 of a raw physical address, which must be zero.
pub open spec fn phys_high_bits(a: u64) -> u64 {
    a >> 52
}

/// The physical-address rule: bits 52..64 are zero.
pub open spec fn is_valid_phys(a: u64) -> bool {
    a >> 52 == 0
}

/// A power of two, written over the bits so that alignment facts can be
/// settled by the bit-vector solver.
pub open spec fn is_power_of_two(a: u64) -> bool {
    a != 0 && a & ((a - 1) as u64) == 0
}

/// The greatest multiple of `align` that is at most `a` (`align` a power of
/// two).
pub open spec fn align_down_spec(a: u64, align: u64) -> u64 {
    a & !((align - 1) as u64)
}

/// The least multiple of `align` that is at least `a` (`align` a power of
/// two); meaningful only when that multiple fits in 64 bits.
pub open spec fn align_up_spec(a: u64, align: u64) -> u64 {
    if a & ((align - 1) as u64) == 0 {
        a
    } else {
        ((a | ((align - 1) as u64)) + 1) as u64
    }
}

/// A 64-bit value of the power-of-two bit shape is an actual power of two
/// with an exponent below 64.
proof fn lemma_pow2_shape(align: u64)
    requires
        is_power_of_two(align),
    ensures
        exists|n: nat| n < 64 && align == vstd::arithmetic::power2::pow2(n),
    decreases align,
{
    vstd::arithmetic::power2::lemma2_to64();
    if align == 1 {
        assert(1 < 64 && align == vstd::arithmetic::power2::pow2(0));
    } else {
        assert(align != 1 && align != 0 && align & ((align - 1) as u64) == 0 ==> {
            &&& align % 2 == 0
            &&& align / 2 != 0
            &&& (align / 2) & (((align / 2) - 1) as u64) == 0
            &&& align / 2 < align
        }) by (bit_vector);
        lemma_pow2_shape(align / 2);
        let n = choose|n: nat| n < 64 && align / 2 == vstd::arithmetic::power2::pow2(n);
        vstd::arithmetic::power2::lemma_pow2_unfold((n + 1) as nat);
        assert(align == vstd::arithmetic::power2::pow2((n + 1) as nat));
        if n + 1 >= 64 {
            vstd::arithmetic::power2::lemma_pow2_strictly_increases(63, (n + 1) as nat);
        }
    }
}

/// A value is a multiple of a power-of-two alignment exactly when it has no
/// bits below it.
pub proof fn lemma_masked_is_multiple(x: u64, align: u64)
    requires
        is_power_of_two(align),
    ensures
        x & ((align - 1) as u64) == 0 <==> x as int % align as int == 0,
{
    lemma_pow2_shape(align);
    let n = choose|n: nat| n < 64 && align == vstd::arithmetic::power2::pow2(n);
    vstd::bits::lemma_u64_low_bits_mask_is_mod(x, n);
    assert((align - 1) as u64 == vstd::bits::low_bits_mask(n) as u64);
    vstd::arithmetic::power2::lemma_pow2_pos(n);
}

/// Aligns `addr` downwards to the given power-of-two alignment.
pub fn align_down(addr: u64, align: u64) -> (r: u64)
    requires
        is_power_of_two(align),
    ensures
        r == align_down_spec(addr, align),
        r as int % align as int == 0,
        r <= addr,
        addr - r < align,
{
    let r = addr & !(align - 1);
    proof {
        assert((addr & !((align - 1) as u64)) <= addr && addr - (addr & !((align - 1) as u64))
            < align && (addr & !((align - 1) as u64)) & ((align - 1) as u64) == 0) by (bit_vector)
            requires
                align != 0 && align & ((align - 1) as u64) == 0,
        ;
        lemma_masked_is_multiple(r, align);
    }
    r
}

/// Aligns `addr` upwards to the given power-of-two alignment. The rounded
/// value must fit in 64 bits.
pub fn align_up(addr: u64, align: u64) -> (r: u64)
    requires
        is_power_of_two(align),
        addr + align - 1 <= u64::MAX,
    ensures
        r == align_up_spec(addr, align),
        r as int % align as int == 0,
        addr <= r,
        r - addr < align,
{
    let mask = align - 1;
    proof {
        assert({
            let up = align_up_spec(addr, align);
            &&& (addr | ((align - 1) as u64)) < 0xFFFF_FFFF_FFFF_FFFF || addr & ((align - 1)
                as u64) == 0
            &&& up & ((align - 1) as u64) == 0
            &&& addr <= up
            &&& up - addr < align
        }) by (bit_vector)
            requires
                align != 0 && align & ((align - 1) as u64) == 0 && addr + align - 1
                    <= 0xFFFF_FFFF_FFFF_FFFF,
        ;
        lemma_masked_is_multiple(align_up_spec(addr, align), align);
    }
    if addr & mask == 0 {
        addr
    } else {
        (addr | mask) + 1
    }
}

/// A virtual address in IA-32e long mode.
///
/// In long mode only 48 bits take part in linear addressing; bits 48..64 must
/// replicate bit 47. Addresses of that shape are called canonical, and every
/// `VirtAddr` holds one. The address space splits into a low canonical half
/// (high bits all zero), a non-canonical hole, and a high canonical half
/// (high bits all one).
///
/// The low 48 bits decompose into a 12-bit page offset and four 9-bit
/// table indices, one per page-table level:
///
/// ```text
/// 47   39 38           30 29       21 20    12 11      0
/// +------+---------------+-----------+--------+--------+
/// | PML4 | Directory Ptr | Directory | Table  | Offset |
/// +------+---------------+-----------+--------+--------+
/// ```
#[derive(Clone, Copy, Debug, PartialEq, Eq, Structural, PartialOrd, Ord)]
pub struct VirtAddr(pub u64);

impl View for VirtAddr {
    type V = u64;

    open spec fn view(&self) -> u64 {
        self.0
    }
}

/// The failure of building a `VirtAddr` from a raw value whose bits 47..64
/// are not a consistent sign extension; carries those offending bits.
#[derive(Clone, Copy, Debug, PartialEq, Eq, Structural)]
pub struct NoCanonicalAddr(pub u64);

impl View for NoCanonicalAddr {
    type V = u64;

    open spec fn view(&self) -> u64 {
        self.0
    }
}

impl NoCanonicalAddr {
    /// The offending bits 47..64 of the rejected value.
    pub fn high_bits(&self) -> (r: u64)
        ensures
            r == self@,
    {
        self.0
    }
}

impl VirtAddr {
    /// Builds a canonical address by force: bits 48..64 are rewritten to
    /// copies of bit 47, whatever the raw value held there. The low bits are
    /// not validated; meant for values already known canonical-safe.
    pub fn new_unchecked(addr: u64) -> (r: VirtAddr)
        ensures
            r@ == sign_extend_47(addr),
            is_canonical(r@),
    {
        proof {
            assert(is_canonical(sign_extend_47(addr))) by (bit_vector);
        }
        if (addr >> 47) & 1 == 1 {
            VirtAddr(addr | 0xFFFF_0000_0000_0000)
        } else {
            VirtAddr(addr & 0x0000_FFFF_FFFF_FFFF)
        }
    }

    /// Builds a virtual address when bits 47..64 of the raw value form a
    /// consistent sign extension of bit 47 (all zero or all one); otherwise
    /// reports the offending high bits.
    pub fn try_new(addr: u64) -> (r: Result<VirtAddr, NoCanonicalAddr>)
        ensures
            is_canonical(addr) ==> r == Ok::<VirtAddr, NoCanonicalAddr>(VirtAddr(addr)),
            !is_canonical(addr) ==> r == Err::<VirtAddr, NoCanonicalAddr>(
                NoCanonicalAddr(virt_high_bits(addr)),
            ),
    {
        let high: u64 = addr >> 47;
        if high == 0 || high == 0x1FFFF {
            Ok(VirtAddr(addr))
        } else {
            Err(NoCanonicalAddr(high))
        }
    }

    /// Builds a virtual address from a raw value that is already canonical.
    pub fn new(addr: u64) -> (r: VirtAddr)
        requires
            is_canonical(addr),
        ensures
            r@ == addr,
    {
        VirtAddr(addr)
    }

    /// The all-zero address.
    pub fn zero() -> (r: VirtAddr)
        ensures
            r@ == 0,
    {
        VirtAddr(0)
    }

    /// The raw 64-bit value.
    pub fn as_u64(&self) -> (r: u64)
        ensures
            r == self@,
    {
        self.0
    }

    /// The raw value as `usize`.
    pub fn as_usize(&self) -> (r: usize)
        ensures
            r == self@ as usize,
    {
        self.0 as usize
    }

    /// Aligns the address upwards; the rounded value must stay canonical.
    pub fn align_up(self, align: u64) -> (r: VirtAddr)
        requires
            is_power_of_two(align),
            self@ + align - 1 <= u64::MAX,
            is_canonical(align_up_spec(self@, align)),
        ensures
            r@ == align_up_spec(self@, align),
    {
        VirtAddr(align_up(self.0, align))
    }

    /// Aligns the address downwards; a canonical address aligned downwards
    /// by at most 2^47 stays canonical, which the caller states explicitly.
    pub fn align_down(self, align: u64) -> (r: VirtAddr)
        requires
            is_power_of_two(align),
            is_canonical(align_down_spec(self@, align)),
        ensures
            r@ == align_down_spec(self@, align),
    {
        VirtAddr(align_down(self.0, align))
    }

    /// Whether the address is a multiple of the given power-of-two alignment.
    pub fn is_aligned(self, align: u64) -> (r: bool)
        requires
            is_power_of_two(align),
        ensures
            r <==> self@ as int % align as int == 0,
    {
        let a = self.0;
        proof {
            lemma_masked_is_multiple(a, align);
        }
        a & (align - 1) == 0
    }

    /// Adds a byte count; the sum must exist and stay canonical, as the
    /// construction of the result re-validates.
    pub fn add(self, rhs: u64) -> (r: VirtAddr)
        requires
            self@ + rhs <= u64::MAX,
            is_canonical((self@ + rhs) as u64),
        ensures
            r@ == self@ + rhs,
    {
        VirtAddr(self.0 + rhs)
    }

    /// Subtracts a byte count; underflow is a hard failure, so the count must
    /// not exceed the address, and the difference must stay canonical.
    pub fn sub(self, rhs: u64) -> (r: VirtAddr)
        requires
            rhs <= self@,
            is_canonical((self@ - rhs) as u64),
        ensures
            r@ == self@ - rhs,
    {
        VirtAddr(self.0 - rhs)
    }

    /// The distance from `rhs` up to this address.
    pub fn sub_addr(self, rhs: VirtAddr) -> (r: u64)
        requires
            rhs@ <= self@,
        ensures
            r == self@ - rhs@,
    {
        self.0 - rhs.0
    }

    /// The 12-bit offset within a 4 KiB page.
    pub fn page_offset(&self) -> (r: PageOffset)
        ensures
            r@ as u64 == offset_of_addr(self@),
            r@ < 4096,
    {
        let a = self.0;
        proof {
            assert((((a as u16) & 0xFFF) as u64) == a & 0xFFF) by (bit_vector);
        }
        PageOffset::new_truncate(a as u16)
    }

    /// The level-1 (page-table) index, bits 12..21.
    pub fn page1_index(&self) -> (r: PageIndex)
        ensures
            r@ as u64 == index1_of_addr(self@),
            r@ < 512,
    {
        let a = self.0;
        proof {
            assert(((((a >> 12) as u16) & 0x1FF) as u64) == (a >> 12) & 0x1FF) by (bit_vector);
        }
        PageIndex::new_truncate((a >> 12) as u16)
    }

    /// The level-2 (page-directory) index, bits 21..30.
    pub fn page2_index(&self) -> (r: PageIndex)
        ensures
            r@ as u64 == index2_of_addr(self@),
            r@ < 512,
    {
        let a = self.0;
        proof {
            assert(((((a >> 21) as u16) & 0x1FF) as u64) == (a >> 21) & 0x1FF) by (bit_vector);
        }
        PageIndex::new_truncate((a >> 21) as u16)
    }

    /// The level-3 (page-directory-pointer) index, bits 30..39.
    pub fn page3_index(&self) -> (r: PageIndex)
        ensures
            r@ as u64 == index3_of_addr(self@),
            r@ < 512,
    {
        let a = self.0;
        proof {
            assert(((((a >> 30) as u16) & 0x1FF) as u64) == (a >> 30) & 0x1FF) by (bit_vector);
        }
        PageIndex::new_truncate((a >> 30) as u16)
    }

    /// The level-4 (page-map-level-4) index, bits 39..48.
    pub fn page4_index(&self) -> (r: PageIndex)
        ensures
            r@ as u64 == index4_of_addr(self@),
            r@ < 512,
    {
        let a = self.0;
        proof {
            assert(((((a >> 39) as u16) & 0x1FF) as u64) == (a >> 39) & 0x1FF) by (bit_vector);
        }
        PageIndex::new_truncate((a >> 39) as u16)
    }
}

/// The 12-bit in-page offset of a raw virtual address.
pub open spec fn offset_of_addr(a: u64) -> u64 {
    a & 0xFFF
}

/// The level-1 table index of a raw virtual address.
pub open spec fn index1_of_addr(a: u64) -> u64 {
    (a >> 12) & 0x1FF
}

/// The level-2 table index of a raw virtual address.
pub open spec fn index2_of_addr(a: u64) -> u64 {
    (a >> 21) & 0x1FF
}

/// The level-3 table index of a raw virtual address.
pub open spec fn index3_of_addr(a: u64) -> u64 {
    (a >> 30) & 0x1FF
}

/// The level-4 table index of a raw virtual address.
pub open spec fn index4_of_addr(a: u64) -> u64 {
    (a >> 39) & 0x1FF
}

/// Law: the four nine-bit table indices and the twelve-bit offset are
/// non-overlapping windows that together reassemble exactly the low 48 bits
/// of the address.
pub proof fn lemma_virt_addr_decomposition(a: u64)
    by (bit_vector)
    ensures
        offset_of_addr(a) | (index1_of_addr(a) << 12) | (index2_of_addr(a) << 21) | (
        index3_of_addr(a) << 30) | (index4_of_addr(a) << 39) == a & 0x0000_FFFF_FFFF_FFFF,
{
}

/// A physical address on a processor with a 52-bit physical address ceiling.
///
/// Every `PhysAddr` holds a raw value whose bits 52..64 are zero.
#[derive(Clone, Copy, Debug, PartialEq, Eq, Structural, PartialOrd, Ord)]
pub struct PhysAddr(pub u64);

impl View for PhysAddr {
    type V = u64;

    open spec fn view(&self) -> u64 {
        self.0
    }
}

/// The failure of building a `PhysAddr` from a raw value with bits set in
/// 52..64; carries those offending bits.
#[derive(Clone, Copy, Debug, PartialEq, Eq, Structural)]
pub struct NoInvalidPhysAddr(pub u64);

impl View for NoInvalidPhysAddr {
    type V = u64;

    open spec fn view(&self) -> u64 {
        self.0
    }
}

impl NoInvalidPhysAddr {
    /// The offending bits 52..64 of the rejected value.
    pub fn high_bits(&self) -> (r: u64)
        ensures
            r == self@,
    {
        self.0
    }
}

impl PhysAddr {
    /// Builds a physical address from a raw value whose bits 52..64 are zero.
    pub fn new(addr: u64) -> (r: PhysAddr)
        requires
            is_valid_phys(addr),
        ensures
            r@ == addr,
    {
        PhysAddr(addr)
    }

    /// Builds a physical address when bits 52..64 of the raw value are zero;
    /// otherwise reports the offending high bits.
    pub fn try_new(addr: u64) -> (r: Result<PhysAddr, NoInvalidPhysAddr>)
        ensures
            is_valid_phys(addr) ==> r == Ok::<PhysAddr, NoInvalidPhysAddr>(PhysAddr(addr)),
            !is_valid_phys(addr) ==> r == Err::<PhysAddr, NoInvalidPhysAddr>(
                NoInvalidPhysAddr(phys_high_bits(addr)),
            ),
    {
        let high: u64 = addr >> 52;
        if high == 0 {
            Ok(PhysAddr(addr))
        } else {
            Err(NoInvalidPhysAddr(high))
        }
    }

    /// The raw 64-bit value.
    pub fn as_u64(self) -> (r: u64)
        ensures
            r == self@,
    {
        self.0
    }

    /// The raw value as `usize`.
    pub fn as_usize(self) -> (r: usize)
        ensures
            r == self@ as usize,
    {
        self.0 as usize
    }

    /// Whether this is the zero address.
    pub fn is_null(&self) -> (r: bool)
        ensures
            r <==> self@ == 0,
    {
        self.0 == 0
    }

    /// Aligns the address upwards; the rounded value must stay below the
    /// physical ceiling.
    pub fn align_up(self, align: u64) -> (r: PhysAddr)
        requires
            is_power_of_two(align),
            self@ + align - 1 <= u64::MAX,
            is_valid_phys(align_up_spec(self@, align)),
        ensures
            r@ == align_up_spec(self@, align),
    {
        PhysAddr(align_up(self.0, align))
    }

    /// Aligns the address downwards; aligning downwards can only clear bits,
    /// so the result stays below the physical ceiling.
    pub fn align_down(self, align: u64) -> (r: PhysAddr)
        requires
            is_power_of_two(align),
        ensures
            r@ == align_down_spec(self@, align),
    {
        PhysAddr(align_down(self.0, align))
    }

    /// Whether the address is a multiple of the given power-of-two alignment.
    pub fn is_aligned(self, align: u64) -> (r: bool)
        requires
            is_power_of_two(align),
        ensures
            r <==> self@ as int % align as int == 0,
    {
        let a = self.0;
        proof {
            lemma_masked_is_multiple(a, align);
        }
        a & (align - 1) == 0
    }

    /// Adds a byte count; the sum must exist and stay below the physical
    /// ceiling, as the construction of the result re-validates.
    pub fn add(self, rhs: u64) -> (r: PhysAddr)
        requires
            self@ + rhs <= u64::MAX,
            is_valid_phys((self@ + rhs) as u64),
        ensures
            r@ == self@ + rhs,
    {
        PhysAddr(self.0 + rhs)
    }

    /// Subtracts a byte count; underflow is a hard failure, so the count must
    /// not exceed the address.
    pub fn sub(self, rhs: u64) -> (r: PhysAddr)
        requires
            rhs <= self@,
        ensures
            r@ == self@ - rhs,
    {
        PhysAddr(self.0 - rhs)
    }

    /// The distance from `rhs` up to this address.
    pub fn sub_addr(self, rhs: PhysAddr) -> (r: u64)
        requires
            rhs@ <= self@,
        ensures
            r == self@ - rhs@,
    {
        self.0 - rhs.0
    }
}

} // verus!
