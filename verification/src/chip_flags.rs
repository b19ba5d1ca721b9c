//! The flag sets of the control registers, the extended-feature-enable
//! register and the local interrupt controller's error register, as plain
//! bit-set value types. Reading and writing the registers themselves is
//! hardware work that lives outside this crate; these types carry and test
//! the values.

use vstd::prelude::*;

verus! {

/// The flag bits of the CR0 control register.
#[derive(Clone, Copy, Debug, PartialEq, Eq, Structural)]
pub struct CR0Flags {
    pub bits: u64,
}

impl CR0Flags {
    /// The empty flag set.
    pub fn empty() -> (r: CR0Flags)
        ensures
            r.bits == 0,
    {
        CR0Flags { bits: 0 }
    }

    /// The set of every defined flag.
    pub fn all() -> (r: CR0Flags)
        ensures
            r.bits == 0xe005002f,
    {
        CR0Flags { bits: 0xe005002f }
    }

    /// Keeps the defined flag bits of a raw value and drops the rest.
    pub fn from_bits_truncate(v: u64) -> (r: CR0Flags)
        ensures
            r.bits == v & 0xe005002f,
    {
        CR0Flags { bits: v & 0xe005002f }
    }

    /// The raw bits of the flag set.
    pub fn bits(self) -> (r: u64)
        ensures
            r == self.bits,
    {
        self.bits
    }

    /// Whether every flag of `other` is set in `self`.
    pub fn contains(self, other: CR0Flags) -> (r: bool)
        ensures
            r <==> self.bits & other.bits == other.bits,
    {
        self.bits & other.bits == other.bits
    }

    /// The flags set in either operand.
    pub fn union(self, other: CR0Flags) -> (r: CR0Flags)
        ensures
            r.bits == self.bits | other.bits,
    {
        CR0Flags { bits: self.bits | other.bits }
    }

    /// The flags of `self` with those of `other` removed.
    pub fn remove(self, other: CR0Flags) -> (r: CR0Flags)
        ensures
            r.bits == self.bits & !other.bits,
    {
        CR0Flags { bits: self.bits & !other.bits }
    }

    /// The flag at bit value 0x1.
    pub fn protected_mode_enable() -> (r: CR0Flags)
        ensures
            r.bits == 0x1,
    {
        CR0Flags { bits: 0x1 }
    }

    /// The flag at bit value 0x2.
    pub fn monitor_coprocessor() -> (r: CR0Flags)
        ensures
            r.bits == 0x2,
    {
        CR0Flags { bits: 0x2 }
    }

    /// The flag at bit value 0x4.
    pub fn emulate_coprocessor() -> (r: CR0Flags)
        ensures
            r.bits == 0x4,
    {
        CR0Flags { bits: 0x4 }
    }

    /// The flag at bit value 0x8.
    pub fn task_switched() -> (r: CR0Flags)
        ensures
            r.bits == 0x8,
    {
        CR0Flags { bits: 0x8 }
    }

    /// The flag at bit value 0x20.
    pub fn numeric_error() -> (r: CR0Flags)
        ensures
            r.bits == 0x20,
    {
        CR0Flags { bits: 0x20 }
    }

    /// The flag at bit value 0x10000.
    pub fn write_protect() -> (r: CR0Flags)
        ensures
            r.bits == 0x10000,
    {
        CR0Flags { bits: 0x10000 }
    }

    /// The flag at bit value 0x40000.
    pub fn alignment_mask() -> (r: CR0Flags)
        ensures
            r.bits == 0x40000,
    {
        CR0Flags { bits: 0x40000 }
    }

    /// The flag at bit value 0x20000000.
    pub fn not_write_through() -> (r: CR0Flags)
        ensures
            r.bits == 0x20000000,
    {
        CR0Flags { bits: 0x20000000 }
    }

    /// The flag at bit value 0x40000000.
    pub fn cache_disable() -> (r: CR0Flags)
        ensures
            r.bits == 0x40000000,
    {
        CR0Flags { bits: 0x40000000 }
    }

    /// The flag at bit value 0x80000000.
    pub fn paging() -> (r: CR0Flags)
        ensures
            r.bits == 0x80000000,
    {
        CR0Flags { bits: 0x80000000 }
    }

}

/// The flag bits carried alongside a CR2 fault address.
#[derive(Clone, Copy, Debug, PartialEq, Eq, Structural)]
pub struct CR2Flags {
    pub bits: u64,
}

impl CR2Flags {
    /// The empty flag set.
    pub fn empty() -> (r: CR2Flags)
        ensures
            r.bits == 0,
    {
        CR2Flags { bits: 0 }
    }

    /// The set of every defined flag.
    pub fn all() -> (r: CR2Flags)
        ensures
            r.bits == 0x1,
    {
        CR2Flags { bits: 0x1 }
    }

    /// Keeps the defined flag bits of a raw value and drops the rest.
    pub fn from_bits_truncate(v: u64) -> (r: CR2Flags)
        ensures
            r.bits == v & 0x1,
    {
        CR2Flags { bits: v & 0x1 }
    }

    /// The raw bits of the flag set.
    pub fn bits(self) -> (r: u64)
        ensures
            r == self.bits,
    {
        self.bits
    }

    /// Whether every flag of `other` is set in `self`.
    pub fn contains(self, other: CR2Flags) -> (r: bool)
        ensures
            r <==> self.bits & other.bits == other.bits,
    {
        self.bits & other.bits == other.bits
    }

    /// The flags set in either operand.
    pub fn union(self, other: CR2Flags) -> (r: CR2Flags)
        ensures
            r.bits == self.bits | other.bits,
    {
        CR2Flags { bits: self.bits | other.bits }
    }

    /// The flags of `self` with those of `other` removed.
    pub fn remove(self, other: CR2Flags) -> (r: CR2Flags)
        ensures
            r.bits == self.bits & !other.bits,
    {
        CR2Flags { bits: self.bits & !other.bits }
    }

    /// The flag at bit value 0x1.
    pub fn page_level_writethrough() -> (r: CR2Flags)
        ensures
            r.bits == 0x1,
    {
        CR2Flags { bits: 0x1 }
    }

}

/// The cache-policy flag bits of the CR3 register.
#[derive(Clone, Copy, Debug, PartialEq, Eq, Structural)]
pub struct CR3Flags {
    pub bits: u64,
}

impl CR3Flags {
    /// The empty flag set.
    pub fn empty() -> (r: CR3Flags)
        ensures
            r.bits == 0,
    {
        CR3Flags { bits: 0 }
    }

    /// The set of every defined flag.
    pub fn all() -> (r: CR3Flags)
        ensures
            r.bits == 0x18,
    {
        CR3Flags { bits: 0x18 }
    }

    /// Keeps the defined flag bits of a raw value and drops the rest.
    pub fn from_bits_truncate(v: u64) -> (r: CR3Flags)
        ensures
            r.bits == v & 0x18,
    {
        CR3Flags { bits: v & 0x18 }
    }

    /// The raw bits of the flag set.
    pub fn bits(self) -> (r: u64)
        ensures
            r == self.bits,
    {
        self.bits
    }

    /// Whether every flag of `other` is set in `self`.
    pub fn contains(self, other: CR3Flags) -> (r: bool)
        ensures
            r <==> self.bits & other.bits == other.bits,
    {
        self.bits & other.bits == other.bits
    }

    /// The flags set in either operand.
    pub fn union(self, other: CR3Flags) -> (r: CR3Flags)
        ensures
            r.bits == self.bits | other.bits,
    {
        CR3Flags { bits: self.bits | other.bits }
    }

    /// The flags of `self` with those of `other` removed.
    pub fn remove(self, other: CR3Flags) -> (r: CR3Flags)
        ensures
            r.bits == self.bits & !other.bits,
    {
        CR3Flags { bits: self.bits & !other.bits }
    }

    /// The flag at bit value 0x8.
    pub fn page_level_writethrough() -> (r: CR3Flags)
        ensures
            r.bits == 0x8,
    {
        CR3Flags { bits: 0x8 }
    }

    /// The flag at bit value 0x10.
    pub fn page_level_cache_disable() -> (r: CR3Flags)
        ensures
            r.bits == 0x10,
    {
        CR3Flags { bits: 0x10 }
    }

}

/// The feature flag bits of the CR4 control register.
#[derive(Clone, Copy, Debug, PartialEq, Eq, Structural)]
pub struct CR4Flags {
    pub bits: u64,
}

impl CR4Flags {
    /// The empty flag set.
    pub fn empty() -> (r: CR4Flags)
        ensures
            r.bits == 0,
    {
        CR4Flags { bits: 0 }
    }

    /// The set of every defined flag.
    pub fn all() -> (r: CR4Flags)
        ensures
            r.bits == 0x777fff,
    {
        CR4Flags { bits: 0x777fff }
    }

    /// Keeps the defined flag bits of a raw value and drops the rest.
    pub fn from_bits_truncate(v: u64) -> (r: CR4Flags)
        ensures
            r.bits == v & 0x777fff,
    {
        CR4Flags { bits: v & 0x777fff }
    }

    /// The raw bits of the flag set.
    pub fn bits(self) -> (r: u64)
        ensures
            r == self.bits,
    {
        self.bits
    }

    /// Whether every flag of `other` is set in `self`.
    pub fn contains(self, other: CR4Flags) -> (r: bool)
        ensures
            r <==> self.bits & other.bits == other.bits,
    {
        self.bits & other.bits == other.bits
    }

    /// The flags set in either operand.
    pub fn union(self, other: CR4Flags) -> (r: CR4Flags)
        ensures
            r.bits == self.bits | other.bits,
    {
        CR4Flags { bits: self.bits | other.bits }
    }

    /// The flags of `self` with those of `other` removed.
    pub fn remove(self, other: CR4Flags) -> (r: CR4Flags)
        ensures
            r.bits == self.bits & !other.bits,
    {
        CR4Flags { bits: self.bits & !other.bits }
    }

    /// The flag at bit value 0x1.
    pub fn virtual_8086_mode_extensions() -> (r: CR4Flags)
        ensures
            r.bits == 0x1,
    {
        CR4Flags { bits: 0x1 }
    }

    /// The flag at bit value 0x2.
    pub fn protected_mode_virtual_interrupts() -> (r: CR4Flags)
        ensures
            r.bits == 0x2,
    {
        CR4Flags { bits: 0x2 }
    }

    /// The flag at bit value 0x4.
    pub fn timestamp_disable() -> (r: CR4Flags)
        ensures
            r.bits == 0x4,
    {
        CR4Flags { bits: 0x4 }
    }

    /// The flag at bit value 0x8.
    pub fn debugging_extensions() -> (r: CR4Flags)
        ensures
            r.bits == 0x8,
    {
        CR4Flags { bits: 0x8 }
    }

    /// The flag at bit value 0x10.
    pub fn page_size_extension() -> (r: CR4Flags)
        ensures
            r.bits == 0x10,
    {
        CR4Flags { bits: 0x10 }
    }

    /// The flag at bit value 0x20.
    pub fn physical_address_extension() -> (r: CR4Flags)
        ensures
            r.bits == 0x20,
    {
        CR4Flags { bits: 0x20 }
    }

    /// The flag at bit value 0x40.
    pub fn machine_check_exception() -> (r: CR4Flags)
        ensures
            r.bits == 0x40,
    {
        CR4Flags { bits: 0x40 }
    }

    /// The flag at bit value 0x80.
    pub fn page_global() -> (r: CR4Flags)
        ensures
            r.bits == 0x80,
    {
        CR4Flags { bits: 0x80 }
    }

    /// The flag at bit value 0x100.
    pub fn performance_monitor_counter() -> (r: CR4Flags)
        ensures
            r.bits == 0x100,
    {
        CR4Flags { bits: 0x100 }
    }

    /// The flag at bit value 0x200.
    pub fn osfxsr() -> (r: CR4Flags)
        ensures
            r.bits == 0x200,
    {
        CR4Flags { bits: 0x200 }
    }

    /// The flag at bit value 0x400.
    pub fn osxmmexcpt_enable() -> (r: CR4Flags)
        ensures
            r.bits == 0x400,
    {
        CR4Flags { bits: 0x400 }
    }

    /// The flag at bit value 0x800.
    pub fn user_mode_instruction_prevention() -> (r: CR4Flags)
        ensures
            r.bits == 0x800,
    {
        CR4Flags { bits: 0x800 }
    }

    /// The flag at bit value 0x1000.
    pub fn l5_paging() -> (r: CR4Flags)
        ensures
            r.bits == 0x1000,
    {
        CR4Flags { bits: 0x1000 }
    }

    /// The flag at bit value 0x2000.
    pub fn virtual_machine_extensions() -> (r: CR4Flags)
        ensures
            r.bits == 0x2000,
    {
        CR4Flags { bits: 0x2000 }
    }

    /// The flag at bit value 0x4000.
    pub fn safer_mode_extensions() -> (r: CR4Flags)
        ensures
            r.bits == 0x4000,
    {
        CR4Flags { bits: 0x4000 }
    }

    /// The flag at bit value 0x10000.
    pub fn fsgsbase() -> (r: CR4Flags)
        ensures
            r.bits == 0x10000,
    {
        CR4Flags { bits: 0x10000 }
    }

    /// The flag at bit value 0x20000.
    pub fn pcid() -> (r: CR4Flags)
        ensures
            r.bits == 0x20000,
    {
        CR4Flags { bits: 0x20000 }
    }

    /// The flag at bit value 0x40000.
    pub fn osxsave() -> (r: CR4Flags)
        ensures
            r.bits == 0x40000,
    {
        CR4Flags { bits: 0x40000 }
    }

    /// The flag at bit value 0x100000.
    pub fn supervisor_mode_execution_protection() -> (r: CR4Flags)
        ensures
            r.bits == 0x100000,
    {
        CR4Flags { bits: 0x100000 }
    }

    /// The flag at bit value 0x200000.
    pub fn supervisor_mode_access_prevention() -> (r: CR4Flags)
        ensures
            r.bits == 0x200000,
    {
        CR4Flags { bits: 0x200000 }
    }

    /// The flag at bit value 0x400000.
    pub fn protection_key() -> (r: CR4Flags)
        ensures
            r.bits == 0x400000,
    {
        CR4Flags { bits: 0x400000 }
    }

}

/// The flag bits of the extended-feature-enable register.
#[derive(Clone, Copy, Debug, PartialEq, Eq, Structural)]
pub struct EferFlags {
    pub bits: u64,
}

impl EferFlags {
    /// The empty flag set.
    pub fn empty() -> (r: EferFlags)
        ensures
            r.bits == 0,
    {
        EferFlags { bits: 0 }
    }

    /// The set of every defined flag.
    pub fn all() -> (r: EferFlags)
        ensures
            r.bits == 0xfd01,
    {
        EferFlags { bits: 0xfd01 }
    }

    /// Keeps the defined flag bits of a raw value and drops the rest.
    pub fn from_bits_truncate(v: u64) -> (r: EferFlags)
        ensures
            r.bits == v & 0xfd01,
    {
        EferFlags { bits: v & 0xfd01 }
    }

    /// The raw bits of the flag set.
    pub fn bits(self) -> (r: u64)
        ensures
            r == self.bits,
    {
        self.bits
    }

    /// Whether every flag of `other` is set in `self`.
    pub fn contains(self, other: EferFlags) -> (r: bool)
        ensures
            r <==> self.bits & other.bits == other.bits,
    {
        self.bits & other.bits == other.bits
    }

    /// The flags set in either operand.
    pub fn union(self, other: EferFlags) -> (r: EferFlags)
        ensures
            r.bits == self.bits | other.bits,
    {
        EferFlags { bits: self.bits | other.bits }
    }

    /// The flags of `self` with those of `other` removed.
    pub fn remove(self, other: EferFlags) -> (r: EferFlags)
        ensures
            r.bits == self.bits & !other.bits,
    {
        EferFlags { bits: self.bits & !other.bits }
    }

    /// The flag at bit value 0x1.
    pub fn system_call_extensions() -> (r: EferFlags)
        ensures
            r.bits == 0x1,
    {
        EferFlags { bits: 0x1 }
    }

    /// The flag at bit value 0x100.
    pub fn long_mode_enable() -> (r: EferFlags)
        ensures
            r.bits == 0x100,
    {
        EferFlags { bits: 0x100 }
    }

    /// The flag at bit value 0x400.
    pub fn long_mode_active() -> (r: EferFlags)
        ensures
            r.bits == 0x400,
    {
        EferFlags { bits: 0x400 }
    }

    /// The flag at bit value 0x800.
    pub fn no_execute_enable() -> (r: EferFlags)
        ensures
            r.bits == 0x800,
    {
        EferFlags { bits: 0x800 }
    }

    /// The flag at bit value 0x1000.
    pub fn secure_virtual_machine_enable() -> (r: EferFlags)
        ensures
            r.bits == 0x1000,
    {
        EferFlags { bits: 0x1000 }
    }

    /// The flag at bit value 0x2000.
    pub fn long_mode_segment_limit_enable() -> (r: EferFlags)
        ensures
            r.bits == 0x2000,
    {
        EferFlags { bits: 0x2000 }
    }

    /// The flag at bit value 0x4000.
    pub fn fast_fxsave_fxrstor() -> (r: EferFlags)
        ensures
            r.bits == 0x4000,
    {
        EferFlags { bits: 0x4000 }
    }

    /// The flag at bit value 0x8000.
    pub fn translation_cache_extension() -> (r: EferFlags)
        ensures
            r.bits == 0x8000,
    {
        EferFlags { bits: 0x8000 }
    }

}

/// The error bits of the local interrupt controller's error-status register.
#[derive(Clone, Copy, Debug, PartialEq, Eq, Structural)]
pub struct LocalAPICFlags {
    pub bits: u8,
}

impl LocalAPICFlags {
    /// The empty flag set.
    pub fn empty() -> (r: LocalAPICFlags)
        ensures
            r.bits == 0,
    {
        LocalAPICFlags { bits: 0 }
    }

    /// The set of every defined flag.
    pub fn all() -> (r: LocalAPICFlags)
        ensures
            r.bits == 0xff,
    {
        LocalAPICFlags { bits: 0xff }
    }

    /// Keeps the defined flag bits of a raw value and drops the rest.
    pub fn from_bits_truncate(v: u8) -> (r: LocalAPICFlags)
        ensures
            r.bits == v & 0xff,
    {
        LocalAPICFlags { bits: v & 0xff }
    }

    /// The raw bits of the flag set.
    pub fn bits(self) -> (r: u8)
        ensures
            r == self.bits,
    {
        self.bits
    }

    /// Whether every flag of `other` is set in `self`.
    pub fn contains(self, other: LocalAPICFlags) -> (r: bool)
        ensures
            r <==> self.bits & other.bits == other.bits,
    {
        self.bits & other.bits == other.bits
    }

    /// The flags set in either operand.
    pub fn union(self, other: LocalAPICFlags) -> (r: LocalAPICFlags)
        ensures
            r.bits == self.bits | other.bits,
    {
        LocalAPICFlags { bits: self.bits | other.bits }
    }

    /// The flags of `self` with those of `other` removed.
    pub fn remove(self, other: LocalAPICFlags) -> (r: LocalAPICFlags)
        ensures
            r.bits == self.bits & !other.bits,
    {
        LocalAPICFlags { bits: self.bits & !other.bits }
    }

    /// The flag at bit value 0x1.
    pub fn send_checksum_error() -> (r: LocalAPICFlags)
        ensures
            r.bits == 0x1,
    {
        LocalAPICFlags { bits: 0x1 }
    }

    /// The flag at bit value 0x2.
    pub fn recv_checksum_error() -> (r: LocalAPICFlags)
        ensures
            r.bits == 0x2,
    {
        LocalAPICFlags { bits: 0x2 }
    }

    /// The flag at bit value 0x4.
    pub fn send_interrupt_msg_accpt_error() -> (r: LocalAPICFlags)
        ensures
            r.bits == 0x4,
    {
        LocalAPICFlags { bits: 0x4 }
    }

    /// The flag at bit value 0x8.
    pub fn recv_interrupt_msg_accpt_error() -> (r: LocalAPICFlags)
        ensures
            r.bits == 0x8,
    {
        LocalAPICFlags { bits: 0x8 }
    }

    /// The flag at bit value 0x10.
    pub fn ipi_cannot_oriented_correctly() -> (r: LocalAPICFlags)
        ensures
            r.bits == 0x10,
    {
        LocalAPICFlags { bits: 0x10 }
    }

    /// The flag at bit value 0x20.
    pub fn send_interrupt_vecotr_invalid() -> (r: LocalAPICFlags)
        ensures
            r.bits == 0x20,
    {
        LocalAPICFlags { bits: 0x20 }
    }

    /// The flag at bit value 0x40.
    pub fn recv_interrupt_vecotr_invalid() -> (r: LocalAPICFlags)
        ensures
            r.bits == 0x40,
    {
        LocalAPICFlags { bits: 0x40 }
    }

    /// The flag at bit value 0x80.
    pub fn register_address_invalid() -> (r: LocalAPICFlags)
        ensures
            r.bits == 0x80,
    {
        LocalAPICFlags { bits: 0x80 }
    }

}

} // verus!
