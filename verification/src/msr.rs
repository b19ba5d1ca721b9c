//! Model-specific registers as value types: each value holds the register
//! number it addresses. The `rdmsr`/`wrmsr` instructions that move data
//! through these registers are privileged hardware work outside this crate;
//! the surrounding program performs them for the register number a value
//! here names.

use vstd::prelude::*;

verus! {

/// The model-specific-register number 0x1b.
pub const IA32_APIC_BASE: u32 = 0x1b;

/// The model-specific-register number 0xc0000080.
pub const IA32_EFER: u32 = 0xc0000080;

/// The model-specific-register number 0xc0000100.
pub const IA32_FS_BASE: u32 = 0xc0000100;

/// The model-specific-register number 0xc0000101.
pub const IA32_GS_BASE: u32 = 0xc0000101;

/// The model-specific-register number 0xc0000102.
pub const IA32_KERNEL_GS_BASE: u32 = 0xc0000102;

/// The model-specific-register number 0x802.
pub const IA32_X2APIC_APICID: u32 = 0x802;

/// The model-specific-register number 0x803.
pub const IA32_X2APIC_VERSION: u32 = 0x803;

/// The model-specific-register number 0x808.
pub const IA32_X2APIC_TPR: u32 = 0x808;

/// The model-specific-register number 0x80a.
pub const IA32_X2APIC_PPR: u32 = 0x80a;

/// The model-specific-register number 0x80b.
pub const IA32_X2APIC_EOI: u32 = 0x80b;

/// The model-specific-register number 0x80d.
pub const IA32_X2APIC_LDR: u32 = 0x80d;

/// The model-specific-register number 0x80f.
pub const IA32_X2APIC_SIVR: u32 = 0x80f;

/// The model-specific-register number 0x810.
pub const IA32_X2APIC_ISR0: u32 = 0x810;

/// The model-specific-register number 0x811.
pub const IA32_X2APIC_ISR1: u32 = 0x811;

/// The model-specific-register number 0x812.
pub const IA32_X2APIC_ISR2: u32 = 0x812;

/// The model-specific-register number 0x813.
pub const IA32_X2APIC_ISR3: u32 = 0x813;

/// The model-specific-register number 0x814.
pub const IA32_X2APIC_ISR4: u32 = 0x814;

/// The model-specific-register number 0x815.
pub const IA32_X2APIC_ISR5: u32 = 0x815;

/// The model-specific-register number 0x816.
pub const IA32_X2APIC_ISR6: u32 = 0x816;

/// The model-specific-register number 0x817.
pub const IA32_X2APIC_ISR7: u32 = 0x817;

/// The model-specific-register number 0x818.
pub const IA32_X2APIC_TMR0: u32 = 0x818;

/// The model-specific-register number 0x819.
pub const IA32_X2APIC_TMR1: u32 = 0x819;

/// The model-specific-register number 0x81a.
pub const IA32_X2APIC_TMR2: u32 = 0x81a;

/// The model-specific-register number 0x81b.
pub const IA32_X2APIC_TMR3: u32 = 0x81b;

/// The model-specific-register number 0x81c.
pub const IA32_X2APIC_TMR4: u32 = 0x81c;

/// The model-specific-register number 0x81d.
pub const IA32_X2APIC_TMR5: u32 = 0x81d;

/// The model-specific-register number 0x81e.
pub const IA32_X2APIC_TMR6: u32 = 0x81e;

/// The model-specific-register number 0x81f.
pub const IA32_X2APIC_TMR7: u32 = 0x81f;

/// The model-specific-register number 0x820.
pub const IA32_X2APIC_IRR0: u32 = 0x820;

/// The model-specific-register number 0x821.
pub const IA32_X2APIC_IRR1: u32 = 0x821;

/// The model-specific-register number 0x822.
pub const IA32_X2APIC_IRR2: u32 = 0x822;

/// The model-specific-register number 0x823.
pub const IA32_X2APIC_IRR3: u32 = 0x823;

/// The model-specific-register number 0x824.
pub const IA32_X2APIC_IRR4: u32 = 0x824;

/// The model-specific-register number 0x825.
pub const IA32_X2APIC_IRR5: u32 = 0x825;

/// The model-specific-register number 0x826.
pub const IA32_X2APIC_IRR6: u32 = 0x826;

/// The model-specific-register number 0x827.
pub const IA32_X2APIC_IRR7: u32 = 0x827;

/// The model-specific-register number 0x828.
pub const IA32_X2APIC_ESR: u32 = 0x828;

/// The model-specific-register number 0x830.
pub const IA32_X2APIC_ICR: u32 = 0x830;

/// The model-specific-register number 0x832.
pub const IA32_X2APIC_LVT_TIMER: u32 = 0x832;

/// The model-specific-register number 0x833.
pub const IA32_X2APIC_LVT_THERMAL: u32 = 0x833;

/// The model-specific-register number 0x834.
pub const IA32_X2APIC_LVT_PMI: u32 = 0x834;

/// The model-specific-register number 0x835.
pub const IA32_X2APIC_LVT_LINT0: u32 = 0x835;

/// The model-specific-register number 0x836.
pub const IA32_X2APIC_LVT_LINT1: u32 = 0x836;

/// The model-specific-register number 0x837.
pub const IA32_X2APIC_LVT_ERROR: u32 = 0x837;

/// The model-specific-register number 0x838.
pub const IA32_X2APIC_INIT_COUNT: u32 = 0x838;

/// The model-specific-register number 0x839.
pub const IA32_X2APIC_CUR_COUNT: u32 = 0x839;

/// The model-specific-register number 0x83e.
pub const IA32_X2APIC_DIV_CONF: u32 = 0x83e;

/// The model-specific-register number 0x83f.
pub const IA32_X2APIC_SELF_IPI: u32 = 0x83f;

/// A model-specific register, addressed by its register number.
#[derive(Clone, Copy, Debug, PartialEq, Eq, Structural)]
pub struct MSR(pub u32);

impl MSR {
    /// Addresses the register with the given number.
    pub fn new(n: u32) -> (r: MSR)
        ensures
            r == MSR(n),
    {
        MSR(n)
    }

    /// The register number this value addresses.
    pub fn number(&self) -> (r: u32)
        ensures
            r == self.0,
    {
        self.0
    }
}

/// The extended-feature-enable register.
#[derive(Clone, Copy, Debug, PartialEq, Eq, Structural)]
pub struct Efer(pub MSR);

impl Efer {
    /// Addresses this register.
    pub fn new() -> (r: Efer)
        ensures
            r == Efer(MSR(IA32_EFER)),
    {
        Efer(MSR::new(IA32_EFER))
    }

    /// The register number this value addresses.
    pub fn msr(&self) -> (r: MSR)
        ensures
            r == self.0,
    {
        self.0
    }
}

/// The FS-segment base register.
#[derive(Clone, Copy, Debug, PartialEq, Eq, Structural)]
pub struct FsBase(pub MSR);

impl FsBase {
    /// Addresses this register.
    pub fn new() -> (r: FsBase)
        ensures
            r == FsBase(MSR(IA32_FS_BASE)),
    {
        FsBase(MSR::new(IA32_FS_BASE))
    }

    /// The register number this value addresses.
    pub fn msr(&self) -> (r: MSR)
        ensures
            r == self.0,
    {
        self.0
    }
}

/// The GS-segment base register.
#[derive(Clone, Copy, Debug, PartialEq, Eq, Structural)]
pub struct GsBase(pub MSR);

impl GsBase {
    /// Addresses this register.
    pub fn new() -> (r: GsBase)
        ensures
            r == GsBase(MSR(IA32_GS_BASE)),
    {
        GsBase(MSR::new(IA32_GS_BASE))
    }

    /// The register number this value addresses.
    pub fn msr(&self) -> (r: MSR)
        ensures
            r == self.0,
    {
        self.0
    }
}

/// The kernel GS-segment base register.
#[derive(Clone, Copy, Debug, PartialEq, Eq, Structural)]
pub struct KernelGsBase(pub MSR);

impl KernelGsBase {
    /// Addresses this register.
    pub fn new() -> (r: KernelGsBase)
        ensures
            r == KernelGsBase(MSR(IA32_KERNEL_GS_BASE)),
    {
        KernelGsBase(MSR::new(IA32_KERNEL_GS_BASE))
    }

    /// The register number this value addresses.
    pub fn msr(&self) -> (r: MSR)
        ensures
            r == self.0,
    {
        self.0
    }
}

/// The error-status register of the local interrupt controller.
#[derive(Clone, Copy, Debug, PartialEq, Eq, Structural)]
pub struct ESR(pub MSR);

impl ESR {
    /// Addresses this register.
    pub fn new() -> (r: ESR)
        ensures
            r == ESR(MSR(IA32_X2APIC_ESR)),
    {
        ESR(MSR::new(IA32_X2APIC_ESR))
    }

    /// The register number this value addresses.
    pub fn msr(&self) -> (r: MSR)
        ensures
            r == self.0,
    {
        self.0
    }
}

/// The task-priority register.
#[derive(Clone, Copy, Debug, PartialEq, Eq, Structural)]
pub struct TPR(pub MSR);

impl TPR {
    /// Addresses this register.
    pub fn new() -> (r: TPR)
        ensures
            r == TPR(MSR(IA32_X2APIC_TPR)),
    {
        TPR(MSR::new(IA32_X2APIC_TPR))
    }

    /// The register number this value addresses.
    pub fn msr(&self) -> (r: MSR)
        ensures
            r == self.0,
    {
        self.0
    }
}

/// The processor-priority register (read-only).
#[derive(Clone, Copy, Debug, PartialEq, Eq, Structural)]
pub struct PPR(pub MSR);

impl PPR {
    /// Addresses this register.
    pub fn new() -> (r: PPR)
        ensures
            r == PPR(MSR(IA32_X2APIC_PPR)),
    {
        PPR(MSR::new(IA32_X2APIC_PPR))
    }

    /// The register number this value addresses.
    pub fn msr(&self) -> (r: MSR)
        ensures
            r == self.0,
    {
        self.0
    }
}

/// One 64-bit window of the 256-bit interrupt-request register.
#[derive(Clone, Copy, Debug, PartialEq, Eq, Structural)]
pub struct IRR0(pub MSR);

impl IRR0 {
    /// Addresses this register.
    pub fn new() -> (r: IRR0)
        ensures
            r == IRR0(MSR(IA32_X2APIC_IRR0)),
    {
        IRR0(MSR::new(IA32_X2APIC_IRR0))
    }

    /// The register number this value addresses.
    pub fn msr(&self) -> (r: MSR)
        ensures
            r == self.0,
    {
        self.0
    }
}

/// One 64-bit window of the 256-bit interrupt-request register.
#[derive(Clone, Copy, Debug, PartialEq, Eq, Structural)]
pub struct IRR1(pub MSR);

impl IRR1 {
    /// Addresses this register.
    pub fn new() -> (r: IRR1)
        ensures
            r == IRR1(MSR(IA32_X2APIC_IRR1)),
    {
        IRR1(MSR::new(IA32_X2APIC_IRR1))
    }

    /// The register number this value addresses.
    pub fn msr(&self) -> (r: MSR)
        ensures
            r == self.0,
    {
        self.0
    }
}

/// One 64-bit window of the 256-bit interrupt-request register.
#[derive(Clone, Copy, Debug, PartialEq, Eq, Structural)]
pub struct IRR2(pub MSR);

impl IRR2 {
    /// Addresses this register.
    pub fn new() -> (r: IRR2)
        ensures
            r == IRR2(MSR(IA32_X2APIC_IRR2)),
    {
        IRR2(MSR::new(IA32_X2APIC_IRR2))
    }

    /// The register number this value addresses.
    pub fn msr(&self) -> (r: MSR)
        ensures
            r == self.0,
    {
        self.0
    }
}

/// One 64-bit window of the 256-bit interrupt-request register.
#[derive(Clone, Copy, Debug, PartialEq, Eq, Structural)]
pub struct IRR3(pub MSR);

impl IRR3 {
    /// Addresses this register.
    pub fn new() -> (r: IRR3)
        ensures
            r == IRR3(MSR(IA32_X2APIC_IRR3)),
    {
        IRR3(MSR::new(IA32_X2APIC_IRR3))
    }

    /// The register number this value addresses.
    pub fn msr(&self) -> (r: MSR)
        ensures
            r == self.0,
    {
        self.0
    }
}

/// One 64-bit window of the 256-bit interrupt-request register.
#[derive(Clone, Copy, Debug, PartialEq, Eq, Structural)]
pub struct IRR4(pub MSR);

impl IRR4 {
    /// Addresses this register.
    pub fn new() -> (r: IRR4)
        ensures
            r == IRR4(MSR(IA32_X2APIC_IRR4)),
    {
        IRR4(MSR::new(IA32_X2APIC_IRR4))
    }

    /// The register number this value addresses.
    pub fn msr(&self) -> (r: MSR)
        ensures
            r == self.0,
    {
        self.0
    }
}

/// One 64-bit window of the 256-bit interrupt-request register.
#[derive(Clone, Copy, Debug, PartialEq, Eq, Structural)]
pub struct IRR5(pub MSR);

impl IRR5 {
    /// Addresses this register.
    pub fn new() -> (r: IRR5)
        ensures
            r == IRR5(MSR(IA32_X2APIC_IRR5)),
    {
        IRR5(MSR::new(IA32_X2APIC_IRR5))
    }

    /// The register number this value addresses.
    pub fn msr(&self) -> (r: MSR)
        ensures
            r == self.0,
    {
        self.0
    }
}

/// One 64-bit window of the 256-bit interrupt-request register.
#[derive(Clone, Copy, Debug, PartialEq, Eq, Structural)]
pub struct IRR6(pub MSR);

impl IRR6 {
    /// Addresses this register.
    pub fn new() -> (r: IRR6)
        ensures
            r == IRR6(MSR(IA32_X2APIC_IRR6)),
    {
        IRR6(MSR::new(IA32_X2APIC_IRR6))
    }

    /// The register number this value addresses.
    pub fn msr(&self) -> (r: MSR)
        ensures
            r == self.0,
    {
        self.0
    }
}

/// One 64-bit window of the 256-bit interrupt-request register.
#[derive(Clone, Copy, Debug, PartialEq, Eq, Structural)]
pub struct IRR7(pub MSR);

impl IRR7 {
    /// Addresses this register.
    pub fn new() -> (r: IRR7)
        ensures
            r == IRR7(MSR(IA32_X2APIC_IRR7)),
    {
        IRR7(MSR::new(IA32_X2APIC_IRR7))
    }

    /// The register number this value addresses.
    pub fn msr(&self) -> (r: MSR)
        ensures
            r == self.0,
    {
        self.0
    }
}

/// One 64-bit window of the 256-bit in-service register.
#[derive(Clone, Copy, Debug, PartialEq, Eq, Structural)]
pub struct ISR0(pub MSR);

impl ISR0 {
    /// Addresses this register.
    pub fn new() -> (r: ISR0)
        ensures
            r == ISR0(MSR(IA32_X2APIC_ISR0)),
    {
        ISR0(MSR::new(IA32_X2APIC_ISR0))
    }

    /// The register number this value addresses.
    pub fn msr(&self) -> (r: MSR)
        ensures
            r == self.0,
    {
        self.0
    }
}

/// One 64-bit window of the 256-bit in-service register.
#[derive(Clone, Copy, Debug, PartialEq, Eq, Structural)]
pub struct ISR1(pub MSR);

impl ISR1 {
    /// Addresses this register.
    pub fn new() -> (r: ISR1)
        ensures
            r == ISR1(MSR(IA32_X2APIC_ISR1)),
    {
        ISR1(MSR::new(IA32_X2APIC_ISR1))
    }

    /// The register number this value addresses.
    pub fn msr(&self) -> (r: MSR)
        ensures
            r == self.0,
    {
        self.0
    }
}

/// One 64-bit window of the 256-bit in-service register.
#[derive(Clone, Copy, Debug, PartialEq, Eq, Structural)]
pub struct ISR2(pub MSR);

impl ISR2 {
    /// Addresses this register.
    pub fn new() -> (r: ISR2)
        ensures
            r == ISR2(MSR(IA32_X2APIC_ISR2)),
    {
        ISR2(MSR::new(IA32_X2APIC_ISR2))
    }

    /// The register number this value addresses.
    pub fn msr(&self) -> (r: MSR)
        ensures
            r == self.0,
    {
        self.0
    }
}

/// One 64-bit window of the 256-bit in-service register.
#[derive(Clone, Copy, Debug, PartialEq, Eq, Structural)]
pub struct ISR3(pub MSR);

impl ISR3 {
    /// Addresses this register.
    pub fn new() -> (r: ISR3)
        ensures
            r == ISR3(MSR(IA32_X2APIC_ISR3)),
    {
        ISR3(MSR::new(IA32_X2APIC_ISR3))
    }

    /// The register number this value addresses.
    pub fn msr(&self) -> (r: MSR)
        ensures
            r == self.0,
    {
        self.0
    }
}

/// One 64-bit window of the 256-bit in-service register.
#[derive(Clone, Copy, Debug, PartialEq, Eq, Structural)]
pub struct ISR4(pub MSR);

impl ISR4 {
    /// Addresses this register.
    pub fn new() -> (r: ISR4)
        ensures
            r == ISR4(MSR(IA32_X2APIC_ISR4)),
    {
        ISR4(MSR::new(IA32_X2APIC_ISR4))
    }

    /// The register number this value addresses.
    pub fn msr(&self) -> (r: MSR)
        ensures
            r == self.0,
    {
        self.0
    }
}

/// One 64-bit window of the 256-bit in-service register.
#[derive(Clone, Copy, Debug, PartialEq, Eq, Structural)]
pub struct ISR5(pub MSR);

impl ISR5 {
    /// Addresses this register.
    pub fn new() -> (r: ISR5)
        ensures
            r == ISR5(MSR(IA32_X2APIC_ISR5)),
    {
        ISR5(MSR::new(IA32_X2APIC_ISR5))
    }

    /// The register number this value addresses.
    pub fn msr(&self) -> (r: MSR)
        ensures
            r == self.0,
    {
        self.0
    }
}

/// One 64-bit window of the 256-bit in-service register.
#[derive(Clone, Copy, Debug, PartialEq, Eq, Structural)]
pub struct ISR6(pub MSR);

impl ISR6 {
    /// Addresses this register.
    pub fn new() -> (r: ISR6)
        ensures
            r == ISR6(MSR(IA32_X2APIC_ISR6)),
    {
        ISR6(MSR::new(IA32_X2APIC_ISR6))
    }

    /// The register number this value addresses.
    pub fn msr(&self) -> (r: MSR)
        ensures
            r == self.0,
    {
        self.0
    }
}

/// One 64-bit window of the 256-bit in-service register.
#[derive(Clone, Copy, Debug, PartialEq, Eq, Structural)]
pub struct ISR7(pub MSR);

impl ISR7 {
    /// Addresses this register.
    pub fn new() -> (r: ISR7)
        ensures
            r == ISR7(MSR(IA32_X2APIC_ISR7)),
    {
        ISR7(MSR::new(IA32_X2APIC_ISR7))
    }

    /// The register number this value addresses.
    pub fn msr(&self) -> (r: MSR)
        ensures
            r == self.0,
    {
        self.0
    }
}

/// One 64-bit window of the 256-bit trigger-mode register.
#[derive(Clone, Copy, Debug, PartialEq, Eq, Structural)]
pub struct TMR0(pub MSR);

impl TMR0 {
    /// Addresses this register.
    pub fn new() -> (r: TMR0)
        ensures
            r == TMR0(MSR(IA32_X2APIC_TMR0)),
    {
        TMR0(MSR::new(IA32_X2APIC_TMR0))
    }

    /// The register number this value addresses.
    pub fn msr(&self) -> (r: MSR)
        ensures
            r == self.0,
    {
        self.0
    }
}

/// One 64-bit window of the 256-bit trigger-mode register.
#[derive(Clone, Copy, Debug, PartialEq, Eq, Structural)]
pub struct TMR1(pub MSR);

impl TMR1 {
    /// Addresses this register.
    pub fn new() -> (r: TMR1)
        ensures
            r == TMR1(MSR(IA32_X2APIC_TMR1)),
    {
        TMR1(MSR::new(IA32_X2APIC_TMR1))
    }

    /// The register number this value addresses.
    pub fn msr(&self) -> (r: MSR)
        ensures
            r == self.0,
    {
        self.0
    }
}

/// One 64-bit window of the 256-bit trigger-mode register.
#[derive(Clone, Copy, Debug, PartialEq, Eq, Structural)]
pub struct TMR2(pub MSR);

impl TMR2 {
    /// Addresses this register.
    pub fn new() -> (r: TMR2)
        ensures
            r == TMR2(MSR(IA32_X2APIC_TMR2)),
    {
        TMR2(MSR::new(IA32_X2APIC_TMR2))
    }

    /// The register number this value addresses.
    pub fn msr(&self) -> (r: MSR)
        ensures
            r == self.0,
    {
        self.0
    }
}

/// One 64-bit window of the 256-bit trigger-mode register.
#[derive(Clone, Copy, Debug, PartialEq, Eq, Structural)]
pub struct TMR3(pub MSR);

impl TMR3 {
    /// Addresses this register.
    pub fn new() -> (r: TMR3)
        ensures
            r == TMR3(MSR(IA32_X2APIC_TMR3)),
    {
        TMR3(MSR::new(IA32_X2APIC_TMR3))
    }

    /// The register number this value addresses.
    pub fn msr(&self) -> (r: MSR)
        ensures
            r == self.0,
    {
        self.0
    }
}

/// One 64-bit window of the 256-bit trigger-mode register.
#[derive(Clone, Copy, Debug, PartialEq, Eq, Structural)]
pub struct TMR4(pub MSR);

impl TMR4 {
    /// Addresses this register.
    pub fn new() -> (r: TMR4)
        ensures
            r == TMR4(MSR(IA32_X2APIC_TMR4)),
    {
        TMR4(MSR::new(IA32_X2APIC_TMR4))
    }

    /// The register number this value addresses.
    pub fn msr(&self) -> (r: MSR)
        ensures
            r == self.0,
    {
        self.0
    }
}

/// One 64-bit window of the 256-bit trigger-mode register.
#[derive(Clone, Copy, Debug, PartialEq, Eq, Structural)]
pub struct TMR5(pub MSR);

impl TMR5 {
    /// Addresses this register.
    pub fn new() -> (r: TMR5)
        ensures
            r == TMR5(MSR(IA32_X2APIC_TMR5)),
    {
        TMR5(MSR::new(IA32_X2APIC_TMR5))
    }

    /// The register number this value addresses.
    pub fn msr(&self) -> (r: MSR)
        ensures
            r == self.0,
    {
        self.0
    }
}

/// One 64-bit window of the 256-bit trigger-mode register.
#[derive(Clone, Copy, Debug, PartialEq, Eq, Structural)]
pub struct TMR6(pub MSR);

impl TMR6 {
    /// Addresses this register.
    pub fn new() -> (r: TMR6)
        ensures
            r == TMR6(MSR(IA32_X2APIC_TMR6)),
    {
        TMR6(MSR::new(IA32_X2APIC_TMR6))
    }

    /// The register number this value addresses.
    pub fn msr(&self) -> (r: MSR)
        ensures
            r == self.0,
    {
        self.0
    }
}

/// One 64-bit window of the 256-bit trigger-mode register.
#[derive(Clone, Copy, Debug, PartialEq, Eq, Structural)]
pub struct TMR7(pub MSR);

impl TMR7 {
    /// Addresses this register.
    pub fn new() -> (r: TMR7)
        ensures
            r == TMR7(MSR(IA32_X2APIC_TMR7)),
    {
        TMR7(MSR::new(IA32_X2APIC_TMR7))
    }

    /// The register number this value addresses.
    pub fn msr(&self) -> (r: MSR)
        ensures
            r == self.0,
    {
        self.0
    }
}

/// The end-of-interrupt register.
#[derive(Clone, Copy, Debug, PartialEq, Eq, Structural)]
pub struct EOI(pub MSR);

impl EOI {
    /// Addresses this register.
    pub fn new() -> (r: EOI)
        ensures
            r == EOI(MSR(IA32_X2APIC_EOI)),
    {
        EOI(MSR::new(IA32_X2APIC_EOI))
    }

    /// The register number this value addresses.
    pub fn msr(&self) -> (r: MSR)
        ensures
            r == self.0,
    {
        self.0
    }
}

/// The spurious-interrupt-vector register.
#[derive(Clone, Copy, Debug, PartialEq, Eq, Structural)]
pub struct SIVR(pub MSR);

impl SIVR {
    /// Addresses this register.
    pub fn new() -> (r: SIVR)
        ensures
            r == SIVR(MSR(IA32_X2APIC_SIVR)),
    {
        SIVR(MSR::new(IA32_X2APIC_SIVR))
    }

    /// The register number this value addresses.
    pub fn msr(&self) -> (r: MSR)
        ensures
            r == self.0,
    {
        self.0
    }
}

/// The logical-destination register.
#[derive(Clone, Copy, Debug, PartialEq, Eq, Structural)]
pub struct LDR(pub MSR);

impl LDR {
    /// Addresses this register.
    pub fn new() -> (r: LDR)
        ensures
            r == LDR(MSR(IA32_X2APIC_LDR)),
    {
        LDR(MSR::new(IA32_X2APIC_LDR))
    }

    /// The register number this value addresses.
    pub fn msr(&self) -> (r: MSR)
        ensures
            r == self.0,
    {
        self.0
    }
}

/// The interrupt-command register.
#[derive(Clone, Copy, Debug, PartialEq, Eq, Structural)]
pub struct ICR(pub MSR);

impl ICR {
    /// Addresses this register.
    pub fn new() -> (r: ICR)
        ensures
            r == ICR(MSR(IA32_X2APIC_ICR)),
    {
        ICR(MSR::new(IA32_X2APIC_ICR))
    }

    /// The register number this value addresses.
    pub fn msr(&self) -> (r: MSR)
        ensures
            r == self.0,
    {
        self.0
    }
}

/// The local-vector-table timer entry.
#[derive(Clone, Copy, Debug, PartialEq, Eq, Structural)]
pub struct LvtTimer(pub MSR);

impl LvtTimer {
    /// Addresses this register.
    pub fn new() -> (r: LvtTimer)
        ensures
            r == LvtTimer(MSR(IA32_X2APIC_LVT_TIMER)),
    {
        LvtTimer(MSR::new(IA32_X2APIC_LVT_TIMER))
    }

    /// The register number this value addresses.
    pub fn msr(&self) -> (r: MSR)
        ensures
            r == self.0,
    {
        self.0
    }
}

/// The local-vector-table thermal-sensor entry.
#[derive(Clone, Copy, Debug, PartialEq, Eq, Structural)]
pub struct LvtThermal(pub MSR);

impl LvtThermal {
    /// Addresses this register.
    pub fn new() -> (r: LvtThermal)
        ensures
            r == LvtThermal(MSR(IA32_X2APIC_LVT_THERMAL)),
    {
        LvtThermal(MSR::new(IA32_X2APIC_LVT_THERMAL))
    }

    /// The register number this value addresses.
    pub fn msr(&self) -> (r: MSR)
        ensures
            r == self.0,
    {
        self.0
    }
}

/// The local-vector-table performance-counter entry.
#[derive(Clone, Copy, Debug, PartialEq, Eq, Structural)]
pub struct LvtPerf(pub MSR);

impl LvtPerf {
    /// Addresses this register.
    pub fn new() -> (r: LvtPerf)
        ensures
            r == LvtPerf(MSR(IA32_X2APIC_LVT_PMI)),
    {
        LvtPerf(MSR::new(IA32_X2APIC_LVT_PMI))
    }

    /// The register number this value addresses.
    pub fn msr(&self) -> (r: MSR)
        ensures
            r == self.0,
    {
        self.0
    }
}

/// The local-vector-table local-interrupt-pin-0 entry.
#[derive(Clone, Copy, Debug, PartialEq, Eq, Structural)]
pub struct LvtLint0(pub MSR);

impl LvtLint0 {
    /// Addresses this register.
    pub fn new() -> (r: LvtLint0)
        ensures
            r == LvtLint0(MSR(IA32_X2APIC_LVT_LINT0)),
    {
        LvtLint0(MSR::new(IA32_X2APIC_LVT_LINT0))
    }

    /// The register number this value addresses.
    pub fn msr(&self) -> (r: MSR)
        ensures
            r == self.0,
    {
        self.0
    }
}

/// The local-vector-table local-interrupt-pin-1 entry.
#[derive(Clone, Copy, Debug, PartialEq, Eq, Structural)]
pub struct LvtLint1(pub MSR);

impl LvtLint1 {
    /// Addresses this register.
    pub fn new() -> (r: LvtLint1)
        ensures
            r == LvtLint1(MSR(IA32_X2APIC_LVT_LINT1)),
    {
        LvtLint1(MSR::new(IA32_X2APIC_LVT_LINT1))
    }

    /// The register number this value addresses.
    pub fn msr(&self) -> (r: MSR)
        ensures
            r == self.0,
    {
        self.0
    }
}

/// The local-vector-table error entry.
#[derive(Clone, Copy, Debug, PartialEq, Eq, Structural)]
pub struct LvtError(pub MSR);

impl LvtError {
    /// Addresses this register.
    pub fn new() -> (r: LvtError)
        ensures
            r == LvtError(MSR(IA32_X2APIC_LVT_ERROR)),
    {
        LvtError(MSR::new(IA32_X2APIC_LVT_ERROR))
    }

    /// The register number this value addresses.
    pub fn msr(&self) -> (r: MSR)
        ensures
            r == self.0,
    {
        self.0
    }
}

/// The timer initial-count register.
#[derive(Clone, Copy, Debug, PartialEq, Eq, Structural)]
pub struct TICR(pub MSR);

impl TICR {
    /// Addresses this register.
    pub fn new() -> (r: TICR)
        ensures
            r == TICR(MSR(IA32_X2APIC_INIT_COUNT)),
    {
        TICR(MSR::new(IA32_X2APIC_INIT_COUNT))
    }

    /// The register number this value addresses.
    pub fn msr(&self) -> (r: MSR)
        ensures
            r == self.0,
    {
        self.0
    }
}

/// The timer current-count register (read-only).
#[derive(Clone, Copy, Debug, PartialEq, Eq, Structural)]
pub struct TCCR(pub MSR);

impl TCCR {
    /// Addresses this register.
    pub fn new() -> (r: TCCR)
        ensures
            r == TCCR(MSR(IA32_X2APIC_CUR_COUNT)),
    {
        TCCR(MSR::new(IA32_X2APIC_CUR_COUNT))
    }

    /// The register number this value addresses.
    pub fn msr(&self) -> (r: MSR)
        ensures
            r == self.0,
    {
        self.0
    }
}

/// The timer divide-configuration register.
#[derive(Clone, Copy, Debug, PartialEq, Eq, Structural)]
pub struct TDCR(pub MSR);

impl TDCR {
    /// Addresses this register.
    pub fn new() -> (r: TDCR)
        ensures
            r == TDCR(MSR(IA32_X2APIC_DIV_CONF)),
    {
        TDCR(MSR::new(IA32_X2APIC_DIV_CONF))
    }

    /// The register number this value addresses.
    pub fn msr(&self) -> (r: MSR)
        ensures
            r == self.0,
    {
        self.0
    }
}

/// The self-interrupt register.
#[derive(Clone, Copy, Debug, PartialEq, Eq, Structural)]
pub struct IPI(pub MSR);

impl IPI {
    /// Addresses this register.
    pub fn new() -> (r: IPI)
        ensures
            r == IPI(MSR(IA32_X2APIC_SELF_IPI)),
    {
        IPI(MSR::new(IA32_X2APIC_SELF_IPI))
    }

    /// The register number this value addresses.
    pub fn msr(&self) -> (r: MSR)
        ensures
            r == self.0,
    {
        self.0
    }
}

} // verus!
