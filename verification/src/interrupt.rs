//! The local-interrupt-controller vocabulary: the configuration builder for
//! bringing a local controller up, the set of its registers, and the closed
//! enumerations its fields draw from. Reading and writing the registers is
//! privileged hardware work outside this crate.

use vstd::prelude::*;

use crate::msr::{
    EOI, ESR, ICR, IPI, IRR0, IRR1, IRR2, IRR3, IRR4, IRR5, IRR6, IRR7, ISR0, ISR1, ISR2, ISR3,
    ISR4, ISR5, ISR6, ISR7, LDR, LvtError, LvtLint0, LvtLint1, LvtPerf, LvtThermal, LvtTimer, MSR,
    PPR, SIVR, TCCR, TDCR, TICR, TMR0, TMR1, TMR2, TMR3, TMR4, TMR5, TMR6, TMR7, TPR,
    IA32_APIC_BASE, IA32_X2APIC_APICID, IA32_X2APIC_CUR_COUNT, IA32_X2APIC_DIV_CONF,
    IA32_X2APIC_EOI, IA32_X2APIC_ESR, IA32_X2APIC_ICR, IA32_X2APIC_INIT_COUNT, IA32_X2APIC_IRR0,
    IA32_X2APIC_IRR1, IA32_X2APIC_IRR2, IA32_X2APIC_IRR3, IA32_X2APIC_IRR4, IA32_X2APIC_IRR5,
    IA32_X2APIC_IRR6, IA32_X2APIC_IRR7, IA32_X2APIC_ISR0, IA32_X2APIC_ISR1, IA32_X2APIC_ISR2,
    IA32_X2APIC_ISR3, IA32_X2APIC_ISR4, IA32_X2APIC_ISR5, IA32_X2APIC_ISR6, IA32_X2APIC_ISR7,
    IA32_X2APIC_LDR, IA32_X2APIC_LVT_ERROR, IA32_X2APIC_LVT_LINT0, IA32_X2APIC_LVT_LINT1,
    IA32_X2APIC_LVT_PMI, IA32_X2APIC_LVT_THERMAL, IA32_X2APIC_LVT_TIMER, IA32_X2APIC_PPR,
    IA32_X2APIC_SELF_IPI, IA32_X2APIC_SIVR, IA32_X2APIC_TMR0, IA32_X2APIC_TMR1, IA32_X2APIC_TMR2,
    IA32_X2APIC_TMR3, IA32_X2APIC_TMR4, IA32_X2APIC_TMR5, IA32_X2APIC_TMR6, IA32_X2APIC_TMR7,
    IA32_X2APIC_TPR, IA32_X2APIC_VERSION,
};

verus! {

/// The firing modes of the local timer.
#[derive(Debug, Copy, Clone, PartialEq, Eq, Structural)]
pub enum TimerMode {
    /// The timer fires once.
    OneShot,
    /// The timer fires periodically.
    Periodic,
    /// The timer fires at an absolute time-stamp-counter deadline.
    TscDeadline,
}

impl TimerMode {
    /// The architectural encoding of the mode.
    pub open spec fn spec_bits(self) -> u64 {
        match self {
            TimerMode::OneShot => 0,
            TimerMode::Periodic => 1,
            TimerMode::TscDeadline => 2,
        }
    }

    /// The architectural encoding of the mode.
    pub fn as_u64(self) -> (r: u64)
        ensures
            r == self.spec_bits(),
    {
        match self {
            TimerMode::OneShot => 0,
            TimerMode::Periodic => 1,
            TimerMode::TscDeadline => 2,
        }
    }
}

/// The divide configurations of the local timer.
#[derive(Debug, Copy, Clone, PartialEq, Eq, Structural)]
pub enum TimerDivide {
    /// Divide by 2.
    Div2,
    /// Divide by 4.
    Div4,
    /// Divide by 8.
    Div8,
    /// Divide by 16.
    Div16,
    /// Divide by 32.
    Div32,
    /// Divide by 64.
    Div64,
    /// Divide by 128.
    Div128,
    /// Divide by 256.
    Div256,
}

impl TimerDivide {
    /// The architectural encoding of the divide configuration.
    pub open spec fn spec_bits(self) -> u64 {
        match self {
            TimerDivide::Div2 => 0x0,
            TimerDivide::Div4 => 0x1,
            TimerDivide::Div8 => 0x2,
            TimerDivide::Div16 => 0x3,
            TimerDivide::Div32 => 0x8,
            TimerDivide::Div64 => 0x9,
            TimerDivide::Div128 => 0xA,
            TimerDivide::Div256 => 0xB,
        }
    }

    /// The architectural encoding of the divide configuration.
    pub fn as_u64(self) -> (r: u64)
        ensures
            r == self.spec_bits(),
    {
        match self {
            TimerDivide::Div2 => 0x0,
            TimerDivide::Div4 => 0x1,
            TimerDivide::Div8 => 0x2,
            TimerDivide::Div16 => 0x3,
            TimerDivide::Div32 => 0x8,
            TimerDivide::Div64 => 0x9,
            TimerDivide::Div128 => 0xA,
            TimerDivide::Div256 => 0xB,
        }
    }
}

/// The destination modes of an inter-processor interrupt.
#[derive(Debug, Clone, Copy, PartialEq, Eq, Structural)]
pub enum IpiDestMode {
    /// Physical destination mode.
    Physical,
    /// Logical destination mode.
    Logical,
}

impl IpiDestMode {
    /// The architectural encoding of the destination mode.
    pub open spec fn spec_bits(self) -> u64 {
        match self {
            IpiDestMode::Physical => 0,
            IpiDestMode::Logical => 1,
        }
    }

    /// The architectural encoding of the destination mode.
    pub fn as_u64(self) -> (r: u64)
        ensures
            r == self.spec_bits(),
    {
        match self {
            IpiDestMode::Physical => 0,
            IpiDestMode::Logical => 1,
        }
    }
}

/// The delivery modes of an inter-processor interrupt.
#[derive(Debug, Clone, Copy, PartialEq, Eq, Structural)]
pub enum IpiDeliveryMode {
    /// Delivers to the processors named in the vector field.
    Fixed,
    /// As fixed, but to the processor with the lowest priority.
    LowestPriority,
    /// Delivers a system-management interrupt.
    SystemManagement,
    /// Delivers a non-maskable interrupt.
    NonMaskable,
    /// Delivers an initialization request.
    Init,
    /// Delivers a start-up request.
    StartUp,
}

impl IpiDeliveryMode {
    /// The architectural encoding of the delivery mode.
    pub open spec fn spec_bits(self) -> u64 {
        match self {
            IpiDeliveryMode::Fixed => 0x0,
            IpiDeliveryMode::LowestPriority => 0x1,
            IpiDeliveryMode::SystemManagement => 0x2,
            IpiDeliveryMode::NonMaskable => 0x4,
            IpiDeliveryMode::Init => 0x5,
            IpiDeliveryMode::StartUp => 0x6,
        }
    }

    /// The architectural encoding of the delivery mode.
    pub fn as_u64(self) -> (r: u64)
        ensures
            r == self.spec_bits(),
    {
        match self {
            IpiDeliveryMode::Fixed => 0x0,
            IpiDeliveryMode::LowestPriority => 0x1,
            IpiDeliveryMode::SystemManagement => 0x2,
            IpiDeliveryMode::NonMaskable => 0x4,
            IpiDeliveryMode::Init => 0x5,
            IpiDeliveryMode::StartUp => 0x6,
        }
    }
}

/// The all-processor shorthands for an inter-processor interrupt.
#[derive(Debug, Clone, Copy, PartialEq, Eq, Structural)]
pub enum IpiAllShorthand {
    /// Every processor, this one included.
    AllIncludingSelf,
    /// Every processor except this one.
    AllExcludingSelf,
}

impl IpiAllShorthand {
    /// The architectural encoding of the shorthand.
    pub open spec fn spec_bits(self) -> u64 {
        match self {
            IpiAllShorthand::AllIncludingSelf => 0x2,
            IpiAllShorthand::AllExcludingSelf => 0x3,
        }
    }

    /// The architectural encoding of the shorthand.
    pub fn as_u64(self) -> (r: u64)
        ensures
            r == self.spec_bits(),
    {
        match self {
            IpiAllShorthand::AllIncludingSelf => 0x2,
            IpiAllShorthand::AllExcludingSelf => 0x3,
        }
    }
}

/// The configuration a local interrupt controller is brought up with. Fields
/// left empty fall back to the controller's defaults, except those that
/// `build` names as required.
#[derive(Copy, Clone, Debug, PartialEq, Eq, Structural)]
pub struct ApicInfo {
    /// The interrupt index of timer interrupts.
    pub timer_vector: Option<usize>,
    /// The interrupt index for internal controller errors.
    pub error_vector: Option<usize>,
    /// The interrupt index for spurious interrupts.
    pub spurious_vector: Option<usize>,
    /// The timer mode.
    pub timer_mode: Option<TimerMode>,
    /// The timer divide configuration.
    pub timer_divide: Option<TimerDivide>,
    /// The timer initial count.
    pub timer_initial: Option<u32>,
    /// The inter-processor-interrupt destination mode.
    pub ipi_destination_mode: Option<IpiDestMode>,
    /// The register offset of the input-output interrupt controller.
    pub ioapic_offset: Option<u8>,
}

impl Default for ApicInfo {
    /// The default configuration leaves every field empty.
    fn default() -> (r: ApicInfo)
        ensures
            r == (ApicInfo {
                timer_vector: None,
                error_vector: None,
                spurious_vector: None,
                timer_mode: None,
                timer_divide: None,
                timer_initial: None,
                ipi_destination_mode: None,
                ioapic_offset: None,
            }),
    {
        ApicInfo {
            timer_vector: None,
            error_vector: None,
            spurious_vector: None,
            timer_mode: None,
            timer_divide: None,
            timer_initial: None,
            ipi_destination_mode: None,
            ioapic_offset: None,
        }
    }
}

impl ApicInfo {
    /// A new builder with every field empty.
    pub fn new() -> (r: ApicInfo)
        ensures
            r == (ApicInfo {
                timer_vector: None,
                error_vector: None,
                spurious_vector: None,
                timer_mode: None,
                timer_divide: None,
                timer_initial: None,
                ipi_destination_mode: None,
                ioapic_offset: None,
            }),
    {
        Default::default()
    }

    /// Sets the register offset of the input-output interrupt controller.
    pub fn set_io_apic_offset(&mut self, arg: u8)
        ensures
            *final(self) == (ApicInfo { ioapic_offset: Some(arg), ..*old(self) }),
    {
        self.ioapic_offset = Some(arg);
    }

    /// Sets the interrupt index of timer interrupts.
    pub fn set_timer_vector(&mut self, arg: usize)
        ensures
            *final(self) == (ApicInfo { timer_vector: Some(arg), ..*old(self) }),
    {
        self.timer_vector = Some(arg);
    }

    /// Sets the interrupt index for internal controller errors.
    pub fn set_error_vector(&mut self, arg: usize)
        ensures
            *final(self) == (ApicInfo { error_vector: Some(arg), ..*old(self) }),
    {
        self.error_vector = Some(arg);
    }

    /// Sets the interrupt index for spurious interrupts.
    pub fn set_spurious_vector(&mut self, arg: usize)
        ensures
            *final(self) == (ApicInfo { spurious_vector: Some(arg), ..*old(self) }),
    {
        self.spurious_vector = Some(arg);
    }

    /// Sets the timer mode.
    pub fn set_timer_mode(&mut self, arg: TimerMode)
        ensures
            *final(self) == (ApicInfo { timer_mode: Some(arg), ..*old(self) }),
    {
        self.timer_mode = Some(arg);
    }

    /// Sets the timer divide configuration.
    pub fn set_timer_divide(&mut self, arg: TimerDivide)
        ensures
            *final(self) == (ApicInfo { timer_divide: Some(arg), ..*old(self) }),
    {
        self.timer_divide = Some(arg);
    }

    /// Sets the timer initial count.
    pub fn set_timer_initial(&mut self, arg: u32)
        ensures
            *final(self) == (ApicInfo { timer_initial: Some(arg), ..*old(self) }),
    {
        self.timer_initial = Some(arg);
    }

    /// Sets the inter-processor-interrupt destination mode.
    pub fn set_ipi_destination_mode(&mut self, arg: IpiDestMode)
        ensures
            *final(self) == (ApicInfo { ipi_destination_mode: Some(arg), ..*old(self) }),
    {
        self.ipi_destination_mode = Some(arg);
    }

    /// Checks the configuration: the error and spurious interrupt indices
    /// are required, and a configuration missing one is refused with a
    /// message naming the controller.
    pub fn build(self) -> (r: Result<ApicInfo, String>)
        ensures
            (self.error_vector is None || self.spurious_vector is None) <==> r is Err,
            r is Ok ==> r == Ok::<ApicInfo, String>(self),
            r is Err ==> r->Err_0@ == "x2apic: required field(s) empty"@,
    {
        if self.error_vector.is_none() || self.spurious_vector.is_none() {
            return Err("x2apic: required field(s) empty".to_owned());
        }
        Ok(self)
    }
}

/// The register file of one local interrupt controller in its
/// model-specific-register form: each field holds the register number of one
/// architectural register.
#[derive(Debug, PartialEq, Eq, Structural)]
pub struct LocalApicRegisters {
    /// The controller base register.
    pub base: MSR,
    /// The controller identifier register.
    pub id: MSR,
    /// The controller version register.
    pub version: MSR,
    /// The task-priority register.
    pub tpr: TPR,
    /// The processor-priority register.
    pub ppr: PPR,
    /// The end-of-interrupt register.
    pub eoi: EOI,
    /// The logical-destination register.
    pub ldr: LDR,
    /// The spurious-interrupt-vector register.
    pub sivr: SIVR,
    /// In-service register window 0.
    pub isr0: ISR0,
    /// In-service register window 1.
    pub isr1: ISR1,
    /// In-service register window 2.
    pub isr2: ISR2,
    /// In-service register window 3.
    pub isr3: ISR3,
    /// In-service register window 4.
    pub isr4: ISR4,
    /// In-service register window 5.
    pub isr5: ISR5,
    /// In-service register window 6.
    pub isr6: ISR6,
    /// In-service register window 7.
    pub isr7: ISR7,
    /// Trigger-mode register window 0.
    pub tmr0: TMR0,
    /// Trigger-mode register window 1.
    pub tmr1: TMR1,
    /// Trigger-mode register window 2.
    pub tmr2: TMR2,
    /// Trigger-mode register window 3.
    pub tmr3: TMR3,
    /// Trigger-mode register window 4.
    pub tmr4: TMR4,
    /// Trigger-mode register window 5.
    pub tmr5: TMR5,
    /// Trigger-mode register window 6.
    pub tmr6: TMR6,
    /// Trigger-mode register window 7.
    pub tmr7: TMR7,
    /// Interrupt-request register window 0.
    pub irr0: IRR0,
    /// Interrupt-request register window 1.
    pub irr1: IRR1,
    /// Interrupt-request register window 2.
    pub irr2: IRR2,
    /// Interrupt-request register window 3.
    pub irr3: IRR3,
    /// Interrupt-request register window 4.
    pub irr4: IRR4,
    /// Interrupt-request register window 5.
    pub irr5: IRR5,
    /// Interrupt-request register window 6.
    pub irr6: IRR6,
    /// Interrupt-request register window 7.
    pub irr7: IRR7,
    /// The error-status register.
    pub error: ESR,
    /// The interrupt-command register.
    pub icr: ICR,
    /// The local-vector-table timer entry.
    pub lvt_timer: LvtTimer,
    /// The local-vector-table thermal-sensor entry.
    pub lvt_thermal: LvtThermal,
    /// The local-vector-table performance-counter entry.
    pub lvt_perf: LvtPerf,
    /// The local-vector-table local-interrupt-pin-0 entry.
    pub lvt_lint0: LvtLint0,
    /// The local-vector-table local-interrupt-pin-1 entry.
    pub lvt_lint1: LvtLint1,
    /// The local-vector-table error entry.
    pub lvt_error: LvtError,
    /// The timer initial-count register.
    pub ticr: TICR,
    /// The timer current-count register.
    pub tccr: TCCR,
    /// The timer divide-configuration register.
    pub tdcr: TDCR,
    /// The self-interrupt register.
    pub self_ipi: IPI,
}

impl LocalApicRegisters {
    /// The register file with every field addressing its architectural
    /// register number.
    pub fn new() -> (r: LocalApicRegisters)
        ensures
            r.base == MSR(IA32_APIC_BASE),
            r.id == MSR(IA32_X2APIC_APICID),
            r.version == MSR(IA32_X2APIC_VERSION),
            r.tpr == TPR(MSR(IA32_X2APIC_TPR)),
            r.ppr == PPR(MSR(IA32_X2APIC_PPR)),
            r.eoi == EOI(MSR(IA32_X2APIC_EOI)),
            r.ldr == LDR(MSR(IA32_X2APIC_LDR)),
            r.sivr == SIVR(MSR(IA32_X2APIC_SIVR)),
            r.isr0 == ISR0(MSR(IA32_X2APIC_ISR0)),
            r.isr1 == ISR1(MSR(IA32_X2APIC_ISR1)),
            r.isr2 == ISR2(MSR(IA32_X2APIC_ISR2)),
            r.isr3 == ISR3(MSR(IA32_X2APIC_ISR3)),
            r.isr4 == ISR4(MSR(IA32_X2APIC_ISR4)),
            r.isr5 == ISR5(MSR(IA32_X2APIC_ISR5)),
            r.isr6 == ISR6(MSR(IA32_X2APIC_ISR6)),
            r.isr7 == ISR7(MSR(IA32_X2APIC_ISR7)),
            r.tmr0 == TMR0(MSR(IA32_X2APIC_TMR0)),
            r.tmr1 == TMR1(MSR(IA32_X2APIC_TMR1)),
            r.tmr2 == TMR2(MSR(IA32_X2APIC_TMR2)),
            r.tmr3 == TMR3(MSR(IA32_X2APIC_TMR3)),
            r.tmr4 == TMR4(MSR(IA32_X2APIC_TMR4)),
            r.tmr5 == TMR5(MSR(IA32_X2APIC_TMR5)),
            r.tmr6 == TMR6(MSR(IA32_X2APIC_TMR6)),
            r.tmr7 == TMR7(MSR(IA32_X2APIC_TMR7)),
            r.irr0 == IRR0(MSR(IA32_X2APIC_IRR0)),
            r.irr1 == IRR1(MSR(IA32_X2APIC_IRR1)),
            r.irr2 == IRR2(MSR(IA32_X2APIC_IRR2)),
            r.irr3 == IRR3(MSR(IA32_X2APIC_IRR3)),
            r.irr4 == IRR4(MSR(IA32_X2APIC_IRR4)),
            r.irr5 == IRR5(MSR(IA32_X2APIC_IRR5)),
            r.irr6 == IRR6(MSR(IA32_X2APIC_IRR6)),
            r.irr7 == IRR7(MSR(IA32_X2APIC_IRR7)),
            r.error == ESR(MSR(IA32_X2APIC_ESR)),
            r.icr == ICR(MSR(IA32_X2APIC_ICR)),
            r.lvt_timer == LvtTimer(MSR(IA32_X2APIC_LVT_TIMER)),
            r.lvt_thermal == LvtThermal(MSR(IA32_X2APIC_LVT_THERMAL)),
            r.lvt_perf == LvtPerf(MSR(IA32_X2APIC_LVT_PMI)),
            r.lvt_lint0 == LvtLint0(MSR(IA32_X2APIC_LVT_LINT0)),
            r.lvt_lint1 == LvtLint1(MSR(IA32_X2APIC_LVT_LINT1)),
            r.lvt_error == LvtError(MSR(IA32_X2APIC_LVT_ERROR)),
            r.ticr == TICR(MSR(IA32_X2APIC_INIT_COUNT)),
            r.tccr == TCCR(MSR(IA32_X2APIC_CUR_COUNT)),
            r.tdcr == TDCR(MSR(IA32_X2APIC_DIV_CONF)),
            r.self_ipi == IPI(MSR(IA32_X2APIC_SELF_IPI)),
    {
        LocalApicRegisters {
            base: MSR::new(IA32_APIC_BASE),
            id: MSR::new(IA32_X2APIC_APICID),
            version: MSR::new(IA32_X2APIC_VERSION),
            tpr: TPR::new(),
            ppr: PPR::new(),
            eoi: EOI::new(),
            ldr: LDR::new(),
            sivr: SIVR::new(),
            isr0: ISR0::new(),
            isr1: ISR1::new(),
            isr2: ISR2::new(),
            isr3: ISR3::new(),
            isr4: ISR4::new(),
            isr5: ISR5::new(),
            isr6: ISR6::new(),
            isr7: ISR7::new(),
            tmr0: TMR0::new(),
            tmr1: TMR1::new(),
            tmr2: TMR2::new(),
            tmr3: TMR3::new(),
            tmr4: TMR4::new(),
            tmr5: TMR5::new(),
            tmr6: TMR6::new(),
            tmr7: TMR7::new(),
            irr0: IRR0::new(),
            irr1: IRR1::new(),
            irr2: IRR2::new(),
            irr3: IRR3::new(),
            irr4: IRR4::new(),
            irr5: IRR5::new(),
            irr6: IRR6::new(),
            irr7: IRR7::new(),
            error: ESR::new(),
            icr: ICR::new(),
            lvt_timer: LvtTimer::new(),
            lvt_thermal: LvtThermal::new(),
            lvt_perf: LvtPerf::new(),
            lvt_lint0: LvtLint0::new(),
            lvt_lint1: LvtLint1::new(),
            lvt_error: LvtError::new(),
            ticr: TICR::new(),
            tccr: TCCR::new(),
            tdcr: TDCR::new(),
            self_ipi: IPI::new(),
        }
    }
}

} // verus!
