//! The registers of the local x2APIC and the values of their fields.
use crate::ia_32e::cpu::msr::{IA32_APIC_BASE, IA32_X2APIC_APICID, IA32_X2APIC_CUR_COUNT, IA32_X2APIC_DIV_CONF, IA32_X2APIC_EOI, IA32_X2APIC_ESR, IA32_X2APIC_ICR, IA32_X2APIC_INIT_COUNT, IA32_X2APIC_IRR0, IA32_X2APIC_IRR1, IA32_X2APIC_IRR2, IA32_X2APIC_IRR3, IA32_X2APIC_IRR4, IA32_X2APIC_IRR5, IA32_X2APIC_IRR6, IA32_X2APIC_IRR7, IA32_X2APIC_ISR0, IA32_X2APIC_ISR1, IA32_X2APIC_ISR2, IA32_X2APIC_ISR3, IA32_X2APIC_ISR4, IA32_X2APIC_ISR5, IA32_X2APIC_ISR6, IA32_X2APIC_ISR7, IA32_X2APIC_LDR, IA32_X2APIC_LVT_ERROR, IA32_X2APIC_LVT_LINT0, IA32_X2APIC_LVT_LINT1, IA32_X2APIC_LVT_PMI, IA32_X2APIC_LVT_THERMAL, IA32_X2APIC_LVT_TIMER, IA32_X2APIC_PPR, IA32_X2APIC_SELF_IPI, IA32_X2APIC_SIVR, IA32_X2APIC_TMR0, IA32_X2APIC_TMR1, IA32_X2APIC_TMR2, IA32_X2APIC_TMR3, IA32_X2APIC_TMR4, IA32_X2APIC_TMR5, IA32_X2APIC_TMR6, IA32_X2APIC_TMR7, IA32_X2APIC_TPR, IA32_X2APIC_VERSION};
use crate::ia_32e::cpu::msr::MSR;
use vstd::prelude::*;

verus! {

/// The model specific registers of the local x2APIC.
#[derive(Clone, Copy, Debug, PartialEq, Eq, Structural)]
pub struct LocalApicRegisters {
    pub base: MSR,
    pub id: MSR,
    pub version: MSR,
    pub tpr: MSR,
    pub ppr: MSR,
    pub eoi: MSR,
    pub ldr: MSR,
    pub sivr: MSR,
    pub isr0: MSR,
    pub isr1: MSR,
    pub isr2: MSR,
    pub isr3: MSR,
    pub isr4: MSR,
    pub isr5: MSR,
    pub isr6: MSR,
    pub isr7: MSR,
    pub tmr0: MSR,
    pub tmr1: MSR,
    pub tmr2: MSR,
    pub tmr3: MSR,
    pub tmr4: MSR,
    pub tmr5: MSR,
    pub tmr6: MSR,
    pub tmr7: MSR,
    pub irr0: MSR,
    pub irr1: MSR,
    pub irr2: MSR,
    pub irr3: MSR,
    pub irr4: MSR,
    pub irr5: MSR,
    pub irr6: MSR,
    pub irr7: MSR,
    pub error: MSR,
    pub icr: MSR,
    pub lvt_timer: MSR,
    pub lvt_thermal: MSR,
    pub lvt_perf: MSR,
    pub lvt_lint0: MSR,
    pub lvt_lint1: MSR,
    pub lvt_error: MSR,
    pub ticr: MSR,
    pub tccr: MSR,
    pub tdcr: MSR,
    pub self_ipi: MSR,
}

impl LocalApicRegisters {
    /// The registers, each at its architectural number.
    pub fn new() -> (r: Self)
        ensures

            r.base.0 == IA32_APIC_BASE,
            r.id.0 == IA32_X2APIC_APICID,
            r.version.0 == IA32_X2APIC_VERSION,
            r.tpr.0 == IA32_X2APIC_TPR,
            r.ppr.0 == IA32_X2APIC_PPR,
            r.eoi.0 == IA32_X2APIC_EOI,
            r.ldr.0 == IA32_X2APIC_LDR,
            r.sivr.0 == IA32_X2APIC_SIVR,
            r.isr0.0 == IA32_X2APIC_ISR0,
            r.isr1.0 == IA32_X2APIC_ISR1,
            r.isr2.0 == IA32_X2APIC_ISR2,
            r.isr3.0 == IA32_X2APIC_ISR3,
            r.isr4.0 == IA32_X2APIC_ISR4,
            r.isr5.0 == IA32_X2APIC_ISR5,
            r.isr6.0 == IA32_X2APIC_ISR6,
            r.isr7.0 == IA32_X2APIC_ISR7,
            r.tmr0.0 == IA32_X2APIC_TMR0,
            r.tmr1.0 == IA32_X2APIC_TMR1,
            r.tmr2.0 == IA32_X2APIC_TMR2,
            r.tmr3.0 == IA32_X2APIC_TMR3,
            r.tmr4.0 == IA32_X2APIC_TMR4,
            r.tmr5.0 == IA32_X2APIC_TMR5,
            r.tmr6.0 == IA32_X2APIC_TMR6,
            r.tmr7.0 == IA32_X2APIC_TMR7,
            r.irr0.0 == IA32_X2APIC_IRR0,
            r.irr1.0 == IA32_X2APIC_IRR1,
            r.irr2.0 == IA32_X2APIC_IRR2,
            r.irr3.0 == IA32_X2APIC_IRR3,
            r.irr4.0 == IA32_X2APIC_IRR4,
            r.irr5.0 == IA32_X2APIC_IRR5,
            r.irr6.0 == IA32_X2APIC_IRR6,
            r.irr7.0 == IA32_X2APIC_IRR7,
            r.error.0 == IA32_X2APIC_ESR,
            r.icr.0 == IA32_X2APIC_ICR,
            r.lvt_timer.0 == IA32_X2APIC_LVT_TIMER,
            r.lvt_thermal.0 == IA32_X2APIC_LVT_THERMAL,
            r.lvt_perf.0 == IA32_X2APIC_LVT_PMI,
            r.lvt_lint0.0 == IA32_X2APIC_LVT_LINT0,
            r.lvt_lint1.0 == IA32_X2APIC_LVT_LINT1,
            r.lvt_error.0 == IA32_X2APIC_LVT_ERROR,
            r.ticr.0 == IA32_X2APIC_INIT_COUNT,
            r.tccr.0 == IA32_X2APIC_CUR_COUNT,
            r.tdcr.0 == IA32_X2APIC_DIV_CONF,
            r.self_ipi.0 == IA32_X2APIC_SELF_IPI,
    {
        LocalApicRegisters {
            base: MSR::new(IA32_APIC_BASE),
            id: MSR::new(IA32_X2APIC_APICID),
            version: MSR::new(IA32_X2APIC_VERSION),
            tpr: MSR::new(IA32_X2APIC_TPR),
            ppr: MSR::new(IA32_X2APIC_PPR),
            eoi: MSR::new(IA32_X2APIC_EOI),
            ldr: MSR::new(IA32_X2APIC_LDR),
            sivr: MSR::new(IA32_X2APIC_SIVR),
            isr0: MSR::new(IA32_X2APIC_ISR0),
            isr1: MSR::new(IA32_X2APIC_ISR1),
            isr2: MSR::new(IA32_X2APIC_ISR2),
            isr3: MSR::new(IA32_X2APIC_ISR3),
            isr4: MSR::new(IA32_X2APIC_ISR4),
            isr5: MSR::new(IA32_X2APIC_ISR5),
            isr6: MSR::new(IA32_X2APIC_ISR6),
            isr7: MSR::new(IA32_X2APIC_ISR7),
            tmr0: MSR::new(IA32_X2APIC_TMR0),
            tmr1: MSR::new(IA32_X2APIC_TMR1),
            tmr2: MSR::new(IA32_X2APIC_TMR2),
            tmr3: MSR::new(IA32_X2APIC_TMR3),
            tmr4: MSR::new(IA32_X2APIC_TMR4),
            tmr5: MSR::new(IA32_X2APIC_TMR5),
            tmr6: MSR::new(IA32_X2APIC_TMR6),
            tmr7: MSR::new(IA32_X2APIC_TMR7),
            irr0: MSR::new(IA32_X2APIC_IRR0),
            irr1: MSR::new(IA32_X2APIC_IRR1),
            irr2: MSR::new(IA32_X2APIC_IRR2),
            irr3: MSR::new(IA32_X2APIC_IRR3),
            irr4: MSR::new(IA32_X2APIC_IRR4),
            irr5: MSR::new(IA32_X2APIC_IRR5),
            irr6: MSR::new(IA32_X2APIC_IRR6),
            irr7: MSR::new(IA32_X2APIC_IRR7),
            error: MSR::new(IA32_X2APIC_ESR),
            icr: MSR::new(IA32_X2APIC_ICR),
            lvt_timer: MSR::new(IA32_X2APIC_LVT_TIMER),
            lvt_thermal: MSR::new(IA32_X2APIC_LVT_THERMAL),
            lvt_perf: MSR::new(IA32_X2APIC_LVT_PMI),
            lvt_lint0: MSR::new(IA32_X2APIC_LVT_LINT0),
            lvt_lint1: MSR::new(IA32_X2APIC_LVT_LINT1),
            lvt_error: MSR::new(IA32_X2APIC_LVT_ERROR),
            ticr: MSR::new(IA32_X2APIC_INIT_COUNT),
            tccr: MSR::new(IA32_X2APIC_CUR_COUNT),
            tdcr: MSR::new(IA32_X2APIC_DIV_CONF),
            self_ipi: MSR::new(IA32_X2APIC_SELF_IPI),
        }
    }
}

/// The modes of the local APIC timer.
#[derive(Clone, Copy, Debug, PartialEq, Eq, Structural)]
pub enum TimerMode {
    /// The timer fires once.
    OneShot,
    /// The timer fires periodically.
    Periodic,
    /// The timer fires at an absolute time.
    TscDeadline,
}

/// The field value of each TimerMode.
pub open spec fn timer_mode_value(v: TimerMode) -> u64 {
    match v {
        TimerMode::OneShot => 0x0,
        TimerMode::Periodic => 0x1,
        TimerMode::TscDeadline => 0x2,
    }
}

impl From<TimerMode> for u64 {
    fn from(v: TimerMode) -> (r: u64) {
        match v {
            TimerMode::OneShot => 0x0,
            TimerMode::Periodic => 0x1,
            TimerMode::TscDeadline => 0x2,
        }
    }
}

impl vstd::std_specs::convert::FromSpecImpl<TimerMode> for u64 {
    open spec fn obeys_from_spec() -> bool {
        true
    }

    open spec fn from_spec(v: TimerMode) -> u64 {
        timer_mode_value(v)
    }
}

/// The divide configurations of the local APIC timer.
#[derive(Clone, Copy, Debug, PartialEq, Eq, Structural)]
pub enum TimerDivide {
    /// Divide by 2.
    Div2,
    /// Divide by 4.
    Div4,
    /// Divide by 8.
    Div8,
    /// Divide by 16.
    Div16,
    /// Divide by 32.
    Div32,
    /// Divide by 64.
    Div64,
    /// Divide by 128.
    Div128,
    /// Divide by 256.
    Div256,
}

/// The field value of each TimerDivide.
pub open spec fn timer_divide_value(v: TimerDivide) -> u64 {
    match v {
        TimerDivide::Div2 => 0x0,
        TimerDivide::Div4 => 0x1,
        TimerDivide::Div8 => 0x2,
        TimerDivide::Div16 => 0x3,
        TimerDivide::Div32 => 0x8,
        TimerDivide::Div64 => 0x9,
        TimerDivide::Div128 => 0xa,
        TimerDivide::Div256 => 0xb,
    }
}

impl From<TimerDivide> for u64 {
    fn from(v: TimerDivide) -> (r: u64) {
        match v {
            TimerDivide::Div2 => 0x0,
            TimerDivide::Div4 => 0x1,
            TimerDivide::Div8 => 0x2,
            TimerDivide::Div16 => 0x3,
            TimerDivide::Div32 => 0x8,
            TimerDivide::Div64 => 0x9,
            TimerDivide::Div128 => 0xa,
            TimerDivide::Div256 => 0xb,
        }
    }
}

impl vstd::std_specs::convert::FromSpecImpl<TimerDivide> for u64 {
    open spec fn obeys_from_spec() -> bool {
        true
    }

    open spec fn from_spec(v: TimerDivide) -> u64 {
        timer_divide_value(v)
    }
}

/// The destination modes of an inter-processor interrupt.
#[derive(Clone, Copy, Debug, PartialEq, Eq, Structural)]
pub enum IpiDestMode {
    /// Physical destination mode.
    Physical,
    /// Logical destination mode.
    Logical,
}

/// The field value of each IpiDestMode.
pub open spec fn ipi_dest_mode_value(v: IpiDestMode) -> u64 {
    match v {
        IpiDestMode::Physical => 0x0,
        IpiDestMode::Logical => 0x1,
    }
}

impl From<IpiDestMode> for u64 {
    fn from(v: IpiDestMode) -> (r: u64) {
        match v {
            IpiDestMode::Physical => 0x0,
            IpiDestMode::Logical => 0x1,
        }
    }
}

impl vstd::std_specs::convert::FromSpecImpl<IpiDestMode> for u64 {
    open spec fn obeys_from_spec() -> bool {
        true
    }

    open spec fn from_spec(v: IpiDestMode) -> u64 {
        ipi_dest_mode_value(v)
    }
}

/// The delivery modes of an inter-processor interrupt.
#[derive(Clone, Copy, Debug, PartialEq, Eq, Structural)]
pub enum IpiDeliveryMode {
    /// Delivers to the processors of the destination.
    Fixed,
    /// Delivers to the processor of the destination with the lowest priority.
    LowestPriority,
    /// Delivers a system management interrupt.
    SystemManagement,
    /// Delivers a non-maskable interrupt.
    NonMaskable,
    /// Delivers an INIT interrupt.
    Init,
    /// Delivers a start-up IPI.
    StartUp,
}

/// The field value of each IpiDeliveryMode.
pub open spec fn ipi_delivery_mode_value(v: IpiDeliveryMode) -> u64 {
    match v {
        IpiDeliveryMode::Fixed => 0x0,
        IpiDeliveryMode::LowestPriority => 0x1,
        IpiDeliveryMode::SystemManagement => 0x2,
        IpiDeliveryMode::NonMaskable => 0x4,
        IpiDeliveryMode::Init => 0x5,
        IpiDeliveryMode::StartUp => 0x6,
    }
}

impl From<IpiDeliveryMode> for u64 {
    fn from(v: IpiDeliveryMode) -> (r: u64) {
        match v {
            IpiDeliveryMode::Fixed => 0x0,
            IpiDeliveryMode::LowestPriority => 0x1,
            IpiDeliveryMode::SystemManagement => 0x2,
            IpiDeliveryMode::NonMaskable => 0x4,
            IpiDeliveryMode::Init => 0x5,
            IpiDeliveryMode::StartUp => 0x6,
        }
    }
}

impl vstd::std_specs::convert::FromSpecImpl<IpiDeliveryMode> for u64 {
    open spec fn obeys_from_spec() -> bool {
        true
    }

    open spec fn from_spec(v: IpiDeliveryMode) -> u64 {
        ipi_delivery_mode_value(v)
    }
}

/// The destinations of an inter-processor interrupt sent to all processors.
#[derive(Clone, Copy, Debug, PartialEq, Eq, Structural)]
pub enum IpiAllShorthand {
    /// Every processor, this one included.
    AllIncludingSelf,
    /// Every processor but this one.
    AllExcludingSelf,
}

/// The field value of each IpiAllShorthand.
pub open spec fn ipi_all_shorthand_value(v: IpiAllShorthand) -> u64 {
    match v {
        IpiAllShorthand::AllIncludingSelf => 0x2,
        IpiAllShorthand::AllExcludingSelf => 0x3,
    }
}

impl From<IpiAllShorthand> for u64 {
    fn from(v: IpiAllShorthand) -> (r: u64) {
        match v {
            IpiAllShorthand::AllIncludingSelf => 0x2,
            IpiAllShorthand::AllExcludingSelf => 0x3,
        }
    }
}

impl vstd::std_specs::convert::FromSpecImpl<IpiAllShorthand> for u64 {
    open spec fn obeys_from_spec() -> bool {
        true
    }

    open spec fn from_spec(v: IpiAllShorthand) -> u64 {
        ipi_all_shorthand_value(v)
    }
}

/// The power of two that each TimerDivide divides the bus clock by, by its name.
pub open spec fn divide_exponent(v: TimerDivide) -> nat {
    match v {
        TimerDivide::Div2 => 1,
        TimerDivide::Div4 => 2,
        TimerDivide::Div8 => 3,
        TimerDivide::Div16 => 4,
        TimerDivide::Div32 => 5,
        TimerDivide::Div64 => 6,
        TimerDivide::Div128 => 7,
        TimerDivide::Div256 => 8,
    }
}

/// The divide configuration value of each TimerDivide: for a divide by `2^e`, the three-bit
/// code `e - 1` held in bits 0, 1 and 3 of the register (its low two bits in bits 0 and 1,
/// its high bit in bit 3, bit 2 clear), so divide by 2 is `0b0000` and divide by 16 is
/// `0b0011`; the last variant holds code 7 (`0b1011`). Distinct divisors have distinct
/// values.
pub proof fn law_timer_divide_values(v: TimerDivide, w: TimerDivide)
    ensures
        timer_divide_value(v) == (divide_exponent(v) - 1) % 4 + 8 * ((divide_exponent(v) - 1) / 4),
        timer_divide_value(v) < 16,
        v != w ==> timer_divide_value(v) != timer_divide_value(w),
{
}

} // verus!
