//! Masking the local vector table of the x2APIC.
use crate::ia_32e::cpu::msr::{
    IA32_X2APIC_IRR0, IA32_X2APIC_LVT_ERROR, IA32_X2APIC_LVT_LINT0, IA32_X2APIC_LVT_LINT1,
    IA32_X2APIC_LVT_PMI, IA32_X2APIC_LVT_THERMAL, IA32_X2APIC_LVT_TIMER,
};
use vstd::prelude::*;

verus! {

/// A write of a model specific register as its low and high halves.
#[derive(Clone, Copy, Debug, PartialEq, Eq, Structural)]
pub struct MsrWrite {
    /// The register.
    pub msr: u32,
    /// The low half (EAX).
    pub low: u32,
    /// The high half (EDX).
    pub high: u32,
}

/// The write that sets the mask bit 16 of the register `msr` and clears the rest.
pub open spec fn mask_write(msr: u32) -> MsrWrite {
    MsrWrite { msr, low: 0x10000, high: 0 }
}

/// The writes that mask every interrupt of the local vector table, for a system that has
/// no handler for them yet: the CMCI entry (written at the register numbered like IRR0),
/// the timer, thermal monitor, performance counter, LINT0, LINT1 and error entries.
pub fn mask_all_lvt() -> (r: Vec<MsrWrite>)
    ensures
        r@ == seq![
            mask_write(IA32_X2APIC_IRR0),
            mask_write(IA32_X2APIC_LVT_TIMER),
            mask_write(IA32_X2APIC_LVT_THERMAL),
            mask_write(IA32_X2APIC_LVT_PMI),
            mask_write(IA32_X2APIC_LVT_LINT0),
            mask_write(IA32_X2APIC_LVT_LINT1),
            mask_write(IA32_X2APIC_LVT_ERROR),
        ],
{
    let mut r: Vec<MsrWrite> = Vec::new();
    r.push(MsrWrite { msr: IA32_X2APIC_IRR0, low: 0x10000, high: 0x00 });
    r.push(MsrWrite { msr: IA32_X2APIC_LVT_TIMER, low: 0x10000, high: 0x00 });
    r.push(MsrWrite { msr: IA32_X2APIC_LVT_THERMAL, low: 0x10000, high: 0x00 });
    r.push(MsrWrite { msr: IA32_X2APIC_LVT_PMI, low: 0x10000, high: 0x00 });
    r.push(MsrWrite { msr: IA32_X2APIC_LVT_LINT0, low: 0x10000, high: 0x00 });
    r.push(MsrWrite { msr: IA32_X2APIC_LVT_LINT1, low: 0x10000, high: 0x00 });
    r.push(MsrWrite { msr: IA32_X2APIC_LVT_ERROR, low: 0x10000, high: 0x00 });
    r
}

} // verus!
