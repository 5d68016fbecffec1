//! The local APIC in xAPIC mode.
use crate::ia_32e::xapic::consts::{
    ASSERT, BCAST, CMOS_PORT, CMOS_RETURN, ENABLE, EOI, ERROR, ESR, ICRHI, ICRLO, INIT,
    IRQ_ERROR, IRQ_SPURIOUS, IRQ_TIMER, LEVEL, LINT0, LINT1, MASKED, PCINT, PERIODIC, STARTUP,
    SVR, TDCR, TICR, TIMER, T_IRQ0, X1,
};
use vstd::prelude::*;

verus! {

/// A 32-bit write to the local APIC register at `reg`.
#[derive(Clone, Copy, Debug, PartialEq, Eq, Structural)]
pub struct RegWrite {
    /// The register's offset.
    pub reg: u32,
    /// The value.
    pub value: u32,
}

/// A step of starting an application processor.
#[derive(Clone, Copy, Debug, PartialEq, Eq, Structural)]
pub enum StartStep {
    /// A 16-bit write to an I/O port.
    Port { port: u16, value: u16 },
    /// A 16-bit write to physical memory.
    Memory { addr: u64, value: u16 },
    /// A write to a register of the local APIC.
    Register(RegWrite),
    /// A wait of the given number of microseconds.
    Delay(u64),
}

/// The local APIC whose registers are mapped at `base`.
#[allow(non_camel_case_types)]
#[derive(Clone, Copy, Debug, PartialEq, Eq, Structural)]
pub struct xApic {
    /// The address the registers are mapped at.
    pub base: usize,
}

/// The write of `value` to the register `reg`.
pub open spec fn reg_write(reg: u32, value: u32) -> RegWrite {
    RegWrite { reg, value }
}

impl xApic {
    /// The local APIC whose registers are mapped at `base`.
    pub fn new(base: usize) -> (r: Self)
        ensures
            r.base == base,
    {
        Self { base }
    }

    /// The APIC's identification in the ID register value `value`: bits 24 to 31.
    pub fn id(value: u32) -> (r: u32)
        ensures
            r == value >> 24u32,
    {
        value >> 24u32
    }

    /// The interrupt command of the two halves of its register, high then low.
    pub fn icr(high: u32, low: u32) -> (r: u64)
        ensures
            r == ((high as u64) << 32u64) | (low as u64),
    {
        ((high as u64) << 32u64) | (low as u64)
    }

    /// The register writes that set the APIC up, given the version register value
    /// `version`: enable it with the spurious vector, run the timer periodically, mask
    /// LINT0 and LINT1 (and the performance counter entry where the version register
    /// reports at least five entries), route errors, clear the error status twice,
    /// acknowledge pending interrupts and broadcast an INIT level de-assert. After these the
    /// caller waits for the delivery status to clear and writes 0 to the task priority.
    pub fn cpu_init(&self, version: u32) -> (r: Vec<RegWrite>)
        ensures
            r@ == seq![
                reg_write(SVR, ENABLE | (T_IRQ0 + IRQ_SPURIOUS) as u32),
                reg_write(TDCR, X1),
                reg_write(TIMER, PERIODIC | (T_IRQ0 + IRQ_TIMER) as u32),
                reg_write(TICR, 10000000),
                reg_write(LINT0, MASKED),
                reg_write(LINT1, MASKED),
            ] + (if (version >> 16u32) & 0xFF >= 4 {
                seq![reg_write(PCINT, MASKED)]
            } else {
                Seq::<RegWrite>::empty()
            }) + seq![
                reg_write(ERROR, (T_IRQ0 + IRQ_ERROR) as u32),
                reg_write(ESR, 0),
                reg_write(ESR, 0),
                reg_write(EOI, 0),
                reg_write(ICRHI, 0),
                reg_write(ICRLO, BCAST | INIT | LEVEL),
            ],
    {
        let mut r: Vec<RegWrite> = Vec::new();
        r.push(RegWrite { reg: SVR, value: ENABLE | (T_IRQ0 + IRQ_SPURIOUS) });
        r.push(RegWrite { reg: TDCR, value: X1 });
        r.push(RegWrite { reg: TIMER, value: PERIODIC | (T_IRQ0 + IRQ_TIMER) });
        r.push(RegWrite { reg: TICR, value: 10000000 });
        r.push(RegWrite { reg: LINT0, value: MASKED });
        r.push(RegWrite { reg: LINT1, value: MASKED });
        let ghost first = r@;
        if (version >> 16u32) & 0xFF >= 4 {
            r.push(RegWrite { reg: PCINT, value: MASKED });
        }
        let ghost second = r@;
        r.push(RegWrite { reg: ERROR, value: T_IRQ0 + IRQ_ERROR });
        r.push(RegWrite { reg: ESR, value: 0 });
        r.push(RegWrite { reg: ESR, value: 0 });
        r.push(RegWrite { reg: EOI, value: 0 });
        r.push(RegWrite { reg: ICRHI, value: 0 });
        r.push(RegWrite { reg: ICRLO, value: BCAST | INIT | LEVEL });
        assert(r@ =~= second + seq![
            reg_write(ERROR, (T_IRQ0 + IRQ_ERROR) as u32),
            reg_write(ESR, 0),
            reg_write(ESR, 0),
            reg_write(EOI, 0),
            reg_write(ICRHI, 0),
            reg_write(ICRLO, BCAST | INIT | LEVEL),
        ]);
        r
    }

    /// The writes of an interrupt command `value`: the high half, then the low half.
    pub fn set_icr(value: u64) -> (r: Vec<RegWrite>)
        ensures
            r@ == seq![reg_write(ICRHI, (value >> 32u64) as u32), reg_write(ICRLO, value as u32)],
    {
        let mut r: Vec<RegWrite> = Vec::new();
        r.push(RegWrite { reg: ICRHI, value: (value >> 32u64) as u32 });
        r.push(RegWrite { reg: ICRLO, value: value as u32 });
        r
    }

    /// The steps that start the application processor `apic_id` at the entry point `addr`,
    /// which must be 4 KiB aligned: the CMOS shutdown code 0x0A, the warm reset vector at
    /// 0x467 (offset 0, segment the low 16 bits of `addr` shifted right by 4), an INIT
    /// assert and de-assert with waits of 200 and 10000 microseconds, and two STARTUP
    /// interrupts to page `addr >> 12`, each followed by a wait of 200 microseconds.
    pub fn start_ap(&self, apic_id: u8, addr: u32) -> (r: Vec<StartStep>)
        requires
            addr & 0xfff == 0,
        ensures
            ({
                let dest = reg_write(ICRHI, (apic_id as u32) << 24u32);
                let startup = reg_write(ICRLO, STARTUP | (addr >> 12u32));
                r@ == seq![
                    StartStep::Port { port: CMOS_PORT, value: 0xf },
                    StartStep::Port { port: CMOS_RETURN, value: 0xa },
                    StartStep::Memory { addr: 0x467, value: 0 },
                    StartStep::Memory { addr: 0x469, value: (addr as u16) >> 4u16 },
                    StartStep::Register(dest),
                    StartStep::Register(reg_write(ICRLO, INIT | LEVEL | ASSERT)),
                    StartStep::Delay(200),
                    StartStep::Register(reg_write(ICRLO, INIT | LEVEL)),
                    StartStep::Delay(10000),
                    StartStep::Register(dest),
                    StartStep::Register(startup),
                    StartStep::Delay(200),
                    StartStep::Register(dest),
                    StartStep::Register(startup),
                    StartStep::Delay(200),
                ]
            }),
    {
        let mut r: Vec<StartStep> = Vec::new();
        r.push(StartStep::Port { port: CMOS_PORT, value: 0xf });
        r.push(StartStep::Port { port: CMOS_RETURN, value: 0xa });
        r.push(StartStep::Memory { addr: 0x467, value: 0 });
        r.push(StartStep::Memory { addr: 0x469, value: (#[verifier::truncate] (addr as u16)) >> 4u16 });
        let dest = RegWrite { reg: ICRHI, value: (apic_id as u32) << 24u32 };
        r.push(StartStep::Register(dest));
        r.push(StartStep::Register(RegWrite { reg: ICRLO, value: INIT | LEVEL | ASSERT }));
        r.push(StartStep::Delay(200));
        r.push(StartStep::Register(RegWrite { reg: ICRLO, value: INIT | LEVEL }));
        r.push(StartStep::Delay(10000));
        let startup = RegWrite { reg: ICRLO, value: STARTUP | (addr >> 12u32) };
        let ghost prefix = r@;
        let ghost round = seq![
            StartStep::Register(dest),
            StartStep::Register(startup),
            StartStep::Delay(200),
        ];
        let mut i: u8 = 0;
        while i < 2
            invariant
                i <= 2,
                round == seq![
                    StartStep::Register(dest),
                    StartStep::Register(startup),
                    StartStep::Delay(200),
                ],
                i == 0 ==> r@ == prefix,
                i == 1 ==> r@ == prefix + round,
                i == 2 ==> r@ == prefix + round + round,
            decreases 2 - i,
        {
            let ghost before = r@;
            r.push(StartStep::Register(dest));
            r.push(StartStep::Register(startup));
            r.push(StartStep::Delay(200));
            assert(r@ =~= before + round);
            i = i + 1;
        }
        assert(r@ =~= prefix + round + round);
        r
    }

    /// The write that acknowledges an interrupt.
    pub fn eoi() -> (r: RegWrite)
        ensures
            r == reg_write(EOI, 0),
    {
        RegWrite { reg: EOI, value: 0 }
    }
}

} // verus!
