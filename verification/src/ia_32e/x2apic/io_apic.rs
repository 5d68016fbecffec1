//! The I/O APIC: its redirection table and the fields of its registers.
use crate::bits::IrqFlags;
use crate::ia_32e::x2apic::consts::{IOAPIC_TABLE_BASE, IRQ_MASK_BIT, IRQ_MODE_MASK};
use vstd::prelude::*;

verus! {

/// The delivery mode of an I/O APIC redirection entry.
#[derive(Clone, Copy, Debug, PartialEq, Eq, Structural)]
pub enum IrqMode {
    /// Asserts the INTR signal on all allowed processors.
    Fixed,
    /// Asserts the INTR signal on the lowest priority processor allowed.
    LowestPriority,
    /// A system management interrupt; requires edge triggering.
    SystemManagement,
    /// Asserts the NMI signal on all allowed processors; requires edge triggering.
    NonMaskable,
    /// Asserts the INIT signal on all allowed processors; requires edge triggering.
    Init,
    /// Asserts the INTR signal as coming from an external interrupt controller; requires
    /// edge triggering.
    External,
}

/// The delivery mode bits of a mode.
pub open spec fn irq_mode_value(mode: IrqMode) -> u32 {
    match mode {
        IrqMode::Fixed => 0x0000_0000,
        IrqMode::LowestPriority => 0x0000_0100,
        IrqMode::SystemManagement => 0x0000_0200,
        IrqMode::NonMaskable => 0x0000_0400,
        IrqMode::Init => 0x0000_0500,
        IrqMode::External => 0x0000_0700,
    }
}

impl IrqMode {
    /// The delivery mode bits of the mode.
    pub fn as_u32(self) -> (r: u32)
        ensures
            r == irq_mode_value(self),
    {
        match self {
            IrqMode::Fixed => 0x0000_0000,
            IrqMode::LowestPriority => 0x0000_0100,
            IrqMode::SystemManagement => 0x0000_0200,
            IrqMode::NonMaskable => 0x0000_0400,
            IrqMode::Init => 0x0000_0500,
            IrqMode::External => 0x0000_0700,
        }
    }
}

/// The register that holds the low half of the redirection entry of `irq`.
pub fn lo(irq: u8) -> (r: u32)
    ensures
        r == IOAPIC_TABLE_BASE + 2 * irq,
{
    IOAPIC_TABLE_BASE + (2 * (irq as u32))
}

/// The register that holds the high half of the redirection entry of `irq`.
pub fn hi(irq: u8) -> (r: u32)
    ensures
        r == IOAPIC_TABLE_BASE + 2 * irq + 1,
{
    lo(irq) + 1
}

/// The I/O APIC whose registers are mapped at `base_addr`.
#[derive(Clone, Copy, Debug, PartialEq, Eq, Structural)]
pub struct IoApic {
    /// The address the registers are mapped at.
    pub base_addr: u64,
}

impl IoApic {
    /// The I/O APIC whose registers are mapped at `base_addr`.
    pub fn new(base_addr: u64) -> (r: Self)
        ensures
            r.base_addr == base_addr,
    {
        IoApic { base_addr }
    }

    /// The identification of the APIC in the identification register value `value`:
    /// bits 24 to 27.
    pub fn id(value: u32) -> (r: u8)
        ensures
            r == (value >> 24u32) & 0xf,
    {
        let v = (value >> 24u32) & 0xf;
        assert(v <= 0xf) by (bit_vector)
            requires
                v == (value >> 24u32) & 0xf,
        ;
        v as u8
    }

    /// The identification register value that sets the identification `id`.
    pub fn set_id(id: u8) -> (r: u32)
        ensures
            r == (id as u32) << 24u32,
    {
        (id as u32) << 24u32
    }

    /// The version in the version register value `value`: bits 0 to 7.
    pub fn version(value: u32) -> (r: u8)
        ensures
            r == value & 0xff,
    {
        let v = value & 0xff;
        assert(v <= 0xff) by (bit_vector)
            requires
                v == value & 0xff,
        ;
        v as u8
    }

    /// The number of the last redirection entry in the version register value `value`:
    /// bits 16 to 23.
    pub fn max_table_entry(value: u32) -> (r: u8)
        ensures
            r == (value >> 16u32) & 0xff,
    {
        let v = (value >> 16u32) & 0xff;
        assert(v <= 0xff) by (bit_vector)
            requires
                v == (value >> 16u32) & 0xff,
        ;
        v as u8
    }

    /// The low half of a redirection entry that delivers in `mode` with `options`, made
    /// from the entry's current low half `old`: the mode and option bits replaced, the mask
    /// bit cleared.
    pub fn enabled_entry(old: u32, mode: IrqMode, options: IrqFlags) -> (r: u32)
        ensures
            r == ((old & !(IRQ_MODE_MASK | IrqFlags::ALL)) | irq_mode_value(mode) | options.bits)
                & !IRQ_MASK_BIT,
    {
        let cleared = old & !(IRQ_MODE_MASK | IrqFlags::all().bits());
        let set = cleared | mode.as_u32() | options.bits();
        set & !IRQ_MASK_BIT
    }

    /// The arbitration identification in the arbitration register value `value`: bits 24 to
    /// 27.
    pub fn arbitration_id(value: u32) -> (r: u8)
        ensures
            r == (value >> 24u32) & 0xf,
    {
        Self::id(value)
    }

    /// The arbitration register value that sets the arbitration identification `id`.
    pub fn set_arbitration_id(id: u8) -> (r: u32)
        ensures
            r == (id as u32) << 24u32,
    {
        Self::set_id(id)
    }

    /// The low half of a redirection entry with its mask bit set, made from its current low
    /// half `old`.
    pub fn disabled_entry(old: u32) -> (r: u32)
        ensures
            r == old | IRQ_MASK_BIT,
    {
        old | IRQ_MASK_BIT
    }

    /// The vectors that setting up the redirection table gives its entries: entry `i`, for
    /// each `i` up to the last entry `max_entry`, is redirected to vector `i + offset`.
    pub fn init_vectors(max_entry: u8, offset: u8) -> (r: Vec<u8>)
        requires
            max_entry < 255,
            max_entry + offset <= 255,
        ensures
            r@.len() == max_entry + 1,
            forall|i: int| 0 <= i <= max_entry ==> r@[i] == i + offset,
    {
        let end = max_entry + 1;
        let mut r: Vec<u8> = Vec::new();
        let mut i: u8 = 0;
        while i < end
            invariant
                end == max_entry + 1,
                max_entry + offset <= 255,
                i <= end,
                r@.len() == i,
                forall|j: int| 0 <= j < i ==> r@[j] == j + offset,
            decreases end - i,
        {
            r.push(i + offset);
            i = i + 1;
        }
        r
    }

    /// The high half of a redirection entry that delivers to the processors `dest`.
    pub fn entry_destination(dest: u32) -> (r: u32)
        ensures
            r == dest << 24u32,
    {
        dest << 24u32
    }
}

} // verus!
