//! Model specific registers.
use crate::bits::EferFlags;
use vstd::prelude::*;

verus! {

/// The APIC base address register.
pub const IA32_APIC_BASE: u32 = 0x1B;
/// The x2APIC ID register.
pub const IA32_X2APIC_APICID: u32 = 0x802;
/// The x2APIC version register.
pub const IA32_X2APIC_VERSION: u32 = 0x803;
/// The x2APIC task priority register.
pub const IA32_X2APIC_TPR: u32 = 0x808;
/// The x2APIC processor priority register.
pub const IA32_X2APIC_PPR: u32 = 0x80A;
/// The x2APIC end-of-interrupt register.
pub const IA32_X2APIC_EOI: u32 = 0x80B;
/// The x2APIC logical destination register.
pub const IA32_X2APIC_LDR: u32 = 0x80D;
/// The x2APIC spurious interrupt vector register.
pub const IA32_X2APIC_SIVR: u32 = 0x80F;
pub const IA32_X2APIC_ISR0: u32 = 0x810;
pub const IA32_X2APIC_ISR1: u32 = 0x811;
pub const IA32_X2APIC_ISR2: u32 = 0x812;
pub const IA32_X2APIC_ISR3: u32 = 0x813;
pub const IA32_X2APIC_ISR4: u32 = 0x814;
pub const IA32_X2APIC_ISR5: u32 = 0x815;
pub const IA32_X2APIC_ISR6: u32 = 0x816;
pub const IA32_X2APIC_ISR7: u32 = 0x817;
pub const IA32_X2APIC_TMR0: u32 = 0x818;
pub const IA32_X2APIC_TMR1: u32 = 0x819;
pub const IA32_X2APIC_TMR2: u32 = 0x81A;
pub const IA32_X2APIC_TMR3: u32 = 0x81B;
pub const IA32_X2APIC_TMR4: u32 = 0x81C;
pub const IA32_X2APIC_TMR5: u32 = 0x81D;
pub const IA32_X2APIC_TMR6: u32 = 0x81E;
pub const IA32_X2APIC_TMR7: u32 = 0x81F;
pub const IA32_X2APIC_IRR0: u32 = 0x820;
pub const IA32_X2APIC_IRR1: u32 = 0x821;
pub const IA32_X2APIC_IRR2: u32 = 0x822;
pub const IA32_X2APIC_IRR3: u32 = 0x823;
pub const IA32_X2APIC_IRR4: u32 = 0x824;
pub const IA32_X2APIC_IRR5: u32 = 0x825;
pub const IA32_X2APIC_IRR6: u32 = 0x826;
pub const IA32_X2APIC_IRR7: u32 = 0x827;
/// The x2APIC error status register.
pub const IA32_X2APIC_ESR: u32 = 0x828;
/// The x2APIC interrupt command register.
pub const IA32_X2APIC_ICR: u32 = 0x830;
pub const IA32_X2APIC_LVT_TIMER: u32 = 0x832;
pub const IA32_X2APIC_LVT_THERMAL: u32 = 0x833;
pub const IA32_X2APIC_LVT_PMI: u32 = 0x834;
pub const IA32_X2APIC_LVT_LINT0: u32 = 0x835;
pub const IA32_X2APIC_LVT_LINT1: u32 = 0x836;
pub const IA32_X2APIC_LVT_ERROR: u32 = 0x837;
/// The x2APIC timer initial count register.
pub const IA32_X2APIC_INIT_COUNT: u32 = 0x838;
/// The x2APIC timer current count register.
pub const IA32_X2APIC_CUR_COUNT: u32 = 0x839;
/// The x2APIC timer divide configuration register.
pub const IA32_X2APIC_DIV_CONF: u32 = 0x83E;
/// The x2APIC self IPI register.
pub const IA32_X2APIC_SELF_IPI: u32 = 0x83F;

/// A model specific register, by number.
#[derive(Clone, Copy, Debug, PartialEq, Eq, Structural)]
pub struct MSR(pub u32);

impl MSR {
    /// The register numbered `n`.
    pub fn new(n: u32) -> (r: Self)
        ensures
            r.0 == n,
    {
        MSR(n)
    }
}

/// The 64-bit value of a register that `rdmsr` reads as its high and low halves.
pub fn msr_value(high: u32, low: u32) -> (r: u64)
    ensures
        r == ((high as u64) << 32u64) | (low as u64),
{
    ((high as u64) << 32u64) | (low as u64)
}

/// The low and the high half in which `wrmsr` writes `data`.
pub fn msr_halves(data: u64) -> (r: (u32, u32))
    ensures
        r.0 == data as u32,
        r.1 == (data >> 32u64) as u32,
{
    (data as u32, (data >> 32u64) as u32)
}

/// Splitting a value into the halves that `wrmsr` writes and joining the halves that
/// `rdmsr` reads give the value back.
pub proof fn law_msr_halves_roundtrip(data: u64)
    ensures
        ((((data >> 32u64) as u32) as u64) << 32u64) | ((data as u32) as u64) == data,
{
    assert(((((data >> 32u64) as u32) as u64) << 32u64) | ((data as u32) as u64) == data)
        by (bit_vector);
}

/// The extended feature enable register.
pub struct Efer;

/// The FS base register.
pub struct FsBase;

/// The GS base register.
pub struct GsBase;

/// The kernel GS base register.
pub struct KernelGsBase;

/// The value a flag register takes when `flags` is written over `old_value`: the bits
/// that no flag defines (`all`) are kept from `old_value`, the others come from `flags`.
pub open spec fn merged_flags(old_value: u64, all: u64, flags: u64) -> u64 {
    (old_value & !all) | flags
}

impl Efer {
    /// The register's number.
    pub fn msr() -> (r: MSR)
        ensures
            r.0 == 0xC0000080,
    {
        MSR(0xC0000080)
    }

    /// The flags of the register value `raw`.
    pub fn read(raw: u64) -> (r: EferFlags)
        ensures
            r.bits == raw & EferFlags::ALL,
    {
        EferFlags::from_bits_truncate(raw)
    }

    /// Whether the register value `raw` has long mode enabled.
    pub fn enable_long_mode(raw: u64) -> (r: bool)
        ensures
            r == (raw & EferFlags::ALL & EferFlags::LONG_MODE_ENABLE == EferFlags::LONG_MODE_ENABLE),
    {
        Self::read(raw).contains(EferFlags { bits: EferFlags::LONG_MODE_ENABLE })
    }

    /// The value that writes `flags` over the register value `old_value`.
    pub fn write(old_value: u64, flags: EferFlags) -> (r: u64)
        ensures
            r == merged_flags(old_value, EferFlags::ALL, flags.bits),
    {
        let reserved = old_value & !EferFlags::all().bits();
        reserved | flags.bits()
    }
}

impl FsBase {
    /// The register's number.
    pub fn msr() -> (r: MSR)
        ensures
            r.0 == 0xC000_0100,
    {
        MSR(0xC000_0100)
    }
}

impl GsBase {
    /// The register's number.
    pub fn msr() -> (r: MSR)
        ensures
            r.0 == 0xC000_0101,
    {
        MSR(0xC000_0101)
    }
}

impl KernelGsBase {
    /// The register's number.
    pub fn msr() -> (r: MSR)
        ensures
            r.0 == 0xC000_0102,
    {
        MSR(0xC000_0102)
    }
}

/// Writing flags keeps the bits that no flag defines and reads back as the flags written
/// (where the flags hold only defined bits).
pub proof fn law_merged_flags(old_value: u64, all: u64, flags: u64)
    requires
        flags & !all == 0,
    ensures
        merged_flags(old_value, all, flags) & all == flags,
        merged_flags(old_value, all, flags) & !all == old_value & !all,
{
    assert(((old_value & !all) | flags) & all == flags && ((old_value & !all) | flags) & !all
        == old_value & !all) by (bit_vector)
        requires
            flags & !all == 0,
    ;
}

} // verus!
