//! The RFLAGS register.
use crate::bits::RFlags;
use crate::ia_32e::cpu::msr::merged_flags;
use vstd::prelude::*;

verus! {

/// The flags of the RFLAGS value `raw`.
pub fn read_flags(raw: u64) -> (r: RFlags)
    ensures
        r.bits == raw & RFlags::ALL,
{
    RFlags::from_bits_truncate(raw)
}

/// The RFLAGS value that writes `flags` over the value `old_value`: the bits that no flag
/// defines are kept.
pub fn write_flags(old_value: u64, flags: RFlags) -> (r: u64)
    ensures
        r == merged_flags(old_value, RFlags::ALL, flags.bits),
{
    let reserved = old_value & !RFlags::all().bits();
    reserved | flags.bits()
}

} // verus!
