//! Whether interrupts are enabled.
use crate::bits::RFlags;
use crate::ia_32e::instructions::rflags::read_flags;
use vstd::prelude::*;

verus! {

/// Whether the RFLAGS value `raw` has the interrupt flag (bit 9) set.
pub fn are_enabled(raw: u64) -> (r: bool)
    ensures
        r == (raw & RFlags::ALL & RFlags::INTERRUPT_FLAG == RFlags::INTERRUPT_FLAG),
{
    read_flags(raw).contains(RFlags { bits: RFlags::INTERRUPT_FLAG })
}

} // verus!
