//! The control registers CR0, CR2, CR3 and CR4.
use crate::bits::{CR0Flags, CR3Flags, CR4Flags};
use crate::ia_32e::cpu::msr::merged_flags;
use crate::ia_32e::paging::{Frame, Page4KB};
use crate::ia_32e::PhysAddr;
use vstd::prelude::*;

verus! {

/// Control register 0.
pub struct CR0;

/// Control register 2: the address of the last page fault.
pub struct CR2;

/// Control register 3: the frame of the level 4 page table.
pub struct CR3;

/// Control register 4.
pub struct CR4;

/// The bits of CR3 that hold the physical address of the level 4 table.
pub const CR3_ADDR_MASK: u64 = 0x000F_FFFF_FFFF_F000;

impl CR0 {
    /// The flags of the register value `raw`.
    pub fn read(raw: u64) -> (r: CR0Flags)
        ensures
            r.bits == raw & CR0Flags::ALL,
    {
        CR0Flags::from_bits_truncate(raw)
    }

    /// The value that writes `flags` over the register value `old`.
    pub fn write(old: u64, flags: CR0Flags) -> (r: u64)
        ensures
            r == merged_flags(old, CR0Flags::ALL, flags.bits),
    {
        let reserved = old & !CR0Flags::all().bits();
        reserved | flags.bits()
    }
}

impl CR3 {
    /// The frame of the level 4 table and the flags of the register value `data`.
    pub fn read(data: u64) -> (r: (Frame<Page4KB>, CR3Flags))
        ensures
            r.0.start() == data & CR3_ADDR_MASK,
            r.1.bits == data & CR3Flags::ALL,
    {
        let flags = CR3Flags::from_bits_truncate(data);
        let masked = data & 0x000F_FFFF_FFFF_F000;
        assert(masked >> 52u64 == 0 && masked & 0xfff == 0) by (bit_vector)
            requires
                masked == data & 0x000F_FFFF_FFFF_F000,
        ;
        let addr = PhysAddr::new(masked);
        let frame = Frame::include_address(addr);
        (frame, flags)
    }

    /// The register value for the level 4 table in `frame` with the flags `flags`.
    pub fn write(frame: Frame<Page4KB>, flags: CR3Flags) -> (r: u64)
        ensures
            r == frame.start() | flags.bits,
    {
        let addr = frame.start_address();
        addr.as_u64() | flags.bits()
    }
}

impl CR4 {
    /// The flags of the register value `raw`.
    pub fn read(raw: u64) -> (r: CR4Flags)
        ensures
            r.bits == raw & CR4Flags::ALL,
    {
        CR4Flags::from_bits_truncate(raw)
    }

    /// The value that writes `flags` over the register value `old`.
    pub fn write(old: u64, flags: CR4Flags) -> (r: u64)
        ensures
            r == merged_flags(old, CR4Flags::ALL, flags.bits),
    {
        let reserved = old & !CR4Flags::all().bits();
        reserved | flags.bits()
    }
}

} // verus!
