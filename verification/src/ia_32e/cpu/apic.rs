//! The registers of the local and the I/O APIC.
use crate::bits::LocalAPICFlags;
use vstd::prelude::*;

pub use crate::ia_32e::cpu::msr::{Efer, FsBase, GsBase, KernelGsBase, MSR};

verus! {

/// The error status register of the local APIC.
#[derive(Clone, Copy, Debug, PartialEq, Eq, Structural)]
pub struct ESR(pub u32);

impl ESR {
    /// The register with the value `n`.
    pub fn new(n: u32) -> (r: Self)
        ensures
            r.0 == n,
    {
        Self(n)
    }

    /// The value this register reads as here: zero.
    pub fn read() -> (r: u32)
        ensures
            r == 0,
    {
        0
    }

    /// The error flags: the low byte of the register.
    pub fn flags(&self) -> (r: LocalAPICFlags)
        ensures
            r.bits == (self.0 as u8) & LocalAPICFlags::ALL,
    {
        LocalAPICFlags::from_bits_truncate(self.0 as u8)
    }
}

/// The task priority register of the local APIC (MSR 0x808).
pub struct TPR;

/// The processor priority register of the local APIC (MSR 0x80A), read only.
pub struct PPR;

/// The processor priority register CR8, as the local APIC sees it.
pub struct CR8;

impl CR8 {
    /// The value this register reads as here: zero.
    pub fn read() -> (r: u32)
        ensures
            r == 0,
    {
        0
    }
}

/// The interrupt request register (256 bits).
pub struct IRR;

impl IRR {
    /// The value this register reads as here: zero.
    pub fn read() -> (r: u32)
        ensures
            r == 0,
    {
        0
    }
}

/// The in-service register (256 bits).
pub struct ISR;

impl ISR {
    /// The value this register reads as here: zero.
    pub fn read() -> (r: u32)
        ensures
            r == 0,
    {
        0
    }
}

/// The trigger mode register (256 bits).
pub struct TMR;

impl TMR {
    /// The value this register reads as here: zero.
    pub fn read() -> (r: u32)
        ensures
            r == 0,
    {
        0
    }
}

/// The end-of-interrupt register (32 bits).
pub struct EOI;

impl EOI {
    /// The value this register reads as here: zero.
    pub fn read() -> (r: u32)
        ensures
            r == 0,
    {
        0
    }
}

/// The spurious interrupt vector register (32 bits).
pub struct SVR;

impl SVR {
    /// The value this register reads as here: zero.
    pub fn read() -> (r: u32)
        ensures
            r == 0,
    {
        0
    }
}

/// The I/O APIC register select register.
pub struct IOREGSEL(pub u32);

impl IOREGSEL {
    /// The value this register reads as here: zero.
    pub fn read() -> (r: u32)
        ensures
            r == 0,
    {
        0
    }
}

/// The I/O APIC data window register.
pub struct IOWIN(pub u32);

impl IOWIN {
    /// The value this register reads as here: zero.
    pub fn read() -> (r: u32)
        ensures
            r == 0,
    {
        0
    }
}

/// The I/O APIC end-of-interrupt register (write only).
pub struct IOEOI(pub u32);

/// The I/O APIC identification register.
pub struct IOAPICID(pub u32);

impl IOAPICID {
    /// The value this register reads as here: zero.
    pub fn read() -> (r: u32)
        ensures
            r == 0,
    {
        0
    }
}

/// The I/O APIC version register (read only).
pub struct IOAPICVER(pub u32);

impl IOAPICVER {
    /// The value this register reads as here: zero.
    pub fn read() -> (r: u32)
        ensures
            r == 0,
    {
        0
    }
}

/// The I/O APIC redirection table registers (24 of them, 0 to 23).
pub struct IOREDTBL(pub u32);

impl IOREDTBL {
    /// The value this register reads as here: zero.
    pub fn read() -> (r: u32)
        ensures
            r == 0,
    {
        0
    }
}

} // verus!
