//! Structures and rules of the IA-32e (x86_64) processor mode.
pub mod addr;
pub mod apic;
pub mod call_convention;
pub mod controller;
pub mod cpu;
pub mod descriptor;
pub mod instructions;
pub mod paging;
pub mod x2apic;
pub mod xapic;

pub use addr::{align_down, align_up, NoCanonicalAddr, NoInvalidPhysAddr, PhysAddr, VirtAddr};

use crate::ia_32e::x2apic::register::{IpiDestMode, TimerDivide, TimerMode};
use vstd::prelude::*;
use vstd::string::StringExecFns;

verus! {

/// The privilege level of the processor, from the most privileged ring 0 to ring 3.
#[derive(Clone, Copy, Debug, PartialEq, Eq, Structural)]
pub enum PrivilegedLevel {
    /// Ring 0, the kernel.
    Ring0,
    /// Ring 1.
    Ring1,
    /// Ring 2.
    Ring2,
    /// Ring 3, user programs.
    Ring3,
}

/// The number of a privilege level.
pub open spec fn level_value(level: PrivilegedLevel) -> u16 {
    match level {
        PrivilegedLevel::Ring0 => 0,
        PrivilegedLevel::Ring1 => 1,
        PrivilegedLevel::Ring2 => 2,
        PrivilegedLevel::Ring3 => 3,
    }
}

/// The privilege level numbered `level`, for `level` up to 3.
pub open spec fn level_of(level: u16) -> PrivilegedLevel {
    if level == 0 {
        PrivilegedLevel::Ring0
    } else if level == 1 {
        PrivilegedLevel::Ring1
    } else if level == 2 {
        PrivilegedLevel::Ring2
    } else {
        PrivilegedLevel::Ring3
    }
}

impl PrivilegedLevel {
    /// The privilege level numbered `level`; there is none above 3.
    pub fn from_u16(level: u16) -> (r: PrivilegedLevel)
        requires
            level <= 3,
        ensures
            r == level_of(level),
            level_value(r) == level,
    {
        match level {
            0 => PrivilegedLevel::Ring0,
            1 => PrivilegedLevel::Ring1,
            2 => PrivilegedLevel::Ring2,
            _ => PrivilegedLevel::Ring3,
        }
    }

    /// The number of the privilege level.
    pub fn as_u16(&self) -> (r: u16)
        ensures
            r == level_value(*self),
            r <= 3,
    {
        match self {
            PrivilegedLevel::Ring0 => 0,
            PrivilegedLevel::Ring1 => 1,
            PrivilegedLevel::Ring2 => 2,
            PrivilegedLevel::Ring3 => 3,
        }
    }
}

/// Numbering the privilege levels and reading the number back gives each level back.
pub proof fn law_level_roundtrip(level: PrivilegedLevel)
    ensures
        level_of(level_value(level)) == level,
        level_value(level) <= 3,
{
}

/// A `u64` meant to be written in hexadecimal.
#[derive(Clone, Copy, PartialEq, Eq, Structural)]
pub struct Hex(pub u64);

impl Hex {
    /// The value `d`.
    pub fn new(d: u64) -> (r: Hex)
        ensures
            r.0 == d,
    {
        Hex(d)
    }
}

/// The settings of the interrupt controllers, set one by one and checked by `build`.
#[derive(Clone, Copy)]
pub struct ApicInfo {
    /// The vector of the x2APIC timer interrupts.
    pub timer_vector: Option<usize>,
    /// The vector of the x2APIC's internal errors.
    pub error_vector: Option<usize>,
    /// The vector of spurious interrupts.
    pub spurious_vector: Option<usize>,
    /// The timer mode.
    pub timer_mode: Option<TimerMode>,
    /// The timer divide configuration.
    pub timer_divide: Option<TimerDivide>,
    /// The timer's initial count.
    pub timer_initial: Option<u32>,
    /// The destination mode of inter-processor interrupts.
    pub ipi_destination_mode: Option<IpiDestMode>,
    /// The offset of the I/O APIC's vectors.
    pub ioapic_offset: Option<u8>,
}

/// The settings with nothing set.
pub open spec fn empty_apic_info() -> ApicInfo {
    ApicInfo {
        timer_vector: None,
        error_vector: None,
        spurious_vector: None,
        timer_mode: None,
        timer_divide: None,
        timer_initial: None,
        ipi_destination_mode: None,
        ioapic_offset: None,
    }
}

impl ApicInfo {
    /// The settings with nothing set.
    pub fn new() -> (r: Self)
        ensures
            r == empty_apic_info(),
    {
        ApicInfo {
            timer_vector: None,
            error_vector: None,
            spurious_vector: None,
            timer_mode: None,
            timer_divide: None,
            timer_initial: None,
            ipi_destination_mode: None,
            ioapic_offset: None,
        }
    }

    /// Sets the offset of the I/O APIC's vectors; required.
    pub fn set_io_apic_offset(&mut self, arg: u8) -> (r: &mut Self)
        ensures
            *r == (ApicInfo { ioapic_offset: Some(arg), ..*old(self) }),
            *final(self) == *final(r),
    {
        self.ioapic_offset = Some(arg);
        self
    }

    /// Sets the vector of the timer interrupts; required.
    pub fn set_timer_vector(&mut self, arg: usize) -> (r: &mut Self)
        ensures
            *r == (ApicInfo { timer_vector: Some(arg), ..*old(self) }),
            *final(self) == *final(r),
    {
        self.timer_vector = Some(arg);
        self
    }

    /// Sets the vector of the APIC's internal errors; required.
    pub fn set_error_vector(&mut self, arg: usize) -> (r: &mut Self)
        ensures
            *r == (ApicInfo { error_vector: Some(arg), ..*old(self) }),
            *final(self) == *final(r),
    {
        self.error_vector = Some(arg);
        self
    }

    /// Sets the vector of spurious interrupts; required.
    pub fn set_spurious_vector(&mut self, arg: usize) -> (r: &mut Self)
        ensures
            *r == (ApicInfo { spurious_vector: Some(arg), ..*old(self) }),
            *final(self) == *final(r),
    {
        self.spurious_vector = Some(arg);
        self
    }

    /// Sets the timer mode.
    pub fn set_timer_mode(&mut self, arg: TimerMode) -> (r: &mut Self)
        ensures
            *r == (ApicInfo { timer_mode: Some(arg), ..*old(self) }),
            *final(self) == *final(r),
    {
        self.timer_mode = Some(arg);
        self
    }

    /// Sets the timer divide configuration.
    pub fn set_timer_divide(&mut self, arg: TimerDivide) -> (r: &mut Self)
        ensures
            *r == (ApicInfo { timer_divide: Some(arg), ..*old(self) }),
            *final(self) == *final(r),
    {
        self.timer_divide = Some(arg);
        self
    }

    /// Sets the timer's initial count.
    pub fn set_timer_initial(&mut self, arg: u32) -> (r: &mut Self)
        ensures
            *r == (ApicInfo { timer_initial: Some(arg), ..*old(self) }),
            *final(self) == *final(r),
    {
        self.timer_initial = Some(arg);
        self
    }

    /// Sets the destination mode of inter-processor interrupts.
    pub fn set_ipi_destination_mode(&mut self, arg: IpiDestMode) -> (r: &mut Self)
        ensures
            *r == (ApicInfo { ipi_destination_mode: Some(arg), ..*old(self) }),
            *final(self) == *final(r),
    {
        self.ipi_destination_mode = Some(arg);
        self
    }

    /// The settings, or an error where a required field is empty: "x2apic: required
    /// field(s) empty" where the timer, the error or the spurious vector is missing, and
    /// otherwise "xapic: required field(s) empty" where the I/O APIC offset is missing.
    pub fn build(self) -> (r: Result<Self, String>)
        ensures
            match r {
                Ok(info) => info == self && self.timer_vector is Some && self.error_vector is Some
                    && self.spurious_vector is Some && self.ioapic_offset is Some,
                Err(msg) => if self.timer_vector is None || self.error_vector is None
                    || self.spurious_vector is None {
                    msg@ == "x2apic: required field(s) empty"@
                } else {
                    self.ioapic_offset is None && msg@ == "xapic: required field(s) empty"@
                },
            },
    {
        if self.timer_vector.is_none() || self.error_vector.is_none()
            || self.spurious_vector.is_none() {
            return Err(String::from_str("x2apic: required field(s) empty"));
        }
        if self.ioapic_offset.is_none() {
            return Err(String::from_str("xapic: required field(s) empty"));
        }
        Ok(self)
    }
}

} // verus!
