//! Bit positions and register selectors of the x2APIC and the I/O APIC.
use vstd::prelude::*;

verus! {

/// Bit 11 of the APIC base register: the APIC is enabled.
pub const BASE_APIC_ENABLE: usize = 11;
/// Bit 10 of the APIC base register: the x2APIC mode is enabled.
pub const BASE_X2APIC_ENABLE: usize = 10;
/// Bit 8 of the APIC base register: this is the bootstrap processor.
pub const BASE_BSP: usize = 8;
/// Bit 24 of the version register: EOI broadcasts can be suppressed.
pub const VERSION_EOI_BCAST_SUPPRESSION: usize = 24;
/// Bit 12 of the spurious vector register: EOI broadcasts are suppressed.
pub const SIVR_EOI_BCAST_SUPPRESSION: usize = 12;
/// Bit 9 of the spurious vector register: focus processor checking.
pub const SIVR_FOCUS_PROCESSOR_CHECKING: usize = 9;
/// Bit 8 of the spurious vector register: the APIC is software enabled.
pub const SIVR_APIC_SOFTWARE_ENABLE: usize = 8;
/// Bit 15 of the interrupt command register: the trigger mode.
pub const ICR_TRIGGER_MODE: usize = 15;
/// Bit 14 of the interrupt command register: the level.
pub const ICR_LEVEL: usize = 14;
/// Bit 11 of the interrupt command register: the destination mode.
pub const ICR_DESTINATION_MODE: usize = 11;
/// Bit 16 of the timer entry: the entry is masked.
pub const LVT_TIMER_MASK: usize = 16;
/// The mask bit of an I/O APIC redirection entry.
pub const IRQ_MASK_BIT: u32 = 0x0001_0000;
/// The delivery mode bits of an I/O APIC redirection entry.
pub const IRQ_MODE_MASK: u32 = 0x0000_0700;
/// The I/O APIC identification register.
pub const IOAPIC_ID: u32 = 0x00;
/// The I/O APIC version register.
pub const IOAPIC_VERSION: u32 = 0x01;
/// The I/O APIC arbitration register.
pub const IOAPIC_ARBITRATION: u32 = 0x02;
/// The first register of the I/O APIC redirection table.
pub const IOAPIC_TABLE_BASE: u32 = 0x10;

} // verus!
