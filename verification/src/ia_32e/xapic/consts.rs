//! Offsets of the memory mapped local APIC registers and values written to them.
use vstd::prelude::*;

verus! {

/// The default address of the local APIC registers.
pub const LAPIC_ADDR: usize = 0xfee0_0000;
/// The CMOS address port.
pub const CMOS_PORT: u16 = 0x70;
/// The CMOS data port.
pub const CMOS_RETURN: u16 = 0x71;
/// The local APIC ID register.
pub const ID: u32 = 0x0020;
/// The version register.
pub const VER: u32 = 0x0030;
/// The task priority register.
pub const TPR: u32 = 0x0080;
/// The end-of-interrupt register.
pub const EOI: u32 = 0x00B0;
/// The spurious interrupt vector register.
pub const SVR: u32 = 0x00F0;
/// Unit enable.
pub const ENABLE: u32 = 0x00000100;
/// The error status register.
pub const ESR: u32 = 0x0280;
/// The interrupt command register, bits 0 to 31.
pub const ICRLO: u32 = 0x0300;
/// INIT/RESET.
pub const INIT: u32 = 0x00000500;
/// Startup IPI.
pub const STARTUP: u32 = 0x00000600;
/// Delivery status.
pub const DELIVS: u32 = 0x00001000;
/// Assert interrupt (vs deassert).
pub const ASSERT: u32 = 0x00004000;
/// Deassert interrupt.
pub const DEASSERT: u32 = 0x00000000;
/// Level triggered.
pub const LEVEL: u32 = 0x00008000;
/// Send to all APICs, including self.
pub const BCAST: u32 = 0x00080000;
/// Busy.
pub const BUSY: u32 = 0x00001000;
/// Fixed delivery.
pub const FIXED: u32 = 0x00000000;
/// The interrupt command register, bits 32 to 63.
pub const ICRHI: u32 = 0x0310;
/// The timer entry of the local vector table.
pub const TIMER: u32 = 0x0320;
/// Divide counts by 1.
pub const X1: u32 = 0x0000000B;
/// Periodic timer.
pub const PERIODIC: u32 = 0x00020000;
/// The performance counter entry of the local vector table.
pub const PCINT: u32 = 0x0340;
/// The LINT0 entry of the local vector table.
pub const LINT0: u32 = 0x0350;
/// The LINT1 entry of the local vector table.
pub const LINT1: u32 = 0x0360;
/// The error entry of the local vector table.
pub const ERROR: u32 = 0x0370;
/// Interrupt masked.
pub const MASKED: u32 = 0x00010000;
/// The timer initial count register.
pub const TICR: u32 = 0x0380;
/// The timer current count register.
pub const TCCR: u32 = 0x0390;
/// The timer divide configuration register.
pub const TDCR: u32 = 0x03E0;
/// The vector of IRQ 0.
pub const T_IRQ0: u32 = 32;
pub const IRQ_TIMER: u32 = 0;
pub const IRQ_KBD: u32 = 1;
pub const IRQ_COM1: u32 = 4;
pub const IRQ_IDE: u32 = 14;
pub const IRQ_ERROR: u32 = 19;
pub const IRQ_SPURIOUS: u32 = 31;

} // verus!
