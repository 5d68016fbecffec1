//! The x2APIC local registers and the I/O APIC.
pub mod consts;
pub mod io_apic;

pub mod register;
