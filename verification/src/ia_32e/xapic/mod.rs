//! The local APIC in xAPIC mode, through its memory mapped registers.
pub mod consts;
pub mod xpaic;

pub use xpaic::xApic;
