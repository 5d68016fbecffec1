//! What the processor's instructions compute around their reads and writes of registers.
pub mod apic;
pub mod interrupt;
pub mod rflags;
