//! Data structures and rules of an x86_64 kernel: addresses, paging, descriptors,
//! interrupt controllers, PCI configuration space and a buddy heap allocator.
pub mod bits;
pub mod boot;
pub mod buddy_system_allocator;
pub mod ia_32e;
pub mod result;
pub mod devices;

pub use boot::{KernelArea, KernelArgs, KernelSectionType, SystemInformation};
