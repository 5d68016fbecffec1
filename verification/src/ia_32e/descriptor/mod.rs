//! The descriptors of the processor: segment selectors, the global and the interrupt
//! descriptor tables.
pub mod descriptors;
pub mod gdt;
pub mod idt;

pub mod segment;

pub use descriptors::{Descriptor, DescriptorTablePointer};
pub use gdt::GlobalDescriptorTable;
pub use idt::{EntryOptions, InterruptDescriptorTable};

pub use segment::SegmentSelector;
