//! Flag sets of registers and descriptors.
pub mod bit_ops;
pub mod flags;

pub use flags::{
    CR0Flags, CR3Flags, CR4Flags, DescriptorFlags, EferFlags, GdtAccessFlags, GdtFlags, IdtFlags,
    IrqFlags, KernelSectionFlags, LVTEntryFlags, LocalAPICFlags, PageFaultErrorCode,
    PageTableFlags, RFlags,
};
