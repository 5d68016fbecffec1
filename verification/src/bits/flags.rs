//! Bit flag sets of the x86_64 registers and structures.

use vstd::prelude::*;

verus! {

/// Kernel section flags of an ELF section header.
#[derive(Clone, Copy, PartialEq, Eq, Structural, Debug)]
pub struct KernelSectionFlags {
    pub bits: u64,
}

impl KernelSectionFlags {
    /// The section contains data that should be writable during program execution.
    pub const WRITABLE: u64 = 0x1;
    /// The section occupies memory during the process execution.
    pub const ALLOCATED: u64 = 0x2;
    /// The section contains executable machine instructions.
    pub const EXECUTABLE: u64 = 0x4;
    /// The union of every defined flag.
    pub const ALL: u64 = 0x7;

    /// The value with no flag set.
    pub fn empty() -> (r: Self)
        ensures
            r.bits == 0,
    {
        KernelSectionFlags { bits: 0 }
    }

    /// The value with every defined flag set.
    pub fn all() -> (r: Self)
        ensures
            r.bits == Self::ALL,
    {
        KernelSectionFlags { bits: Self::ALL }
    }

    /// The raw bits.
    pub fn bits(&self) -> (r: u64)
        ensures
            r == self.bits,
    {
        self.bits
    }

    /// The flags of `bits`, or `None` where `bits` holds a bit that no flag defines.
    pub fn from_bits(bits: u64) -> (r: Option<Self>)
        ensures
            r is Some <==> bits & !Self::ALL == 0,
            r is Some ==> r->0.bits == bits,
    {
        if bits & !Self::ALL == 0 {
            Some(KernelSectionFlags { bits })
        } else {
            None
        }
    }

    /// The flags of `bits`, with every bit that no flag defines dropped.
    pub fn from_bits_truncate(bits: u64) -> (r: Self)
        ensures
            r.bits == bits & Self::ALL,
    {
        KernelSectionFlags { bits: bits & Self::ALL }
    }

    /// Whether every flag of `other` is set in `self`.
    pub fn contains(&self, other: Self) -> (r: bool)
        ensures
            r == (self.bits & other.bits == other.bits),
    {
        self.bits & other.bits == other.bits
    }

    /// Whether no flag is set.
    pub fn is_empty(&self) -> (r: bool)
        ensures
            r == (self.bits == 0),
    {
        self.bits == 0
    }

    /// The flags set in either value.
    pub fn union(self, other: Self) -> (r: Self)
        ensures
            r.bits == self.bits | other.bits,
    {
        KernelSectionFlags { bits: self.bits | other.bits }
    }

    /// The flags set in both values.
    pub fn intersection(self, other: Self) -> (r: Self)
        ensures
            r.bits == self.bits & other.bits,
    {
        KernelSectionFlags { bits: self.bits & other.bits }
    }

    /// Sets the flags of `other`.
    pub fn insert(&mut self, other: Self)
        ensures
            final(self).bits == old(self).bits | other.bits,
    {
        self.bits = self.bits | other.bits;
    }

    /// Clears the flags of `other`.
    pub fn remove(&mut self, other: Self)
        ensures
            final(self).bits == old(self).bits & !other.bits,
    {
        self.bits = self.bits & !other.bits;
    }
}

/// Error code pushed by the processor on a page fault.
#[derive(Clone, Copy, PartialEq, Eq, Structural, Debug)]
pub struct PageFaultErrorCode {
    pub bits: u64,
}

impl PageFaultErrorCode {
    pub const PROTECTION_VIOLATION: u64 = 0x1;
    pub const CAUSED_BY_WRITE: u64 = 0x2;
    pub const USER_MODE: u64 = 0x4;
    pub const MALFORMED_TABLE: u64 = 0x8;
    pub const INSTRUCTION_FETCH: u64 = 0x10;
    /// The union of every defined flag.
    pub const ALL: u64 = 0x1f;

    /// The value with no flag set.
    pub fn empty() -> (r: Self)
        ensures
            r.bits == 0,
    {
        PageFaultErrorCode { bits: 0 }
    }

    /// The value with every defined flag set.
    pub fn all() -> (r: Self)
        ensures
            r.bits == Self::ALL,
    {
        PageFaultErrorCode { bits: Self::ALL }
    }

    /// The raw bits.
    pub fn bits(&self) -> (r: u64)
        ensures
            r == self.bits,
    {
        self.bits
    }

    /// The flags of `bits`, or `None` where `bits` holds a bit that no flag defines.
    pub fn from_bits(bits: u64) -> (r: Option<Self>)
        ensures
            r is Some <==> bits & !Self::ALL == 0,
            r is Some ==> r->0.bits == bits,
    {
        if bits & !Self::ALL == 0 {
            Some(PageFaultErrorCode { bits })
        } else {
            None
        }
    }

    /// The flags of `bits`, with every bit that no flag defines dropped.
    pub fn from_bits_truncate(bits: u64) -> (r: Self)
        ensures
            r.bits == bits & Self::ALL,
    {
        PageFaultErrorCode { bits: bits & Self::ALL }
    }

    /// Whether every flag of `other` is set in `self`.
    pub fn contains(&self, other: Self) -> (r: bool)
        ensures
            r == (self.bits & other.bits == other.bits),
    {
        self.bits & other.bits == other.bits
    }

    /// Whether no flag is set.
    pub fn is_empty(&self) -> (r: bool)
        ensures
            r == (self.bits == 0),
    {
        self.bits == 0
    }

    /// The flags set in either value.
    pub fn union(self, other: Self) -> (r: Self)
        ensures
            r.bits == self.bits | other.bits,
    {
        PageFaultErrorCode { bits: self.bits | other.bits }
    }

    /// The flags set in both values.
    pub fn intersection(self, other: Self) -> (r: Self)
        ensures
            r.bits == self.bits & other.bits,
    {
        PageFaultErrorCode { bits: self.bits & other.bits }
    }

    /// Sets the flags of `other`.
    pub fn insert(&mut self, other: Self)
        ensures
            final(self).bits == old(self).bits | other.bits,
    {
        self.bits = self.bits | other.bits;
    }

    /// Clears the flags of `other`.
    pub fn remove(&mut self, other: Self)
        ensures
            final(self).bits == old(self).bits & !other.bits,
    {
        self.bits = self.bits & !other.bits;
    }
}

/// I/O APIC redirection table entry flags.
#[derive(Clone, Copy, PartialEq, Eq, Structural, Debug)]
pub struct IrqFlags {
    pub bits: u32,
}

impl IrqFlags {
    /// Level-triggered interrupt (vs edge-triggered).
    pub const LEVEL_TRIGGERED: u32 = 0x8000;
    /// Low-polarity interrupt signal (vs high-polarity).
    pub const LOW_ACTIVE: u32 = 0x2000;
    /// Logical destination mode (vs physical).
    pub const LOGICAL_DEST: u32 = 0x800;
    /// The union of every defined flag.
    pub const ALL: u32 = 0xa800;

    /// The value with no flag set.
    pub fn empty() -> (r: Self)
        ensures
            r.bits == 0,
    {
        IrqFlags { bits: 0 }
    }

    /// The value with every defined flag set.
    pub fn all() -> (r: Self)
        ensures
            r.bits == Self::ALL,
    {
        IrqFlags { bits: Self::ALL }
    }

    /// The raw bits.
    pub fn bits(&self) -> (r: u32)
        ensures
            r == self.bits,
    {
        self.bits
    }

    /// The flags of `bits`, or `None` where `bits` holds a bit that no flag defines.
    pub fn from_bits(bits: u32) -> (r: Option<Self>)
        ensures
            r is Some <==> bits & !Self::ALL == 0,
            r is Some ==> r->0.bits == bits,
    {
        if bits & !Self::ALL == 0 {
            Some(IrqFlags { bits })
        } else {
            None
        }
    }

    /// The flags of `bits`, with every bit that no flag defines dropped.
    pub fn from_bits_truncate(bits: u32) -> (r: Self)
        ensures
            r.bits == bits & Self::ALL,
    {
        IrqFlags { bits: bits & Self::ALL }
    }

    /// Whether every flag of `other` is set in `self`.
    pub fn contains(&self, other: Self) -> (r: bool)
        ensures
            r == (self.bits & other.bits == other.bits),
    {
        self.bits & other.bits == other.bits
    }

    /// Whether no flag is set.
    pub fn is_empty(&self) -> (r: bool)
        ensures
            r == (self.bits == 0),
    {
        self.bits == 0
    }

    /// The flags set in either value.
    pub fn union(self, other: Self) -> (r: Self)
        ensures
            r.bits == self.bits | other.bits,
    {
        IrqFlags { bits: self.bits | other.bits }
    }

    /// The flags set in both values.
    pub fn intersection(self, other: Self) -> (r: Self)
        ensures
            r.bits == self.bits & other.bits,
    {
        IrqFlags { bits: self.bits & other.bits }
    }

    /// Sets the flags of `other`.
    pub fn insert(&mut self, other: Self)
        ensures
            final(self).bits == old(self).bits | other.bits,
    {
        self.bits = self.bits | other.bits;
    }

    /// Clears the flags of `other`.
    pub fn remove(&mut self, other: Self)
        ensures
            final(self).bits == old(self).bits & !other.bits,
    {
        self.bits = self.bits & !other.bits;
    }
}

/// Error status flags of the local APIC.
#[derive(Clone, Copy, PartialEq, Eq, Structural, Debug)]
pub struct LocalAPICFlags {
    pub bits: u8,
}

impl LocalAPICFlags {
    pub const SEND_CHECKSUM_ERROR: u8 = 0x1;
    pub const RECV_CHECKSUM_ERROR: u8 = 0x2;
    pub const SEND_INTERRUPT_MSG_ACCPT_ERROR: u8 = 0x4;
    pub const RECV_INTERRUPT_MSG_ACCPT_ERROR: u8 = 0x8;
    pub const IPI_CANNOT_ORIENTED_CORRECTLY: u8 = 0x10;
    pub const SEND_INTERRUPT_VECOTR_INVALID: u8 = 0x20;
    pub const RECV_INTERRUPT_VECOTR_INVALID: u8 = 0x40;
    pub const REGISTER_ADDRESS_INVALID: u8 = 0x80;
    /// The union of every defined flag.
    pub const ALL: u8 = 0xff;

    /// The value with no flag set.
    pub fn empty() -> (r: Self)
        ensures
            r.bits == 0,
    {
        LocalAPICFlags { bits: 0 }
    }

    /// The value with every defined flag set.
    pub fn all() -> (r: Self)
        ensures
            r.bits == Self::ALL,
    {
        LocalAPICFlags { bits: Self::ALL }
    }

    /// The raw bits.
    pub fn bits(&self) -> (r: u8)
        ensures
            r == self.bits,
    {
        self.bits
    }

    /// The flags of `bits`, or `None` where `bits` holds a bit that no flag defines.
    pub fn from_bits(bits: u8) -> (r: Option<Self>)
        ensures
            r is Some <==> bits & !Self::ALL == 0,
            r is Some ==> r->0.bits == bits,
    {
        if bits & !Self::ALL == 0 {
            Some(LocalAPICFlags { bits })
        } else {
            None
        }
    }

    /// The flags of `bits`, with every bit that no flag defines dropped.
    pub fn from_bits_truncate(bits: u8) -> (r: Self)
        ensures
            r.bits == bits & Self::ALL,
    {
        LocalAPICFlags { bits: bits & Self::ALL }
    }

    /// Whether every flag of `other` is set in `self`.
    pub fn contains(&self, other: Self) -> (r: bool)
        ensures
            r == (self.bits & other.bits == other.bits),
    {
        self.bits & other.bits == other.bits
    }

    /// Whether no flag is set.
    pub fn is_empty(&self) -> (r: bool)
        ensures
            r == (self.bits == 0),
    {
        self.bits == 0
    }

    /// The flags set in either value.
    pub fn union(self, other: Self) -> (r: Self)
        ensures
            r.bits == self.bits | other.bits,
    {
        LocalAPICFlags { bits: self.bits | other.bits }
    }

    /// The flags set in both values.
    pub fn intersection(self, other: Self) -> (r: Self)
        ensures
            r.bits == self.bits & other.bits,
    {
        LocalAPICFlags { bits: self.bits & other.bits }
    }

    /// Sets the flags of `other`.
    pub fn insert(&mut self, other: Self)
        ensures
            final(self).bits == old(self).bits | other.bits,
    {
        self.bits = self.bits | other.bits;
    }

    /// Clears the flags of `other`.
    pub fn remove(&mut self, other: Self)
        ensures
            final(self).bits == old(self).bits & !other.bits,
    {
        self.bits = self.bits & !other.bits;
    }
}

/// Local vector table entry flags.
#[derive(Clone, Copy, PartialEq, Eq, Structural, Debug)]
pub struct LVTEntryFlags {
    pub bits: u32,
}

impl LVTEntryFlags {
    pub const DELIVERY_MODE_1: u32 = 0x100;
    pub const DELIVERY_MODE_2: u32 = 0x200;
    pub const DELIVERY_MODE_3: u32 = 0x400;
    /// Fixed delivery: the three delivery mode bits intersected.
    pub const DELIVERY_FIXED: u32 = 0x0;
    pub const DELIVERY_SMI: u32 = 0x200;
    pub const DELIVERY_NMI: u32 = 0x400;
    pub const DELIVERY_EXT_INT: u32 = 0x700;
    pub const DELIVERY_INIT: u32 = 0x500;
    pub const DELIVERY_STATUS: u32 = 0x1000;
    pub const INTERRUPT_INPUT_PIN_POLARITY: u32 = 0x2000;
    pub const REMOTE_IRR: u32 = 0x4000;
    pub const TRIGGER_MODE: u32 = 0x8000;
    pub const MASK_FLAGS: u32 = 0x10000;
    pub const TIMER_MODE_1: u32 = 0x20000;
    pub const TIMER_MODE_2: u32 = 0x40000;
    /// One-shot timer: the two timer mode bits intersected.
    pub const TIMER_ONE_SHOT: u32 = 0x0;
    pub const TIMER_PERIODIC: u32 = 0x20000;
    pub const TIMER_TSC_DEADLINE: u32 = 0x40000;
    /// The union of every defined flag.
    pub const ALL: u32 = 0x7f700;

    /// The value with no flag set.
    pub fn empty() -> (r: Self)
        ensures
            r.bits == 0,
    {
        LVTEntryFlags { bits: 0 }
    }

    /// The value with every defined flag set.
    pub fn all() -> (r: Self)
        ensures
            r.bits == Self::ALL,
    {
        LVTEntryFlags { bits: Self::ALL }
    }

    /// The raw bits.
    pub fn bits(&self) -> (r: u32)
        ensures
            r == self.bits,
    {
        self.bits
    }

    /// The flags of `bits`, or `None` where `bits` holds a bit that no flag defines.
    pub fn from_bits(bits: u32) -> (r: Option<Self>)
        ensures
            r is Some <==> bits & !Self::ALL == 0,
            r is Some ==> r->0.bits == bits,
    {
        if bits & !Self::ALL == 0 {
            Some(LVTEntryFlags { bits })
        } else {
            None
        }
    }

    /// The flags of `bits`, with every bit that no flag defines dropped.
    pub fn from_bits_truncate(bits: u32) -> (r: Self)
        ensures
            r.bits == bits & Self::ALL,
    {
        LVTEntryFlags { bits: bits & Self::ALL }
    }

    /// Whether every flag of `other` is set in `self`.
    pub fn contains(&self, other: Self) -> (r: bool)
        ensures
            r == (self.bits & other.bits == other.bits),
    {
        self.bits & other.bits == other.bits
    }

    /// Whether no flag is set.
    pub fn is_empty(&self) -> (r: bool)
        ensures
            r == (self.bits == 0),
    {
        self.bits == 0
    }

    /// The flags set in either value.
    pub fn union(self, other: Self) -> (r: Self)
        ensures
            r.bits == self.bits | other.bits,
    {
        LVTEntryFlags { bits: self.bits | other.bits }
    }

    /// The flags set in both values.
    pub fn intersection(self, other: Self) -> (r: Self)
        ensures
            r.bits == self.bits & other.bits,
    {
        LVTEntryFlags { bits: self.bits & other.bits }
    }

    /// Sets the flags of `other`.
    pub fn insert(&mut self, other: Self)
        ensures
            final(self).bits == old(self).bits | other.bits,
    {
        self.bits = self.bits | other.bits;
    }

    /// Clears the flags of `other`.
    pub fn remove(&mut self, other: Self)
        ensures
            final(self).bits == old(self).bits & !other.bits,
    {
        self.bits = self.bits & !other.bits;
    }
}

/// Flags of a page table entry.
#[derive(Clone, Copy, PartialEq, Eq, Structural, Debug)]
pub struct PageTableFlags {
    pub bits: u64,
}

impl PageTableFlags {
    pub const PRESENT: u64 = 0x1;
    pub const WRITABLE: u64 = 0x2;
    pub const USER_ACCESSIBLE: u64 = 0x4;
    pub const WRITE_THROUGH: u64 = 0x8;
    pub const NO_CACHE: u64 = 0x10;
    pub const ACCESSED: u64 = 0x20;
    pub const DIRTY: u64 = 0x40;
    pub const HUGE_PAGE: u64 = 0x80;
    pub const GLOBAL: u64 = 0x100;
    pub const BIT_9: u64 = 0x200;
    pub const BIT_10: u64 = 0x400;
    pub const BIT_11: u64 = 0x800;
    pub const BIT_52: u64 = 0x10000000000000;
    pub const BIT_53: u64 = 0x20000000000000;
    pub const BIT_54: u64 = 0x40000000000000;
    pub const BIT_55: u64 = 0x80000000000000;
    pub const BIT_56: u64 = 0x100000000000000;
    pub const BIT_57: u64 = 0x200000000000000;
    pub const BIT_58: u64 = 0x400000000000000;
    pub const BIT_59: u64 = 0x800000000000000;
    pub const PROTECTION_60: u64 = 0x1000000000000000;
    pub const PROTECTION_61: u64 = 0x2000000000000000;
    pub const PROTECTION_62: u64 = 0x4000000000000000;
    pub const NO_EXECUTE: u64 = 0x8000000000000000;
    /// The union of every defined flag.
    pub const ALL: u64 = 0xfff0000000000fff;

    /// The value with no flag set.
    pub fn empty() -> (r: Self)
        ensures
            r.bits == 0,
    {
        PageTableFlags { bits: 0 }
    }

    /// The value with every defined flag set.
    pub fn all() -> (r: Self)
        ensures
            r.bits == Self::ALL,
    {
        PageTableFlags { bits: Self::ALL }
    }

    /// The raw bits.
    pub fn bits(&self) -> (r: u64)
        ensures
            r == self.bits,
    {
        self.bits
    }

    /// The flags of `bits`, or `None` where `bits` holds a bit that no flag defines.
    pub fn from_bits(bits: u64) -> (r: Option<Self>)
        ensures
            r is Some <==> bits & !Self::ALL == 0,
            r is Some ==> r->0.bits == bits,
    {
        if bits & !Self::ALL == 0 {
            Some(PageTableFlags { bits })
        } else {
            None
        }
    }

    /// The flags of `bits`, with every bit that no flag defines dropped.
    pub fn from_bits_truncate(bits: u64) -> (r: Self)
        ensures
            r.bits == bits & Self::ALL,
    {
        PageTableFlags { bits: bits & Self::ALL }
    }

    /// Whether every flag of `other` is set in `self`.
    pub fn contains(&self, other: Self) -> (r: bool)
        ensures
            r == (self.bits & other.bits == other.bits),
    {
        self.bits & other.bits == other.bits
    }

    /// Whether no flag is set.
    pub fn is_empty(&self) -> (r: bool)
        ensures
            r == (self.bits == 0),
    {
        self.bits == 0
    }

    /// The flags set in either value.
    pub fn union(self, other: Self) -> (r: Self)
        ensures
            r.bits == self.bits | other.bits,
    {
        PageTableFlags { bits: self.bits | other.bits }
    }

    /// The flags set in both values.
    pub fn intersection(self, other: Self) -> (r: Self)
        ensures
            r.bits == self.bits & other.bits,
    {
        PageTableFlags { bits: self.bits & other.bits }
    }

    /// Sets the flags of `other`.
    pub fn insert(&mut self, other: Self)
        ensures
            final(self).bits == old(self).bits | other.bits,
    {
        self.bits = self.bits | other.bits;
    }

    /// Clears the flags of `other`.
    pub fn remove(&mut self, other: Self)
        ensures
            final(self).bits == old(self).bits & !other.bits,
    {
        self.bits = self.bits & !other.bits;
    }
}

/// Flags of a GDT segment descriptor.
#[derive(Clone, Copy, PartialEq, Eq, Structural, Debug)]
pub struct DescriptorFlags {
    pub bits: u64,
}

impl DescriptorFlags {
    pub const ACCESSED: u64 = 0x10000000000;
    pub const WRITABLE: u64 = 0x20000000000;
    pub const CONFORMING: u64 = 0x40000000000;
    pub const EXECUTABLE: u64 = 0x80000000000;
    pub const USER_SEGMENT: u64 = 0x100000000000;
    pub const PRESENT: u64 = 0x800000000000;
    pub const LONG_MODE: u64 = 0x20000000000000;
    pub const DPL_RING_0: u64 = 0x0;
    pub const DPL_RING_3: u64 = 0x600000000000;
    /// The union of every defined flag.
    pub const ALL: u64 = 0x20ff0000000000;

    /// The value with no flag set.
    pub fn empty() -> (r: Self)
        ensures
            r.bits == 0,
    {
        DescriptorFlags { bits: 0 }
    }

    /// The value with every defined flag set.
    pub fn all() -> (r: Self)
        ensures
            r.bits == Self::ALL,
    {
        DescriptorFlags { bits: Self::ALL }
    }

    /// The raw bits.
    pub fn bits(&self) -> (r: u64)
        ensures
            r == self.bits,
    {
        self.bits
    }

    /// The flags of `bits`, or `None` where `bits` holds a bit that no flag defines.
    pub fn from_bits(bits: u64) -> (r: Option<Self>)
        ensures
            r is Some <==> bits & !Self::ALL == 0,
            r is Some ==> r->0.bits == bits,
    {
        if bits & !Self::ALL == 0 {
            Some(DescriptorFlags { bits })
        } else {
            None
        }
    }

    /// The flags of `bits`, with every bit that no flag defines dropped.
    pub fn from_bits_truncate(bits: u64) -> (r: Self)
        ensures
            r.bits == bits & Self::ALL,
    {
        DescriptorFlags { bits: bits & Self::ALL }
    }

    /// Whether every flag of `other` is set in `self`.
    pub fn contains(&self, other: Self) -> (r: bool)
        ensures
            r == (self.bits & other.bits == other.bits),
    {
        self.bits & other.bits == other.bits
    }

    /// Whether no flag is set.
    pub fn is_empty(&self) -> (r: bool)
        ensures
            r == (self.bits == 0),
    {
        self.bits == 0
    }

    /// The flags set in either value.
    pub fn union(self, other: Self) -> (r: Self)
        ensures
            r.bits == self.bits | other.bits,
    {
        DescriptorFlags { bits: self.bits | other.bits }
    }

    /// The flags set in both values.
    pub fn intersection(self, other: Self) -> (r: Self)
        ensures
            r.bits == self.bits & other.bits,
    {
        DescriptorFlags { bits: self.bits & other.bits }
    }

    /// Sets the flags of `other`.
    pub fn insert(&mut self, other: Self)
        ensures
            final(self).bits == old(self).bits | other.bits,
    {
        self.bits = self.bits | other.bits;
    }

    /// Clears the flags of `other`.
    pub fn remove(&mut self, other: Self)
        ensures
            final(self).bits == old(self).bits & !other.bits,
    {
        self.bits = self.bits & !other.bits;
    }
}

/// Access byte flags of a GDT entry.
#[derive(Clone, Copy, PartialEq, Eq, Structural, Debug)]
pub struct GdtAccessFlags {
    pub bits: u8,
}

impl GdtAccessFlags {
    pub const TSS_AVAIL: u8 = 0x9;
    pub const TSS_BUSY: u8 = 0xb;
    pub const PRESENT: u8 = 0x80;
    pub const RING_0: u8 = 0x0;
    pub const RING_1: u8 = 0x20;
    pub const RING_2: u8 = 0x40;
    pub const RING_3: u8 = 0x60;
    pub const SYSTEM: u8 = 0x10;
    pub const EXECUTABLE: u8 = 0x8;
    pub const CONFORMING: u8 = 0x4;
    pub const PRIVILEGE: u8 = 0x2;
    pub const DIRTY: u8 = 0x1;
    /// The union of every defined flag.
    pub const ALL: u8 = 0xff;

    /// The value with no flag set.
    pub fn empty() -> (r: Self)
        ensures
            r.bits == 0,
    {
        GdtAccessFlags { bits: 0 }
    }

    /// The value with every defined flag set.
    pub fn all() -> (r: Self)
        ensures
            r.bits == Self::ALL,
    {
        GdtAccessFlags { bits: Self::ALL }
    }

    /// The raw bits.
    pub fn bits(&self) -> (r: u8)
        ensures
            r == self.bits,
    {
        self.bits
    }

    /// The flags of `bits`, or `None` where `bits` holds a bit that no flag defines.
    pub fn from_bits(bits: u8) -> (r: Option<Self>)
        ensures
            r is Some <==> bits & !Self::ALL == 0,
            r is Some ==> r->0.bits == bits,
    {
        if bits & !Self::ALL == 0 {
            Some(GdtAccessFlags { bits })
        } else {
            None
        }
    }

    /// The flags of `bits`, with every bit that no flag defines dropped.
    pub fn from_bits_truncate(bits: u8) -> (r: Self)
        ensures
            r.bits == bits & Self::ALL,
    {
        GdtAccessFlags { bits: bits & Self::ALL }
    }

    /// Whether every flag of `other` is set in `self`.
    pub fn contains(&self, other: Self) -> (r: bool)
        ensures
            r == (self.bits & other.bits == other.bits),
    {
        self.bits & other.bits == other.bits
    }

    /// Whether no flag is set.
    pub fn is_empty(&self) -> (r: bool)
        ensures
            r == (self.bits == 0),
    {
        self.bits == 0
    }

    /// The flags set in either value.
    pub fn union(self, other: Self) -> (r: Self)
        ensures
            r.bits == self.bits | other.bits,
    {
        GdtAccessFlags { bits: self.bits | other.bits }
    }

    /// The flags set in both values.
    pub fn intersection(self, other: Self) -> (r: Self)
        ensures
            r.bits == self.bits & other.bits,
    {
        GdtAccessFlags { bits: self.bits & other.bits }
    }

    /// Sets the flags of `other`.
    pub fn insert(&mut self, other: Self)
        ensures
            final(self).bits == old(self).bits | other.bits,
    {
        self.bits = self.bits | other.bits;
    }

    /// Clears the flags of `other`.
    pub fn remove(&mut self, other: Self)
        ensures
            final(self).bits == old(self).bits & !other.bits,
    {
        self.bits = self.bits & !other.bits;
    }
}

/// Granularity flags of a GDT entry.
#[derive(Clone, Copy, PartialEq, Eq, Structural, Debug)]
pub struct GdtFlags {
    pub bits: u8,
}

impl GdtFlags {
    pub const PAGE_SIZE: u8 = 0x80;
    pub const PROTECTED_MODE: u8 = 0x40;
    pub const LONG_MODE: u8 = 0x20;
    /// The union of every defined flag.
    pub const ALL: u8 = 0xe0;

    /// The value with no flag set.
    pub fn empty() -> (r: Self)
        ensures
            r.bits == 0,
    {
        GdtFlags { bits: 0 }
    }

    /// The value with every defined flag set.
    pub fn all() -> (r: Self)
        ensures
            r.bits == Self::ALL,
    {
        GdtFlags { bits: Self::ALL }
    }

    /// The raw bits.
    pub fn bits(&self) -> (r: u8)
        ensures
            r == self.bits,
    {
        self.bits
    }

    /// The flags of `bits`, or `None` where `bits` holds a bit that no flag defines.
    pub fn from_bits(bits: u8) -> (r: Option<Self>)
        ensures
            r is Some <==> bits & !Self::ALL == 0,
            r is Some ==> r->0.bits == bits,
    {
        if bits & !Self::ALL == 0 {
            Some(GdtFlags { bits })
        } else {
            None
        }
    }

    /// The flags of `bits`, with every bit that no flag defines dropped.
    pub fn from_bits_truncate(bits: u8) -> (r: Self)
        ensures
            r.bits == bits & Self::ALL,
    {
        GdtFlags { bits: bits & Self::ALL }
    }

    /// Whether every flag of `other` is set in `self`.
    pub fn contains(&self, other: Self) -> (r: bool)
        ensures
            r == (self.bits & other.bits == other.bits),
    {
        self.bits & other.bits == other.bits
    }

    /// Whether no flag is set.
    pub fn is_empty(&self) -> (r: bool)
        ensures
            r == (self.bits == 0),
    {
        self.bits == 0
    }

    /// The flags set in either value.
    pub fn union(self, other: Self) -> (r: Self)
        ensures
            r.bits == self.bits | other.bits,
    {
        GdtFlags { bits: self.bits | other.bits }
    }

    /// The flags set in both values.
    pub fn intersection(self, other: Self) -> (r: Self)
        ensures
            r.bits == self.bits & other.bits,
    {
        GdtFlags { bits: self.bits & other.bits }
    }

    /// Sets the flags of `other`.
    pub fn insert(&mut self, other: Self)
        ensures
            final(self).bits == old(self).bits | other.bits,
    {
        self.bits = self.bits | other.bits;
    }

    /// Clears the flags of `other`.
    pub fn remove(&mut self, other: Self)
        ensures
            final(self).bits == old(self).bits & !other.bits,
    {
        self.bits = self.bits & !other.bits;
    }
}

/// Flags of the CR0 control register.
#[derive(Clone, Copy, PartialEq, Eq, Structural, Debug)]
pub struct CR0Flags {
    pub bits: u64,
}

impl CR0Flags {
    pub const PROTECTED_MODE_ENABLE: u64 = 0x1;
    pub const MONITOR_COPROCESSOR: u64 = 0x2;
    pub const EMULATE_COPROCESSOR: u64 = 0x4;
    pub const TASK_SWITCHED: u64 = 0x8;
    pub const NUMERIC_ERROR: u64 = 0x20;
    pub const WRITE_PROTECT: u64 = 0x10000;
    pub const ALIGNMENT_MASK: u64 = 0x40000;
    pub const NOT_WRITE_THROUGH: u64 = 0x20000000;
    pub const CACHE_DISABLE: u64 = 0x40000000;
    pub const PAGING: u64 = 0x80000000;
    /// The union of every defined flag.
    pub const ALL: u64 = 0xe005002f;

    /// The value with no flag set.
    pub fn empty() -> (r: Self)
        ensures
            r.bits == 0,
    {
        CR0Flags { bits: 0 }
    }

    /// The value with every defined flag set.
    pub fn all() -> (r: Self)
        ensures
            r.bits == Self::ALL,
    {
        CR0Flags { bits: Self::ALL }
    }

    /// The raw bits.
    pub fn bits(&self) -> (r: u64)
        ensures
            r == self.bits,
    {
        self.bits
    }

    /// The flags of `bits`, or `None` where `bits` holds a bit that no flag defines.
    pub fn from_bits(bits: u64) -> (r: Option<Self>)
        ensures
            r is Some <==> bits & !Self::ALL == 0,
            r is Some ==> r->0.bits == bits,
    {
        if bits & !Self::ALL == 0 {
            Some(CR0Flags { bits })
        } else {
            None
        }
    }

    /// The flags of `bits`, with every bit that no flag defines dropped.
    pub fn from_bits_truncate(bits: u64) -> (r: Self)
        ensures
            r.bits == bits & Self::ALL,
    {
        CR0Flags { bits: bits & Self::ALL }
    }

    /// Whether every flag of `other` is set in `self`.
    pub fn contains(&self, other: Self) -> (r: bool)
        ensures
            r == (self.bits & other.bits == other.bits),
    {
        self.bits & other.bits == other.bits
    }

    /// Whether no flag is set.
    pub fn is_empty(&self) -> (r: bool)
        ensures
            r == (self.bits == 0),
    {
        self.bits == 0
    }

    /// The flags set in either value.
    pub fn union(self, other: Self) -> (r: Self)
        ensures
            r.bits == self.bits | other.bits,
    {
        CR0Flags { bits: self.bits | other.bits }
    }

    /// The flags set in both values.
    pub fn intersection(self, other: Self) -> (r: Self)
        ensures
            r.bits == self.bits & other.bits,
    {
        CR0Flags { bits: self.bits & other.bits }
    }

    /// Sets the flags of `other`.
    pub fn insert(&mut self, other: Self)
        ensures
            final(self).bits == old(self).bits | other.bits,
    {
        self.bits = self.bits | other.bits;
    }

    /// Clears the flags of `other`.
    pub fn remove(&mut self, other: Self)
        ensures
            final(self).bits == old(self).bits & !other.bits,
    {
        self.bits = self.bits & !other.bits;
    }
}

/// Flags of the CR3 control register.
#[derive(Clone, Copy, PartialEq, Eq, Structural, Debug)]
pub struct CR3Flags {
    pub bits: u64,
}

impl CR3Flags {
    pub const PAGE_LEVEL_WRITETHROUGH: u64 = 0x8;
    pub const PAGE_LEVEL_CACHE_DISABLE: u64 = 0x10;
    /// The union of every defined flag.
    pub const ALL: u64 = 0x18;

    /// The value with no flag set.
    pub fn empty() -> (r: Self)
        ensures
            r.bits == 0,
    {
        CR3Flags { bits: 0 }
    }

    /// The value with every defined flag set.
    pub fn all() -> (r: Self)
        ensures
            r.bits == Self::ALL,
    {
        CR3Flags { bits: Self::ALL }
    }

    /// The raw bits.
    pub fn bits(&self) -> (r: u64)
        ensures
            r == self.bits,
    {
        self.bits
    }

    /// The flags of `bits`, or `None` where `bits` holds a bit that no flag defines.
    pub fn from_bits(bits: u64) -> (r: Option<Self>)
        ensures
            r is Some <==> bits & !Self::ALL == 0,
            r is Some ==> r->0.bits == bits,
    {
        if bits & !Self::ALL == 0 {
            Some(CR3Flags { bits })
        } else {
            None
        }
    }

    /// The flags of `bits`, with every bit that no flag defines dropped.
    pub fn from_bits_truncate(bits: u64) -> (r: Self)
        ensures
            r.bits == bits & Self::ALL,
    {
        CR3Flags { bits: bits & Self::ALL }
    }

    /// Whether every flag of `other` is set in `self`.
    pub fn contains(&self, other: Self) -> (r: bool)
        ensures
            r == (self.bits & other.bits == other.bits),
    {
        self.bits & other.bits == other.bits
    }

    /// Whether no flag is set.
    pub fn is_empty(&self) -> (r: bool)
        ensures
            r == (self.bits == 0),
    {
        self.bits == 0
    }

    /// The flags set in either value.
    pub fn union(self, other: Self) -> (r: Self)
        ensures
            r.bits == self.bits | other.bits,
    {
        CR3Flags { bits: self.bits | other.bits }
    }

    /// The flags set in both values.
    pub fn intersection(self, other: Self) -> (r: Self)
        ensures
            r.bits == self.bits & other.bits,
    {
        CR3Flags { bits: self.bits & other.bits }
    }

    /// Sets the flags of `other`.
    pub fn insert(&mut self, other: Self)
        ensures
            final(self).bits == old(self).bits | other.bits,
    {
        self.bits = self.bits | other.bits;
    }

    /// Clears the flags of `other`.
    pub fn remove(&mut self, other: Self)
        ensures
            final(self).bits == old(self).bits & !other.bits,
    {
        self.bits = self.bits & !other.bits;
    }
}

/// Flags of the CR4 control register.
#[derive(Clone, Copy, PartialEq, Eq, Structural, Debug)]
pub struct CR4Flags {
    pub bits: u64,
}

impl CR4Flags {
    pub const VIRTUAL_8086_MODE_EXTENSIONS: u64 = 0x1;
    pub const PROTECTED_MODE_VIRTUAL_INTERRUPTS: u64 = 0x2;
    pub const TIMESTAMP_DISABLE: u64 = 0x4;
    pub const DEBUGGING_EXTENSIONS: u64 = 0x8;
    pub const PAGE_SIZE_EXTENSION: u64 = 0x10;
    pub const PHYSICAL_ADDRESS_EXTENSION: u64 = 0x20;
    pub const MACHINE_CHECK_EXCEPTION: u64 = 0x40;
    pub const PAGE_GLOBAL: u64 = 0x80;
    pub const PERFORMANCE_MONITOR_COUNTER: u64 = 0x100;
    pub const OSFXSR: u64 = 0x200;
    pub const OSXMMEXCPT_ENABLE: u64 = 0x400;
    pub const USER_MODE_INSTRUCTION_PREVENTION: u64 = 0x800;
    pub const L5_PAGING: u64 = 0x1000;
    pub const VIRTUAL_MACHINE_EXTENSIONS: u64 = 0x2000;
    pub const SAFER_MODE_EXTENSIONS: u64 = 0x4000;
    pub const FSGSBASE: u64 = 0x10000;
    pub const PCID: u64 = 0x20000;
    pub const OSXSAVE: u64 = 0x40000;
    pub const SUPERVISOR_MODE_EXECUTION_PROTECTION: u64 = 0x100000;
    pub const SUPERVISOR_MODE_ACCESS_PREVENTION: u64 = 0x200000;
    pub const PROTECTION_KEY: u64 = 0x400000;
    /// The union of every defined flag.
    pub const ALL: u64 = 0x777fff;

    /// The value with no flag set.
    pub fn empty() -> (r: Self)
        ensures
            r.bits == 0,
    {
        CR4Flags { bits: 0 }
    }

    /// The value with every defined flag set.
    pub fn all() -> (r: Self)
        ensures
            r.bits == Self::ALL,
    {
        CR4Flags { bits: Self::ALL }
    }

    /// The raw bits.
    pub fn bits(&self) -> (r: u64)
        ensures
            r == self.bits,
    {
        self.bits
    }

    /// The flags of `bits`, or `None` where `bits` holds a bit that no flag defines.
    pub fn from_bits(bits: u64) -> (r: Option<Self>)
        ensures
            r is Some <==> bits & !Self::ALL == 0,
            r is Some ==> r->0.bits == bits,
    {
        if bits & !Self::ALL == 0 {
            Some(CR4Flags { bits })
        } else {
            None
        }
    }

    /// The flags of `bits`, with every bit that no flag defines dropped.
    pub fn from_bits_truncate(bits: u64) -> (r: Self)
        ensures
            r.bits == bits & Self::ALL,
    {
        CR4Flags { bits: bits & Self::ALL }
    }

    /// Whether every flag of `other` is set in `self`.
    pub fn contains(&self, other: Self) -> (r: bool)
        ensures
            r == (self.bits & other.bits == other.bits),
    {
        self.bits & other.bits == other.bits
    }

    /// Whether no flag is set.
    pub fn is_empty(&self) -> (r: bool)
        ensures
            r == (self.bits == 0),
    {
        self.bits == 0
    }

    /// The flags set in either value.
    pub fn union(self, other: Self) -> (r: Self)
        ensures
            r.bits == self.bits | other.bits,
    {
        CR4Flags { bits: self.bits | other.bits }
    }

    /// The flags set in both values.
    pub fn intersection(self, other: Self) -> (r: Self)
        ensures
            r.bits == self.bits & other.bits,
    {
        CR4Flags { bits: self.bits & other.bits }
    }

    /// Sets the flags of `other`.
    pub fn insert(&mut self, other: Self)
        ensures
            final(self).bits == old(self).bits | other.bits,
    {
        self.bits = self.bits | other.bits;
    }

    /// Clears the flags of `other`.
    pub fn remove(&mut self, other: Self)
        ensures
            final(self).bits == old(self).bits & !other.bits,
    {
        self.bits = self.bits & !other.bits;
    }
}

/// Flags of an IDT gate type byte.
#[derive(Clone, Copy, PartialEq, Eq, Structural, Debug)]
pub struct IdtFlags {
    pub bits: u16,
}

impl IdtFlags {
    pub const PRESENT: u16 = 0x80;
    pub const RING_0: u16 = 0x0;
    pub const RING_1: u16 = 0x20;
    pub const RING_2: u16 = 0x40;
    pub const RING_3: u16 = 0x60;
    pub const SS: u16 = 0x10;
    pub const INTERRUPT: u16 = 0xe;
    pub const TRAP: u16 = 0xf;
    /// The union of every defined flag.
    pub const ALL: u16 = 0xff;

    /// The value with no flag set.
    pub fn empty() -> (r: Self)
        ensures
            r.bits == 0,
    {
        IdtFlags { bits: 0 }
    }

    /// The value with every defined flag set.
    pub fn all() -> (r: Self)
        ensures
            r.bits == Self::ALL,
    {
        IdtFlags { bits: Self::ALL }
    }

    /// The raw bits.
    pub fn bits(&self) -> (r: u16)
        ensures
            r == self.bits,
    {
        self.bits
    }

    /// The flags of `bits`, or `None` where `bits` holds a bit that no flag defines.
    pub fn from_bits(bits: u16) -> (r: Option<Self>)
        ensures
            r is Some <==> bits & !Self::ALL == 0,
            r is Some ==> r->0.bits == bits,
    {
        if bits & !Self::ALL == 0 {
            Some(IdtFlags { bits })
        } else {
            None
        }
    }

    /// The flags of `bits`, with every bit that no flag defines dropped.
    pub fn from_bits_truncate(bits: u16) -> (r: Self)
        ensures
            r.bits == bits & Self::ALL,
    {
        IdtFlags { bits: bits & Self::ALL }
    }

    /// Whether every flag of `other` is set in `self`.
    pub fn contains(&self, other: Self) -> (r: bool)
        ensures
            r == (self.bits & other.bits == other.bits),
    {
        self.bits & other.bits == other.bits
    }

    /// Whether no flag is set.
    pub fn is_empty(&self) -> (r: bool)
        ensures
            r == (self.bits == 0),
    {
        self.bits == 0
    }

    /// The flags set in either value.
    pub fn union(self, other: Self) -> (r: Self)
        ensures
            r.bits == self.bits | other.bits,
    {
        IdtFlags { bits: self.bits | other.bits }
    }

    /// The flags set in both values.
    pub fn intersection(self, other: Self) -> (r: Self)
        ensures
            r.bits == self.bits & other.bits,
    {
        IdtFlags { bits: self.bits & other.bits }
    }

    /// Sets the flags of `other`.
    pub fn insert(&mut self, other: Self)
        ensures
            final(self).bits == old(self).bits | other.bits,
    {
        self.bits = self.bits | other.bits;
    }

    /// Clears the flags of `other`.
    pub fn remove(&mut self, other: Self)
        ensures
            final(self).bits == old(self).bits & !other.bits,
    {
        self.bits = self.bits & !other.bits;
    }
}

/// Flags of the RFLAGS register.
#[derive(Clone, Copy, PartialEq, Eq, Structural, Debug)]
pub struct RFlags {
    pub bits: u64,
}

impl RFlags {
    pub const ID: u64 = 0x200000;
    pub const VIRTUAL_INTERRUPT_PENDING: u64 = 0x100000;
    pub const VIRTUAL_INTERRUPT: u64 = 0x80000;
    pub const ALIGNMENT_CHECK: u64 = 0x40000;
    pub const VIRTUAL_8086_MODE: u64 = 0x20000;
    pub const RESUME_FLAG: u64 = 0x10000;
    pub const NESTED_TASK: u64 = 0x4000;
    pub const IOPL_HIGH: u64 = 0x2000;
    pub const IOPL_LOW: u64 = 0x1000;
    pub const OVERFLOW_FLAG: u64 = 0x800;
    pub const DIRECTION_FLAG: u64 = 0x400;
    pub const INTERRUPT_FLAG: u64 = 0x200;
    pub const TRAP_FLAG: u64 = 0x100;
    pub const SIGN_FLAG: u64 = 0x80;
    pub const ZERO_FLAG: u64 = 0x40;
    pub const AUXILIARY_CARRY_FLAG: u64 = 0x10;
    pub const PARITY_FLAG: u64 = 0x4;
    pub const CARRY_FLAG: u64 = 0x1;
    /// The union of every defined flag.
    pub const ALL: u64 = 0x3f7fd5;

    /// The value with no flag set.
    pub fn empty() -> (r: Self)
        ensures
            r.bits == 0,
    {
        RFlags { bits: 0 }
    }

    /// The value with every defined flag set.
    pub fn all() -> (r: Self)
        ensures
            r.bits == Self::ALL,
    {
        RFlags { bits: Self::ALL }
    }

    /// The raw bits.
    pub fn bits(&self) -> (r: u64)
        ensures
            r == self.bits,
    {
        self.bits
    }

    /// The flags of `bits`, or `None` where `bits` holds a bit that no flag defines.
    pub fn from_bits(bits: u64) -> (r: Option<Self>)
        ensures
            r is Some <==> bits & !Self::ALL == 0,
            r is Some ==> r->0.bits == bits,
    {
        if bits & !Self::ALL == 0 {
            Some(RFlags { bits })
        } else {
            None
        }
    }

    /// The flags of `bits`, with every bit that no flag defines dropped.
    pub fn from_bits_truncate(bits: u64) -> (r: Self)
        ensures
            r.bits == bits & Self::ALL,
    {
        RFlags { bits: bits & Self::ALL }
    }

    /// Whether every flag of `other` is set in `self`.
    pub fn contains(&self, other: Self) -> (r: bool)
        ensures
            r == (self.bits & other.bits == other.bits),
    {
        self.bits & other.bits == other.bits
    }

    /// Whether no flag is set.
    pub fn is_empty(&self) -> (r: bool)
        ensures
            r == (self.bits == 0),
    {
        self.bits == 0
    }

    /// The flags set in either value.
    pub fn union(self, other: Self) -> (r: Self)
        ensures
            r.bits == self.bits | other.bits,
    {
        RFlags { bits: self.bits | other.bits }
    }

    /// The flags set in both values.
    pub fn intersection(self, other: Self) -> (r: Self)
        ensures
            r.bits == self.bits & other.bits,
    {
        RFlags { bits: self.bits & other.bits }
    }

    /// Sets the flags of `other`.
    pub fn insert(&mut self, other: Self)
        ensures
            final(self).bits == old(self).bits | other.bits,
    {
        self.bits = self.bits | other.bits;
    }

    /// Clears the flags of `other`.
    pub fn remove(&mut self, other: Self)
        ensures
            final(self).bits == old(self).bits & !other.bits,
    {
        self.bits = self.bits & !other.bits;
    }
}

/// Flags of the Extended Feature Enable Register.
#[derive(Clone, Copy, PartialEq, Eq, Structural, Debug)]
pub struct EferFlags {
    pub bits: u64,
}

impl EferFlags {
    pub const SYSTEM_CALL_EXTENSIONS: u64 = 0x1;
    pub const LONG_MODE_ENABLE: u64 = 0x100;
    pub const LONG_MODE_ACTIVE: u64 = 0x400;
    pub const NO_EXECUTE_ENABLE: u64 = 0x800;
    pub const SECURE_VIRTUAL_MACHINE_ENABLE: u64 = 0x1000;
    pub const LONG_MODE_SEGMENT_LIMIT_ENABLE: u64 = 0x2000;
    pub const FAST_FXSAVE_FXRSTOR: u64 = 0x4000;
    pub const TRANSLATION_CACHE_EXTENSION: u64 = 0x8000;
    /// The union of every defined flag.
    pub const ALL: u64 = 0xfd01;

    /// The value with no flag set.
    pub fn empty() -> (r: Self)
        ensures
            r.bits == 0,
    {
        EferFlags { bits: 0 }
    }

    /// The value with every defined flag set.
    pub fn all() -> (r: Self)
        ensures
            r.bits == Self::ALL,
    {
        EferFlags { bits: Self::ALL }
    }

    /// The raw bits.
    pub fn bits(&self) -> (r: u64)
        ensures
            r == self.bits,
    {
        self.bits
    }

    /// The flags of `bits`, or `None` where `bits` holds a bit that no flag defines.
    pub fn from_bits(bits: u64) -> (r: Option<Self>)
        ensures
            r is Some <==> bits & !Self::ALL == 0,
            r is Some ==> r->0.bits == bits,
    {
        if bits & !Self::ALL == 0 {
            Some(EferFlags { bits })
        } else {
            None
        }
    }

    /// The flags of `bits`, with every bit that no flag defines dropped.
    pub fn from_bits_truncate(bits: u64) -> (r: Self)
        ensures
            r.bits == bits & Self::ALL,
    {
        EferFlags { bits: bits & Self::ALL }
    }

    /// Whether every flag of `other` is set in `self`.
    pub fn contains(&self, other: Self) -> (r: bool)
        ensures
            r == (self.bits & other.bits == other.bits),
    {
        self.bits & other.bits == other.bits
    }

    /// Whether no flag is set.
    pub fn is_empty(&self) -> (r: bool)
        ensures
            r == (self.bits == 0),
    {
        self.bits == 0
    }

    /// The flags set in either value.
    pub fn union(self, other: Self) -> (r: Self)
        ensures
            r.bits == self.bits | other.bits,
    {
        EferFlags { bits: self.bits | other.bits }
    }

    /// The flags set in both values.
    pub fn intersection(self, other: Self) -> (r: Self)
        ensures
            r.bits == self.bits & other.bits,
    {
        EferFlags { bits: self.bits & other.bits }
    }

    /// Sets the flags of `other`.
    pub fn insert(&mut self, other: Self)
        ensures
            final(self).bits == old(self).bits | other.bits,
    {
        self.bits = self.bits | other.bits;
    }

    /// Clears the flags of `other`.
    pub fn remove(&mut self, other: Self)
        ensures
            final(self).bits == old(self).bits & !other.bits,
    {
        self.bits = self.bits & !other.bits;
    }
}

} // verus!
