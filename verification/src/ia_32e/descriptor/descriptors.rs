//! Segment descriptors of the global descriptor table.
use crate::bits::DescriptorFlags;
use vstd::prelude::*;

verus! {

/// The size in bytes of a 64-bit task state segment.
pub const TSS_SIZE: u64 = 104;

/// A 64-bit descriptor: a code or data segment takes one table entry, a system segment
/// (a task state segment) two.
#[derive(Clone, Copy, Debug, PartialEq, Eq, Structural)]
pub enum Descriptor {
    /// A code or data segment.
    UserSegment(u64),
    /// A system segment: its low and its high entry.
    SystemSegment(u64, u64),
}

/// The low entry of the descriptor of the task state segment at `ptr`: present, type 0b1001
/// (an available 64-bit TSS), limit `TSS_SIZE - 1`, base bits 0 to 23 in bits 16 to 39 and
/// base bits 24 to 31 in bits 56 to 63.
pub open spec fn tss_low(ptr: u64) -> u64 {
    0x8000_0000_0000u64 | ((ptr & 0xff_ffff) << 16u64) | (((ptr >> 24u64) & 0xff) << 56u64)
        | 103u64 | (0x9u64 << 40u64)
}

/// The high entry of the descriptor of the task state segment at `ptr`: base bits 32 to 63.
pub open spec fn tss_high(ptr: u64) -> u64 {
    ptr >> 32u64
}

/// The base address that the two entries of a system segment descriptor hold.
pub open spec fn system_base(low: u64, high: u64) -> u64 {
    ((low >> 16u64) & 0xff_ffff) | (((low >> 56u64) & 0xff) << 24u64) | (high << 32u64)
}

impl Descriptor {
    /// The kernel code segment: a present, executable 64-bit user segment of ring 0.
    pub fn kernel_code_segment() -> (r: Descriptor)
        ensures
            r == Descriptor::UserSegment(
                DescriptorFlags::USER_SEGMENT | DescriptorFlags::PRESENT
                    | DescriptorFlags::EXECUTABLE | DescriptorFlags::LONG_MODE,
            ),
    {
        Descriptor::UserSegment(
            DescriptorFlags::USER_SEGMENT | DescriptorFlags::PRESENT | DescriptorFlags::EXECUTABLE
                | DescriptorFlags::LONG_MODE,
        )
    }

    /// The user data segment: a present, writable user segment of ring 3.
    pub fn user_data_segment() -> (r: Descriptor)
        ensures
            r == Descriptor::UserSegment(
                DescriptorFlags::USER_SEGMENT | DescriptorFlags::PRESENT
                    | DescriptorFlags::WRITABLE | DescriptorFlags::DPL_RING_3,
            ),
    {
        Descriptor::UserSegment(
            DescriptorFlags::USER_SEGMENT | DescriptorFlags::PRESENT | DescriptorFlags::WRITABLE
                | DescriptorFlags::DPL_RING_3,
        )
    }

    /// The user code segment: a present, executable 64-bit user segment of ring 3.
    pub fn user_code_segment() -> (r: Descriptor)
        ensures
            r == Descriptor::UserSegment(
                DescriptorFlags::USER_SEGMENT | DescriptorFlags::PRESENT
                    | DescriptorFlags::EXECUTABLE | DescriptorFlags::LONG_MODE
                    | DescriptorFlags::DPL_RING_3,
            ),
    {
        Descriptor::UserSegment(
            DescriptorFlags::USER_SEGMENT | DescriptorFlags::PRESENT | DescriptorFlags::EXECUTABLE
                | DescriptorFlags::LONG_MODE | DescriptorFlags::DPL_RING_3,
        )
    }

    /// The descriptor of the task state segment at address `ptr`.
    pub fn tss_segment(ptr: u64) -> (r: Descriptor)
        ensures
            r == Descriptor::SystemSegment(tss_low(ptr), tss_high(ptr)),
    {
        let mut low: u64 = DescriptorFlags::PRESENT;
        low = low | ((ptr & 0xff_ffff) << 16u64);
        low = low | (((ptr >> 24u64) & 0xff) << 56u64);
        low = low | (TSS_SIZE - 1);
        low = low | (0x9u64 << 40u64);
        let high: u64 = ptr >> 32u64;
        Descriptor::SystemSegment(low, high)
    }
}

/// The descriptor of a task state segment holds its address, which reads back whole.
pub proof fn law_tss_base(ptr: u64)
    ensures
        system_base(tss_low(ptr), tss_high(ptr)) == ptr,
        tss_low(ptr) & 0xffff == TSS_SIZE - 1,
        (tss_low(ptr) >> 40u64) & 0xf == 0x9,
        (tss_low(ptr) >> 47u64) & 1 == 1,
{
    assert({
        let low = 0x8000_0000_0000u64 | ((ptr & 0xff_ffff) << 16u64) | (((ptr >> 24u64) & 0xff)
            << 56u64) | 103u64 | (0x9u64 << 40u64);
        let high = ptr >> 32u64;
        &&& (((low >> 16u64) & 0xff_ffff) | (((low >> 56u64) & 0xff) << 24u64) | (high << 32u64))
            == ptr
        &&& low & 0xffff == 103
        &&& (low >> 40u64) & 0xf == 0x9
        &&& (low >> 47u64) & 1 == 1
    }) by (bit_vector);
}

/// The operand of the instructions that load a descriptor table: its limit (its size in
/// bytes, less one) and its base address.
#[derive(Clone, Copy, Debug, PartialEq, Eq, Structural)]
pub struct DescriptorTablePointer {
    /// The size of the table in bytes, less one.
    pub limit: u16,
    /// The address of the table.
    pub base: u64,
}

} // verus!
