//! The interrupt descriptor table.
use crate::bits::bit_ops::{bit16, set_bit_u16, with_bit16};
use crate::ia_32e::descriptor::DescriptorTablePointer;
use crate::ia_32e::{level_value, PrivilegedLevel, VirtAddr};
use vstd::prelude::*;

verus! {

/// The frame that the processor pushes on the stack before it calls an interrupt handler.
#[derive(Clone, Copy)]
pub struct InterruptStackFrameValue {
    /// The instruction pointer (RIP) at the interrupt.
    pub instruction_pointer: VirtAddr,
    /// The code segment (CS) at the interrupt.
    pub code_segment: u64,
    /// The RFLAGS register before the handler was called.
    pub rflags: u64,
    /// The stack pointer at the interrupt.
    pub stack_pointer: VirtAddr,
    /// The stack segment at the interrupt (usually zero in 64-bit mode).
    pub stack_segment: u64,
}

/// The interrupt stack frame handed to a handler.
pub struct InterruptStackFrame {
    value: InterruptStackFrameValue,
}

impl InterruptStackFrame {
    /// The frame that holds `value`.
    pub fn new(value: InterruptStackFrameValue) -> (r: Self)
        ensures
            r.value() == value,
    {
        InterruptStackFrame { value }
    }

    /// The values of the frame.
    pub closed spec fn value(&self) -> InterruptStackFrameValue {
        self.value
    }

    /// The values of the frame, for reading.
    pub fn get(&self) -> (r: &InterruptStackFrameValue)
        ensures
            *r == self.value(),
    {
        &self.value
    }

    /// The values of the frame, for changing them.
    pub fn as_mut(&mut self) -> (r: &mut InterruptStackFrameValue)
        ensures
            *r == old(self).value(),
            final(self).value() == *final(r),
    {
        &mut self.value
    }
}

/// The handler kind of an entry whose handler takes the stack frame alone.
#[derive(Clone, Copy, Debug, PartialEq, Eq, Structural)]
pub struct HandlerFunc;

/// The handler kind of an entry whose handler also takes an error code.
#[derive(Clone, Copy, Debug, PartialEq, Eq, Structural)]
pub struct HandlerFuncWithErrCode;

/// The handler kind of the page fault entry, whose handler takes a page fault error code.
#[derive(Clone, Copy, Debug, PartialEq, Eq, Structural)]
pub struct PageFaultHandlerFunc;

/// The options of a entry: the IST index in bits 0 to 2, the entry type in bits 8 to 11
/// (bit 8 set for a trap type entry, clear for an interrupt type entry), the privilege level in bits 13
/// and 14 and the present bit 15.
#[derive(Clone, Copy, Debug, PartialEq, Eq, Structural)]
pub struct EntryOptions(pub u16);

/// The options of a entry that is not present: only the bits that must be set (9 to 11).
pub open spec fn minimal_options() -> u16 {
    0b1110_0000_0000
}

impl EntryOptions {
    /// The options with only the bits that must be set.
    pub fn minimal() -> (r: Self)
        ensures
            r.0 == minimal_options(),
    {
        EntryOptions(0b1110_0000_0000)
    }

    /// Sets the present bit 15 to `present`.
    pub fn set_present(&mut self, present: bool) -> (r: &mut Self)
        ensures
            r.0 == with_bit16(old(self).0, 15, present),
            *final(self) == *final(r),
    {
        self.0 = set_bit_u16(self.0, 15, present);
        self
    }

    /// Makes the entry an interrupt type entry (interrupts disabled while the handler runs) where
    /// `disable` holds and a trap type entry otherwise: bit 8 is the negation of `disable`.
    pub fn disable_interrupts(&mut self, disable: bool) -> (r: &mut Self)
        ensures
            r.0 == with_bit16(old(self).0, 8, !disable),
            *final(self) == *final(r),
    {
        self.0 = set_bit_u16(self.0, 8, !disable);
        self
    }

    /// Sets bits 13 and 14 to the privilege level `dpl`.
    pub fn set_privilege_level(&mut self, dpl: PrivilegedLevel) -> (r: &mut Self)
        ensures
            r.0 == (old(self).0 & !0x6000u16) | (level_value(dpl) << 13u16),
            *final(self) == *final(r),
    {
        self.0 = (self.0 & !0x6000u16) | (dpl.as_u16() << 13u16);
        self
    }

    /// Sets bits 0 to 2 to `index + 1`, which selects stack `index` of the interrupt
    /// stack table; the field has room for the indices 0 to 6.
    pub fn set_stack_index(&mut self, index: u16) -> (r: &mut Self)
        requires
            index < 7,
        ensures
            r.0 == (old(self).0 & !7u16) | (index + 1) as u16,
            *final(self) == *final(r),
    {
        self.0 = (self.0 & !7u16) | (index + 1);
        self
    }

    /// Whether the present bit is set.
    pub fn present(&self) -> (r: bool)
        ensures
            r == bit16(self.0, 15),
    {
        (self.0 >> 15u16) & 1 == 1
    }
}

/// A entry of the interrupt descriptor table: the handler address split in three parts, the
/// code segment selector of the handler and the options.
#[derive(Debug, PartialEq, Eq)]
pub struct Entry<F> {
    /// Bits 0 to 15 of the handler address.
    pub pointer_low: u16,
    /// The code segment selector of the handler.
    pub gdt_selector: u16,
    /// The options of the entry.
    pub options: EntryOptions,
    /// Bits 16 to 31 of the handler address.
    pub pointer_middle: u16,
    /// Bits 32 to 63 of the handler address.
    pub pointer_high: u32,
    /// Reserved, zero.
    pub reserved: u32,
    /// The kind of handler the entry takes.
    pub handler_func: core::marker::PhantomData<F>,
}

impl<F> Clone for Entry<F> {
    fn clone(&self) -> (r: Self)
        ensures
            r == *self,
    {
        *self
    }
}

impl<F> Copy for Entry<F> {

}

/// The entry that is not present, with no handler.
pub open spec fn missing_entry<F>() -> Entry<F> {
    Entry {
        pointer_low: 0,
        gdt_selector: 0,
        options: EntryOptions(minimal_options()),
        pointer_middle: 0,
        pointer_high: 0,
        reserved: 0,
        handler_func: core::marker::PhantomData,
    }
}

impl<F> Entry<F> {
    /// The entry that is not present, with no handler.
    pub fn missing() -> (r: Self)
        ensures
            r == missing_entry::<F>(),
    {
        Entry {
            pointer_low: 0,
            gdt_selector: 0,
            options: EntryOptions::minimal(),
            pointer_middle: 0,
            pointer_high: 0,
            reserved: 0,
            handler_func: core::marker::PhantomData,
        }
    }

    /// The handler address that the three address fields hold.
    pub open spec fn handler_addr(&self) -> u64 {
        (self.pointer_low as u64) | ((self.pointer_middle as u64) << 16u64) | ((
        self.pointer_high as u64) << 32u64)
    }

    /// Points the entry at the handler at `addr` in the code segment `selector` and marks
    /// it present; gives the options for further changes.
    pub fn set_handler_addr(&mut self, addr: u64, selector: u16) -> (r: &mut EntryOptions)
        ensures
            final(self).pointer_low == addr as u16,
            final(self).pointer_middle == (addr >> 16u64) as u16,
            final(self).pointer_high == (addr >> 32u64) as u32,
            final(self).gdt_selector == selector,
            final(self).reserved == old(self).reserved,
            r.0 == with_bit16(old(self).options.0, 15, true),
            final(self).options == *final(r),
    {
        self.pointer_low = addr as u16;
        self.pointer_middle = (addr >> 16u64) as u16;
        self.pointer_high = (addr >> 32u64) as u32;
        self.gdt_selector = selector;
        self.options.set_present(true);
        &mut self.options
    }
}

/// The address fields of a entry hold the handler address whole.
pub proof fn law_handler_addr(addr: u64)
    ensures
        ((addr as u16) as u64) | ((((addr >> 16u64) as u16) as u64) << 16u64) | ((((addr
            >> 32u64) as u32) as u64) << 32u64) == addr,
{
    assert(((addr as u16) as u64) | ((((addr >> 16u64) as u16) as u64) << 16u64) | ((((addr
        >> 32u64) as u32) as u64) << 32u64) == addr) by (bit_vector);
}

/// The interrupt descriptor table: the 32 exception vectors and the 224 interrupt vectors.
#[derive(Clone, Copy)]
pub struct InterruptDescriptorTable {
    /// #DE, divide error (vector 0).
    pub divide_by_zero: Entry<HandlerFunc>,
    /// #DB, debug exception (vector 1).
    pub debug: Entry<HandlerFunc>,
    /// The non-maskable interrupt (vector 2).
    pub non_maskable_interrupt: Entry<HandlerFunc>,
    /// #BP, breakpoint (vector 3).
    pub breakpoint: Entry<HandlerFunc>,
    /// #OF, overflow (vector 4).
    pub overflow: Entry<HandlerFunc>,
    /// #BR, bound range exceeded (vector 5).
    pub bound_range_exceeded: Entry<HandlerFunc>,
    /// #UD, invalid opcode (vector 6).
    pub invalid_opcode: Entry<HandlerFunc>,
    /// #NM, device not available (vector 7).
    pub device_not_available: Entry<HandlerFunc>,
    /// #DF, double fault (vector 8).
    pub double_fault: Entry<HandlerFuncWithErrCode>,
    /// Coprocessor segment overrun (vector 9).
    pub coprocessor_segment_overrun: Entry<HandlerFunc>,
    /// #TS, invalid TSS (vector 10).
    pub invalid_tss: Entry<HandlerFuncWithErrCode>,
    /// #NP, segment not present (vector 11).
    pub segment_not_present: Entry<HandlerFuncWithErrCode>,
    /// #SS, stack segment fault (vector 12).
    pub stack_segment_fault: Entry<HandlerFuncWithErrCode>,
    /// #GP, general protection fault (vector 13).
    pub general_protection_fault: Entry<HandlerFuncWithErrCode>,
    /// #PF, page fault (vector 14).
    pub page_fault: Entry<PageFaultHandlerFunc>,
    /// Reserved (vector 15).
    pub reserved_1: Entry<HandlerFunc>,
    /// #MF, x87 floating point exception (vector 16).
    pub x87_floating_point: Entry<HandlerFunc>,
    /// #AC, alignment check (vector 17).
    pub alignment_check: Entry<HandlerFuncWithErrCode>,
    /// #MC, machine check (vector 18).
    pub machine_check: Entry<HandlerFunc>,
    /// #XM, SIMD floating point exception (vector 19).
    pub simd_floating_point: Entry<HandlerFunc>,
    /// #VE, virtualization exception (vector 20).
    pub virtualization: Entry<HandlerFunc>,
    /// Reserved (vectors 21 to 29).
    pub reserved_2: [Entry<HandlerFunc>; 9],
    /// #SX, security exception (vector 30).
    pub security_exception: Entry<HandlerFuncWithErrCode>,
    /// Reserved (vector 31).
    pub reserved_3: Entry<HandlerFunc>,
    /// The vectors 32 to 255, for the interrupts of devices and software.
    pub interrupts: [Entry<HandlerFunc>; 224],
}

/// Whether vector `i` has an entry whose handler takes the stack frame alone and which is
/// not reserved: the vectors 0 to 7, 9, 16, 18 to 20 and 32 to 255.
pub open spec fn is_handler_index(i: int) -> bool {
    (0 <= i <= 7) || i == 9 || i == 16 || (18 <= i <= 20) || (32 <= i <= 255)
}

impl InterruptDescriptorTable {
    /// Whether every entry of the table is missing.
    pub open spec fn all_missing(&self) -> bool {
        &&& self.divide_by_zero == missing_entry::<HandlerFunc>()
        &&& self.debug == missing_entry::<HandlerFunc>()
        &&& self.non_maskable_interrupt == missing_entry::<HandlerFunc>()
        &&& self.breakpoint == missing_entry::<HandlerFunc>()
        &&& self.overflow == missing_entry::<HandlerFunc>()
        &&& self.bound_range_exceeded == missing_entry::<HandlerFunc>()
        &&& self.invalid_opcode == missing_entry::<HandlerFunc>()
        &&& self.device_not_available == missing_entry::<HandlerFunc>()
        &&& self.double_fault == missing_entry::<HandlerFuncWithErrCode>()
        &&& self.coprocessor_segment_overrun == missing_entry::<HandlerFunc>()
        &&& self.invalid_tss == missing_entry::<HandlerFuncWithErrCode>()
        &&& self.segment_not_present == missing_entry::<HandlerFuncWithErrCode>()
        &&& self.stack_segment_fault == missing_entry::<HandlerFuncWithErrCode>()
        &&& self.general_protection_fault == missing_entry::<HandlerFuncWithErrCode>()
        &&& self.page_fault == missing_entry::<PageFaultHandlerFunc>()
        &&& self.reserved_1 == missing_entry::<HandlerFunc>()
        &&& self.x87_floating_point == missing_entry::<HandlerFunc>()
        &&& self.alignment_check == missing_entry::<HandlerFuncWithErrCode>()
        &&& self.machine_check == missing_entry::<HandlerFunc>()
        &&& self.simd_floating_point == missing_entry::<HandlerFunc>()
        &&& self.virtualization == missing_entry::<HandlerFunc>()
        &&& self.security_exception == missing_entry::<HandlerFuncWithErrCode>()
        &&& self.reserved_3 == missing_entry::<HandlerFunc>()
        &&& forall|i: int| 0 <= i < 9 ==> self.reserved_2[i] == missing_entry::<HandlerFunc>()
        &&& forall|i: int| 0 <= i < 224 ==> self.interrupts[i] == missing_entry::<HandlerFunc>()
    }

    /// The entry of vector `i`, for a vector of `is_handler_index`.
    pub open spec fn spec_entry(&self, i: int) -> Entry<HandlerFunc> {
        if i == 0 {
            self.divide_by_zero
        } else
        if i == 1 {
            self.debug
        } else
        if i == 2 {
            self.non_maskable_interrupt
        } else
        if i == 3 {
            self.breakpoint
        } else
        if i == 4 {
            self.overflow
        } else
        if i == 5 {
            self.bound_range_exceeded
        } else
        if i == 6 {
            self.invalid_opcode
        } else
        if i == 7 {
            self.device_not_available
        } else
        if i == 9 {
            self.coprocessor_segment_overrun
        } else
        if i == 16 {
            self.x87_floating_point
        } else
        if i == 18 {
            self.machine_check
        } else
        if i == 19 {
            self.simd_floating_point
        } else
        if i == 20 {
            self.virtualization
        } else {
            self.interrupts[i - 32]
        }
    }

    /// Whether `new` is this table with the entry of vector `i` (of `is_handler_index`)
    /// replaced by `e`, every other entry unchanged.
    pub open spec fn replaced_by(self, new: Self, i: int, e: Entry<HandlerFunc>) -> bool {
        &&& new.spec_entry(i) == e
        &&& forall|j: int|
            is_handler_index(j) && j != i ==> #[trigger] new.spec_entry(j) == self.spec_entry(j)
        &&& new.double_fault == self.double_fault
        &&& new.invalid_tss == self.invalid_tss
        &&& new.segment_not_present == self.segment_not_present
        &&& new.stack_segment_fault == self.stack_segment_fault
        &&& new.general_protection_fault == self.general_protection_fault
        &&& new.page_fault == self.page_fault
        &&& new.reserved_1 == self.reserved_1
        &&& new.alignment_check == self.alignment_check
        &&& new.security_exception == self.security_exception
        &&& new.reserved_3 == self.reserved_3
        &&& new.reserved_2@ == self.reserved_2@
    }

    /// The table whose entries are all missing.
    pub fn new() -> (r: InterruptDescriptorTable)
        ensures
            r.all_missing(),
    {
        let r = InterruptDescriptorTable {
            divide_by_zero: Entry::missing(),
            debug: Entry::missing(),
            non_maskable_interrupt: Entry::missing(),
            breakpoint: Entry::missing(),
            overflow: Entry::missing(),
            bound_range_exceeded: Entry::missing(),
            invalid_opcode: Entry::missing(),
            device_not_available: Entry::missing(),
            double_fault: Entry::missing(),
            coprocessor_segment_overrun: Entry::missing(),
            invalid_tss: Entry::missing(),
            segment_not_present: Entry::missing(),
            stack_segment_fault: Entry::missing(),
            general_protection_fault: Entry::missing(),
            page_fault: Entry::missing(),
            reserved_1: Entry::missing(),
            x87_floating_point: Entry::missing(),
            alignment_check: Entry::missing(),
            machine_check: Entry::missing(),
            simd_floating_point: Entry::missing(),
            virtualization: Entry::missing(),
            reserved_2: [Entry::missing(); 9],
            security_exception: Entry::missing(),
            reserved_3: Entry::missing(),
            interrupts: [Entry::missing(); 224],
        };
        r
    }

    /// Makes every entry missing again.
    pub fn reset(&mut self)
        ensures
            final(self).all_missing(),
    {
        self.divide_by_zero = Entry::missing();
        self.debug = Entry::missing();
        self.non_maskable_interrupt = Entry::missing();
        self.breakpoint = Entry::missing();
        self.overflow = Entry::missing();
        self.bound_range_exceeded = Entry::missing();
        self.invalid_opcode = Entry::missing();
        self.device_not_available = Entry::missing();
        self.double_fault = Entry::missing();
        self.coprocessor_segment_overrun = Entry::missing();
        self.invalid_tss = Entry::missing();
        self.segment_not_present = Entry::missing();
        self.stack_segment_fault = Entry::missing();
        self.general_protection_fault = Entry::missing();
        self.page_fault = Entry::missing();
        self.reserved_1 = Entry::missing();
        self.x87_floating_point = Entry::missing();
        self.alignment_check = Entry::missing();
        self.machine_check = Entry::missing();
        self.simd_floating_point = Entry::missing();
        self.virtualization = Entry::missing();
        self.reserved_2 = [Entry::missing(); 9];
        self.security_exception = Entry::missing();
        self.reserved_3 = Entry::missing();
        self.interrupts = [Entry::missing(); 224];
    }

    /// The operand that loads this table from address `base`: the limit of 256 entries of 16
    /// bytes, less one.
    pub fn pointer(&self, base: u64) -> (r: DescriptorTablePointer)
        ensures
            r.limit == 4095,
            r.base == base,
    {
        DescriptorTablePointer { limit: 4095, base }
    }

    /// The entry of vector `index`. Reserved vectors and those whose handler takes an error
    /// code have no such entry.
    pub fn index(&self, index: usize) -> (r: &Entry<HandlerFunc>)
        requires
            is_handler_index(index as int),
        ensures
            *r == self.spec_entry(index as int),
    {
        match index {
            0 => &self.divide_by_zero,
            1 => &self.debug,
            2 => &self.non_maskable_interrupt,
            3 => &self.breakpoint,
            4 => &self.overflow,
            5 => &self.bound_range_exceeded,
            6 => &self.invalid_opcode,
            7 => &self.device_not_available,
            9 => &self.coprocessor_segment_overrun,
            16 => &self.x87_floating_point,
            18 => &self.machine_check,
            19 => &self.simd_floating_point,
            20 => &self.virtualization,
            _ => &self.interrupts[index - 32],
        }
    }

    /// The entry of vector `index`, for changing it. Reserved vectors and those whose
    /// handler takes an error code have no such entry.
    pub fn index_mut(&mut self, index: usize) -> (r: &mut Entry<HandlerFunc>)
        requires
            is_handler_index(index as int),
        ensures
            *r == old(self).spec_entry(index as int),
            old(self).replaced_by(*final(self), index as int, *final(r)),
    {
        match index {
            0 => &mut self.divide_by_zero,
            1 => &mut self.debug,
            2 => &mut self.non_maskable_interrupt,
            3 => &mut self.breakpoint,
            4 => &mut self.overflow,
            5 => &mut self.bound_range_exceeded,
            6 => &mut self.invalid_opcode,
            7 => &mut self.device_not_available,
            9 => &mut self.coprocessor_segment_overrun,
            16 => &mut self.x87_floating_point,
            18 => &mut self.machine_check,
            19 => &mut self.simd_floating_point,
            20 => &mut self.virtualization,
            _ => &mut self.interrupts[index - 32],
        }
    }
}

} // verus!
