use system::bits::DescriptorFlags;
use system::ia_32e::descriptor::idt::{Entry, HandlerFunc, InterruptStackFrame, InterruptStackFrameValue};
use system::ia_32e::descriptor::{Descriptor, EntryOptions, GlobalDescriptorTable, InterruptDescriptorTable, SegmentSelector};
use system::ia_32e::{PrivilegedLevel, VirtAddr};

#[test]
fn privilege_levels() {
    assert_eq!(PrivilegedLevel::from_u16(0), PrivilegedLevel::Ring0);
    assert_eq!(PrivilegedLevel::from_u16(3), PrivilegedLevel::Ring3);
    assert_eq!(PrivilegedLevel::Ring2.as_u16(), 2);
}

#[test]
fn segment_selector_fields() {
    let s = SegmentSelector::new(5, PrivilegedLevel::Ring3);
    assert_eq!(s.0, (5 << 3) | 3);
    assert_eq!(s.index(), 5);
    assert_eq!(s.rpl(), PrivilegedLevel::Ring3);
}

#[test]
fn code_and_data_segments() {
    let k = Descriptor::kernel_code_segment();
    assert_eq!(
        k,
        Descriptor::UserSegment(
            DescriptorFlags::USER_SEGMENT | DescriptorFlags::PRESENT | DescriptorFlags::EXECUTABLE | DescriptorFlags::LONG_MODE
        )
    );
    assert_eq!(k, Descriptor::UserSegment(0x0020_9800_0000_0000));
    assert_eq!(Descriptor::user_data_segment(), Descriptor::UserSegment(0x0000_f200_0000_0000));
    assert_eq!(Descriptor::user_code_segment(), Descriptor::UserSegment(0x0020_f800_0000_0000));
}

#[test]
fn tss_descriptor_holds_base() {
    let ptr: u64 = 0x1234_5678_9abc_def0;
    match Descriptor::tss_segment(ptr) {
        Descriptor::SystemSegment(low, high) => {
            assert_eq!(low & 0xffff, 103);
            assert_eq!((low >> 16) & 0xff_ffff, ptr & 0xff_ffff);
            assert_eq!((low >> 56) & 0xff, (ptr >> 24) & 0xff);
            assert_eq!((low >> 40) & 0xf, 0x9);
            assert_eq!((low >> 47) & 1, 1);
            assert_eq!(high, ptr >> 32);
        }
        _ => panic!("not a system segment"),
    }
}

#[test]
fn gdt_adds_descriptors() {
    let mut gdt = GlobalDescriptorTable::new();
    let code = gdt.add_descriptor(Descriptor::kernel_code_segment());
    assert_eq!(code.index(), 1);
    assert_eq!(code.rpl(), PrivilegedLevel::Ring0);
    let tss = gdt.add_descriptor(Descriptor::tss_segment(0x1000));
    assert_eq!(tss.index(), 2);
    let data = gdt.add_descriptor(Descriptor::user_data_segment());
    assert_eq!(data.index(), 4);
    assert_eq!(gdt.entry(0), 0);
    assert_eq!(gdt.entry(1), 0x0020_9800_0000_0000);
    assert_eq!(gdt.entry(3), 0);
    let p = gdt.pointer(0x8000);
    assert_eq!({ p.limit }, 63);
    assert_eq!({ p.base }, 0x8000);
}

#[test]
fn gdt_from_table() {
    let gdt = GlobalDescriptorTable::from_table([1, 2, 3, 4, 5, 6, 7, 8]);
    assert_eq!(gdt.entry(7), 8);
}

#[test]
fn entry_options_bits() {
    let mut o = EntryOptions::minimal();
    assert_eq!(o.0, 0x0e00);
    o.set_present(true);
    assert_eq!(o.0, 0x8e00);
    assert!(o.present());
    o.disable_interrupts(false);
    assert_eq!(o.0, 0x8f00);
    o.set_privilege_level(PrivilegedLevel::Ring3);
    assert_eq!(o.0, 0xef00);
    o.set_stack_index(0);
    assert_eq!(o.0 & 7, 1);
    o.set_present(false).set_stack_index(6);
    assert_eq!(o.0, 0x6f07);
}

#[test]
fn idt_entry_handler_address() {
    let mut e: Entry<HandlerFunc> = Entry::missing();
    assert_eq!(e.options.0, 0x0e00);
    e.set_handler_addr(0xffff_8000_1234_5678, 0x08).disable_interrupts(true);
    assert_eq!(e.pointer_low, 0x5678);
    assert_eq!(e.pointer_middle, 0x1234);
    assert_eq!(e.pointer_high, 0xffff_8000);
    assert_eq!(e.gdt_selector, 0x08);
    assert_eq!(e.options.0, 0x8e00);
}

#[test]
fn idt_index_and_reset() {
    let mut idt = InterruptDescriptorTable::new();
    assert_eq!(idt.index(32).options.0, 0x0e00);
    idt.index_mut(33).set_handler_addr(0x4000, 0x08);
    assert_eq!(idt.index(33).pointer_low, 0x4000);
    assert_eq!(idt.interrupts[1].pointer_low, 0x4000);
    idt.index_mut(3).set_handler_addr(0x5000, 0x08);
    assert_eq!(idt.breakpoint.pointer_low, 0x5000);
    idt.reset();
    assert_eq!(idt.index(33).pointer_low, 0);
    assert_eq!(idt.breakpoint.options.0, 0x0e00);
    assert_eq!({ idt.pointer(0x9000).limit }, 4095);
}

#[test]
fn interrupt_stack_frame_values() {
    let v = InterruptStackFrameValue {
        instruction_pointer: VirtAddr::new(0x1000),
        code_segment: 8,
        rflags: 0x202,
        stack_pointer: VirtAddr::new(0x2000),
        stack_segment: 0,
    };
    let mut f = InterruptStackFrame::new(v);
    assert_eq!(f.get().rflags, 0x202);
    f.as_mut().rflags = 0x2;
    assert_eq!(f.get().rflags, 0x2);
}
