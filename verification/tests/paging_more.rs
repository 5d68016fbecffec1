use system::ia_32e::call_convention::{InterruptStack, IretRegisters, PreservedRegisters, ScratchRegisters};
use system::ia_32e::paging::bump::BumpAllocator;
use system::ia_32e::paging::frame_allocator::MemoryAreaManagement;
use system::ia_32e::paging::mapper::{p1_page, p2_page, p3_page, recursive_index_of, RecursivePageTable, TablePages};
use system::ia_32e::paging::PageTableEntry;
use system::ia_32e::paging::setup::MemWrite;
use system::ia_32e::paging::{Frame, MemoryType, Page, Page4KB, PageIndex, PageTable, PagingArgs};
use system::ia_32e::{Hex, PhysAddr, VirtAddr};

#[test]
fn bump_allocator_counts_frames() {
    let mut b = BumpAllocator::new(0x10_0000, 0x1f_ffff);
    b.add_area(0, 0x3000, MemoryType::FreeArea, 0x3000);
    b.add_area(0x10_0000, 0x10_2000, MemoryType::FreeArea, 0x2000);
    // Frame 0 is the next frame; frames 0x100000 and 0x101000 are the kernel's.
    assert_eq!(b.free_frames(), 2);
    assert_eq!(b.used_frames(), 3);
}

#[test]
fn bump_allocator_without_current_area_gives_nothing() {
    let mut b = BumpAllocator::new(0x10_0000, 0x1f_ffff);
    b.add_area(0, 0x3000, MemoryType::FreeArea, 0x3000);
    // `new` looked for an area before any was added, so none is current.
    assert!(b.alloc_size(1, 4096).is_none());
    assert!(b.alloc_size(0, 4096).is_none());
}

#[test]
fn recursive_table_pages() {
    let page = Page::<Page4KB>::include_address(VirtAddr::new(0o_001_002_003_004_0000));
    let r = PageIndex::new(511);
    assert_eq!(p3_page(page, r).start_address().as_u64(), 0xffff_ffff_ffe0_1000);
    assert_eq!(p2_page(page, r).start_address().as_u64(), 0xffff_ffff_c020_2000);
    assert_eq!(p1_page(page, r).start_address().as_u64(), 0xffff_ff80_4040_3000);
}

#[test]
fn recursive_index_detection() {
    assert_eq!(recursive_index_of(VirtAddr::new(0xffff_ffff_ffff_f000)).ok().map(|i| i.as_u16()), Some(511));
    assert!(recursive_index_of(VirtAddr::new(0x1000)).is_err());
    assert_eq!(recursive_index_of(VirtAddr::new(0)).ok().map(|i| i.as_u16()), Some(0));
}

struct NoPages;

impl TablePages for NoPages {
    fn entry_at(&self, _page: u64, _index: u64) -> u64 {
        0
    }
    fn read_entry(&self, _page: Page<Page4KB>, _index: PageIndex) -> PageTableEntry {
        PageTableEntry::new()
    }
    fn write_entry(&mut self, _page: Page<Page4KB>, _index: PageIndex, _entry: PageTableEntry) {}
}

#[test]
fn recursive_table_checks_active_frame() {
    let mut table = PageTable::new();
    let active = Frame::<Page4KB>::include_address(PhysAddr::new(0x7000));
    // The recursive entry is unused: no recursive table.
    assert!(RecursivePageTable::new(&mut table, VirtAddr::new(0xffff_ffff_ffff_f000), active, NoPages).is_err());
    let mut e = PageTableEntry::new();
    e.set_addr(PhysAddr::new(0x7000), system::bits::PageTableFlags::from_bits_truncate(0x2));
    table.set_entry(511, e);
    // Pointing at the active frame but not present: still none.
    assert!(RecursivePageTable::new(&mut table, VirtAddr::new(0xffff_ffff_ffff_f000), active, NoPages).is_err());
    e.set_addr(PhysAddr::new(0x7000), system::bits::PageTableFlags::from_bits_truncate(0x83));
    table.set_entry(511, e);
    // Present but mapping a huge page: none.
    assert!(RecursivePageTable::new(&mut table, VirtAddr::new(0xffff_ffff_ffff_f000), active, NoPages).is_err());
    e.set_addr(PhysAddr::new(0x7000), system::bits::PageTableFlags::from_bits_truncate(0x3));
    table.set_entry(511, e);
    assert!(RecursivePageTable::new(&mut table, VirtAddr::new(0xffff_ffff_ffff_f000), active, NoPages).is_ok());
    let other = Frame::<Page4KB>::include_address(PhysAddr::new(0x5000));
    assert!(RecursivePageTable::new(&mut table, VirtAddr::new(0xffff_ffff_ffff_f000), other, NoPages).is_err());
    assert!(RecursivePageTable::new(&mut table, VirtAddr::new(0x1000), active, NoPages).is_err());
    let _t = RecursivePageTable::new_unchecked(&mut table, PageIndex::new(511), NoPages);
}

#[test]
fn identity_map_writes() {
    let args = PagingArgs { pml4t_base_addr: 0x70000, pdpt_base_addr: 0x71000, pd_base_addr: 0x72000 };
    let w = args.table_writes();
    assert_eq!(w.len(), 2055);
    assert_eq!(w[0], MemWrite { addr: 0x70000, value: 0x71003 });
    assert_eq!(w[2], MemWrite { addr: 0x70000 + 511 * 8, value: 0x71003 });
    assert_eq!(w[5], MemWrite { addr: 0x71010, value: 0x74003 });
    assert_eq!(w[6], MemWrite { addr: 0x71018, value: 0x75003 });
    assert_eq!(w[7], MemWrite { addr: 0x72000, value: 0x83 });
    assert_eq!(w[8], MemWrite { addr: 0x72008, value: 0x20_0083 });
    assert_eq!(w[2054], MemWrite { addr: 0x72000 + 2047 * 8, value: 0x83 + 2047 * 0x20_0000 });
    assert_eq!(args.cr3_value(0x18), 0x70018);
    assert_eq!(PagingArgs::cr4_value(0), 0x402b0);
    assert_eq!(PagingArgs::efer_value(0), 0x900);
    assert_eq!(PagingArgs::cr0_value(0), 0x8001_0001);
}

#[test]
fn register_dumps() {
    let s = ScratchRegisters { r11: 11, r10: 10, r9: 9, r8: 8, rsi: 7, rdi: 6, rdx: 5, rcx: 4, rax: 3 };
    assert_eq!(s.dump(), "[ScratchRegisters] RAX:3 RCX:4 RDX:5 RDI:6 RSI:7 R8:8 R9:9 R10:10 R11:11\n");
    let p = PreservedRegisters { r15: 15, r14: 14, r13: 13, r12: 12, rbp: 1, rbx: 2 };
    assert_eq!(p.dump(), "[PreservedRegisters] r15:15,r14:14,r13:13,r12:12,rbp:1,rbx:2\n");
    let i = IretRegisters { rip: 0x1000, cs: 8, rflags: 0x202, rsp: 0x2000, ss: 16 };
    assert_eq!(i.dump(), "[IretRegister]: rip:4096,cs:8,rflags:514,rsp:8192,ss:16\n");
    assert_eq!(i.rip().as_u64(), 0x1000);
    let st = InterruptStack { fs: 0, preserved: p, scratch: s, iret: i };
    assert_eq!(st.dump(), format!("[FS] 0 \n{} {} {}", p.dump(), s.dump(), i.dump()));
    assert_eq!(st.fs().as_u64(), 0);
}

#[test]
fn hex_holds_value() {
    assert_eq!(Hex::new(0xabc).0, 0xabc);
}

#[test]
fn bump_allocator_checks_that_a_request_ends() {
    let mut b = BumpAllocator::new(0x10_0000, 0x1f_ffff);
    b.add_area(0, 0x3000, MemoryType::FreeArea, 0x3000);
    assert!(!b.alloc_size_ends(1, 4096, 0));
    assert!(b.alloc_size_ends(1, 4096, 1));
    assert!(b.try_alloc_size(1, 4096, 0).is_none());
    assert!(matches!(b.try_alloc_size(1, 4096, 3), Some(None)));
}
