use system::ia_32e::paging::{Frame, Page, Page1GB, Page2MB, Page4KB, PageIndex, PageOffset, PageTable, PageTableEntry};
use system::ia_32e::{align_down, align_up, PhysAddr, VirtAddr};

#[test]
fn align_functions() {
    assert_eq!(align_up(0x1001, 0x1000), 0x2000);
    assert_eq!(align_up(0x1000, 0x1000), 0x1000);
    assert_eq!(align_down(0x1fff, 0x1000), 0x1000);
    assert_eq!(align_down(0x1000, 0x1000), 0x1000);
}

#[test]
fn virt_addr_canonical() {
    assert!(VirtAddr::try_new(0x0000_7fff_ffff_ffff).is_ok());
    assert!(VirtAddr::try_new(0xffff_8000_0000_0000).is_ok());
    assert!(VirtAddr::try_new(0x0001_0000_0000_0000).is_err());
    assert!(VirtAddr::try_new(0x1234_0000_0000_0000).is_err());
    assert_eq!(VirtAddr::new(0x1234).as_u64(), 0x1234);
}

#[test]
fn virt_addr_sign_extends_bit_47() {
    // A raw address whose bits 47..63 are 0x0001 has them all set after sign extension.
    assert_eq!(VirtAddr::new(0x0000_8000_0000_0000).as_u64(), 0xffff_8000_0000_0000);
    assert_eq!(VirtAddr::try_new(0x0000_8000_0000_0000).ok().unwrap().as_u64(), 0xffff_8000_0000_0000);
    assert_eq!(VirtAddr::new_unchecked(0x1234_8000_0000_0000).as_u64(), 0xffff_8000_0000_0000);
    assert_eq!(VirtAddr::new_unchecked(0x1234_0000_0000_1000).as_u64(), 0x0000_0000_0000_1000);
}

#[test]
fn virt_addr_indices() {
    let addr = VirtAddr::new(0o_001_002_003_004_0005);
    assert_eq!(addr.page_offset().as_u64(), 5);
    assert_eq!(addr.page1_index().as_u16(), 4);
    assert_eq!(addr.page2_index().as_u16(), 3);
    assert_eq!(addr.page3_index().as_u16(), 2);
    assert_eq!(addr.page4_index().as_u16(), 1);
}

#[test]
fn virt_addr_align_and_offsets() {
    let a = VirtAddr::new(0x1234);
    assert_eq!(a.align_up(0x1000).as_u64(), 0x2000);
    assert_eq!(a.align_down(0x1000).as_u64(), 0x1000);
    assert!(!a.is_aligned(0x1000));
    assert_eq!(a.add_offset(0x10).as_u64(), 0x1244);
    assert_eq!(a.sub_offset(0x34).as_u64(), 0x1200);
    assert_eq!(a.distance(VirtAddr::new(0x1000)), 0x234);
    assert_eq!(VirtAddr::zero().as_u64(), 0);
}

#[test]
fn phys_addr_bounds() {
    assert!(PhysAddr::try_new(0x000f_ffff_ffff_ffff).is_ok());
    assert!(PhysAddr::try_new(0x0010_0000_0000_0000).is_err());
    let p = PhysAddr::new(0x2000);
    assert!(!p.is_null());
    assert!(PhysAddr::new(0).is_null());
    assert_eq!(p.add_offset(0x10).as_u64(), 0x2010);
    assert_eq!(p.sub_offset(0x10).as_u64(), 0x1ff0);
    assert_eq!(PhysAddr::new(0x2345).align_down(0x1000).as_u64(), 0x2000);
    assert_eq!(PhysAddr::new(0x2345).align_up(0x1000).as_u64(), 0x3000);
    assert!(p.is_aligned(0x1000));
    assert_eq!(PhysAddr::new(0x3000).distance(p), 0x1000);
}

#[test]
fn page_from_start_address() {
    assert!(Page::<Page4KB>::from_start_address(VirtAddr::new(0x1000)).is_ok());
    assert!(Page::<Page4KB>::from_start_address(VirtAddr::new(0x1001)).is_err());
    let p = Page::<Page4KB>::include_address(VirtAddr::new(0x1fff));
    assert_eq!(p.start_address().as_u64(), 0x1000);
    assert_eq!(p.size(), 0x1000);
    assert_eq!(Page::<Page2MB>::include_address(VirtAddr::new(0x3f_ffff)).start_address().as_u64(), 0x20_0000);
    assert_eq!(Page::<Page1GB>::include_address(VirtAddr::new(0x7fff_ffff)).size(), 0x4000_0000);
}

#[test]
fn page_arithmetic() {
    let p = Page::<Page4KB>::include_address(VirtAddr::new(0x5000));
    let q = p.add_pages(3);
    assert_eq!(q.start_address().as_u64(), 0x8000);
    assert_eq!(q.sub_pages(2).start_address().as_u64(), 0x6000);
    assert_eq!(q.pages_between(p), 3);
}

#[test]
fn page_range_iterates() {
    let start = Page::<Page4KB>::include_address(VirtAddr::new(0x1000));
    let end = Page::<Page4KB>::include_address(VirtAddr::new(0x4000));
    let mut range = Page::range_page(start, end);
    let mut count = 0;
    while let Some(_) = range.next() {
        count += 1;
    }
    assert_eq!(count, 3);
    let mut inc = Page::range_include(start, end);
    let mut count_inc = 0;
    while let Some(_) = inc.next() {
        count_inc += 1;
    }
    assert_eq!(count_inc, 4);
}

#[test]
fn page_table_indices_roundtrip() {
    let page = Page::<Page4KB>::from_page_table_indices(
        PageIndex::new(1),
        PageIndex::new(2),
        PageIndex::new(3),
        PageIndex::new(4),
    );
    assert_eq!(page.start_address().as_u64(), 0o_001_002_003_004_0000);
    assert_eq!(page.p4_index().as_u16(), 1);
    assert_eq!(page.p3_index().as_u16(), 2);
    assert_eq!(page.p2_index().as_u16(), 3);
    assert_eq!(page.p1_index().as_u16(), 4);
    let big = Page::<Page1GB>::from_page_table_indices_1gib(PageIndex::new(1), PageIndex::new(2));
    assert_eq!(big.start_address().as_u64(), 0o_001_002_000_000_0000);
    let mid = Page::<Page2MB>::from_page_table_indices_2mib(PageIndex::new(1), PageIndex::new(2), PageIndex::new(3));
    assert_eq!(mid.start_address().as_u64(), 0o_001_002_003_000_0000);
}

#[test]
fn page_index_and_offset_truncate() {
    assert_eq!(PageIndex::new(511).as_u16(), 511);
    assert_eq!(PageOffset::new(4095).as_u64(), 4095);
    assert_eq!(PageIndex::new(7).as_usize(), 7);
}

#[test]
fn frame_from_start_addr_checks_alignment() {
    let f = Frame::<Page4KB>::from_start_addr(PhysAddr::new(0x3000));
    assert!(f.is_ok());
    let err = Frame::<Page4KB>::from_start_addr(PhysAddr::new(0x3001));
    match err {
        Err(e) => match e.as_repr() {
            system::result::Repr::Memory(m) => {
                assert_eq!(m.get_kind(), system::result::MemErrorKind::NotAligned);
                assert_eq!(m.display(), "the address `0x3001` is not align by 4096");
            }
            _ => panic!("not a memory error"),
        },
        Ok(_) => panic!("accepted an unaligned frame"),
    }
}

#[test]
fn frame_arithmetic_and_ranges() {
    let f = Frame::<Page4KB>::include_address(PhysAddr::new(0x3fff));
    assert_eq!(f.start_address().as_u64(), 0x3000);
    assert_eq!(f.size(), 0x1000);
    let g = f.add_frames(2);
    assert_eq!(g.start_address().as_u64(), 0x5000);
    assert_eq!(g.sub_frames(1).start_address().as_u64(), 0x4000);
    assert_eq!(g.frames_between(f), 2);
    let mut r = Frame::frame_range(f, g);
    let mut n = 0;
    while let Some(_) = r.next() {
        n += 1;
    }
    assert_eq!(n, 2);
    let mut ri = Frame::frame_range_include(f, g);
    let mut ni = 0;
    while let Some(_) = ri.next() {
        ni += 1;
    }
    assert_eq!(ni, 3);
}

#[test]
fn page_table_entries() {
    let mut e = PageTableEntry::new();
    assert!(e.is_unused());
    e.set_unused();
    assert!(e.is_unused());
    let mut table = PageTable::new();
    assert!(table.index(5).is_unused());
    table.zero();
    assert!(table.index_of(PageIndex::new(511)).is_unused());
    table.set_entry(3, PageTableEntry::new());
    assert_eq!(table.iter().count(), 512);
}
