use std::collections::HashMap;
use system::bits::PageTableFlags;
use system::ia_32e::paging::mapper::map_pt::MappedPageTable;
use system::ia_32e::paging::mapper::{
    MapAllSize, Mapper, PhysicalToVirtual, RecursivePageTable, TableStore, TablePages,
};
use system::ia_32e::paging::result::{
    FlagUpdateError, MapToError, TranslateError, TranslationResult, UnmapError,
};
use system::ia_32e::paging::{
    Frame, FrameAllocator, Page, Page1GB, Page2MB, Page4KB, PageIndex, PageTable, PageTableEntry,
    UnusedFrame,
};
use system::ia_32e::{PhysAddr, VirtAddr};

/// Page tables kept by frame start and index; absent entries read as unused.
#[derive(Default)]
struct Tables {
    entries: HashMap<(u64, u64), PageTableEntry>,
}

impl PhysicalToVirtual for Tables {
    fn entry_at(&self, frame: u64, index: u64) -> u64 {
        match self.entries.get(&(frame, index)) {
            Some(e) => e.addr().as_u64() | e.flags().bits(),
            None => 0,
        }
    }

    fn read_entry(&self, frame: Frame<Page4KB>, index: PageIndex) -> PageTableEntry {
        let key = (frame.start_address().as_u64(), index.as_u64());
        self.entries.get(&key).copied().unwrap_or_else(PageTableEntry::new)
    }

    fn write_entry(&mut self, frame: Frame<Page4KB>, index: PageIndex, entry: PageTableEntry) {
        self.entries.insert((frame.start_address().as_u64(), index.as_u64()), entry);
    }
}

fn entry(addr: u64, flags: u64) -> PageTableEntry {
    let mut e = PageTableEntry::new();
    e.set_addr(PhysAddr::new(addr), PageTableFlags::from_bits_truncate(flags));
    e
}

impl Tables {
    fn set(&mut self, frame: u64, index: u16, e: PageTableEntry) {
        self.entries.insert((frame, index as u64), e);
    }
}

/// Level 4 entry 0 leads to the level 3 table at 0x1000, whose entry 0 leads to the level 2
/// table at 0x2000, whose entry 0 leads to the level 1 table at 0x3000.
fn walk_tables() -> (PageTable, Tables) {
    let mut p4 = PageTable::new();
    p4.set_entry(0, entry(0x1000, 0x3));
    let mut t = Tables::default();
    t.set(0x1000, 0, entry(0x2000, 0x3));
    t.set(0x2000, 0, entry(0x3000, 0x3));
    t.set(0x3000, 5, entry(0x5000, 0x3));
    // A huge 2 MiB page at level 2 entry 1 and a huge 1 GiB page at level 3 entry 1.
    t.set(0x2000, 1, entry(0x4020_0000, 0x83));
    t.set(0x1000, 1, entry(0x8000_0000, 0x83));
    (p4, t)
}

#[test]
fn translate_4kb_page() {
    let (mut p4, t) = walk_tables();
    let table = MappedPageTable::new(&mut p4, t);
    match table.translate(VirtAddr::new(0x5123)) {
        TranslationResult::Frame4KB { frame, offset } => {
            assert_eq!(frame.start_address().as_u64(), 0x5000);
            assert_eq!(offset, 0x123);
        }
        _ => panic!("expected a 4 KiB frame"),
    }
}

#[test]
fn translate_unmapped_addresses() {
    let (mut p4, t) = walk_tables();
    let table = MappedPageTable::new(&mut p4, t);
    assert!(matches!(table.translate(VirtAddr::new(0x6000)), TranslationResult::PageNotMapped));
    assert!(matches!(
        table.translate(VirtAddr::new(0x80_0000_0000)),
        TranslationResult::PageNotMapped
    ));
}

#[test]
fn translate_huge_pages_as_1gb_frames() {
    let (mut p4, t) = walk_tables();
    let table = MappedPageTable::new(&mut p4, t);
    match table.translate(VirtAddr::new(0x4000_1234)) {
        TranslationResult::Frame1GB { frame, offset } => {
            assert_eq!(frame.start_address().as_u64(), 0x8000_0000);
            assert_eq!(offset, 0x1234);
        }
        _ => panic!("expected a 1 GiB frame"),
    }
    match table.translate(VirtAddr::new(0x20_0042)) {
        TranslationResult::Frame1GB { frame, offset } => {
            assert_eq!(frame.start_address().as_u64(), 0x4000_0000);
            assert_eq!(offset, 0x20_0042);
        }
        _ => panic!("expected a 1 GiB frame"),
    }
}

/// Hands out the frames it was given, in order.
struct Frames {
    free: Vec<u64>,
}

impl FrameAllocator<Page4KB> for Frames {
    fn allocate(&mut self) -> Option<UnusedFrame<Page4KB>> {
        if self.free.is_empty() {
            None
        } else {
            let start = self.free.remove(0);
            Some(UnusedFrame::new(Frame::include_address(PhysAddr::new(start))))
        }
    }

    fn dealloc(&mut self, _frame: UnusedFrame<Page4KB>) {}
}

fn frames(list: &[u64]) -> Frames {
    Frames { free: list.to_vec() }
}

fn flags(bits: u64) -> PageTableFlags {
    PageTableFlags::from_bits_truncate(bits)
}

fn page_4kb(addr: u64) -> Page<Page4KB> {
    Page::include_address(VirtAddr::new(addr))
}

fn frame_4kb(addr: u64) -> UnusedFrame<Page4KB> {
    UnusedFrame::new(Frame::include_address(PhysAddr::new(addr)))
}

#[test]
fn map_4kb_page_makes_tables_and_translates() {
    let mut p4 = PageTable::new();
    let mut table = MappedPageTable::new(&mut p4, Tables::default());
    let mut alloc = frames(&[0x10000, 0x11000, 0x12000]);
    let page = page_4kb(0x40_1000);
    let r = table.map_to(page, frame_4kb(0x77000), flags(0x3), &mut alloc);
    match r {
        Ok(flush) => assert_eq!(flush.page().start_address().as_u64(), 0x40_1000),
        Err(_) => panic!("mapping failed"),
    }
    assert!(alloc.free.is_empty());
    match table.translate(VirtAddr::new(0x40_1abc)) {
        TranslationResult::Frame4KB { frame, offset } => {
            assert_eq!(frame.start_address().as_u64(), 0x77000);
            assert_eq!(offset, 0xabc);
        }
        _ => panic!("expected a 4 KiB frame"),
    }
    // The level 4 entry points to the first frame handed out, present and writable.
    assert_eq!(p4.index(0).addr().as_u64(), 0x10000);
    assert_eq!(p4.index(0).flags().bits(), 0x3);
}

#[test]
fn map_4kb_page_twice_gives_frame_back() {
    let mut p4 = PageTable::new();
    let mut table = MappedPageTable::new(&mut p4, Tables::default());
    let mut alloc = frames(&[0x10000, 0x11000, 0x12000]);
    let page = page_4kb(0x2000);
    assert!(table.map_to(page, frame_4kb(0x77000), flags(0x3), &mut alloc).is_ok());
    match table.map_to(page, frame_4kb(0x78000), flags(0x3), &mut alloc) {
        Err(MapToError::PageAlreadyMapped(f)) => {
            assert_eq!(f.frame().start_address().as_u64(), 0x78000)
        }
        _ => panic!("expected PageAlreadyMapped"),
    }
}

#[test]
fn map_without_frames_fails() {
    let mut p4 = PageTable::new();
    let mut table = MappedPageTable::new(&mut p4, Tables::default());
    let mut alloc = frames(&[]);
    let r = table.map_to(page_4kb(0x2000), frame_4kb(0x77000), flags(0x3), &mut alloc);
    assert!(matches!(r, Err(MapToError::FrameAllocateFailed)));
    assert!(p4.index(0).is_unused());
}

#[test]
fn map_below_huge_page_fails() {
    let (mut p4, t) = walk_tables();
    let mut table = MappedPageTable::new(&mut p4, t);
    let mut alloc = frames(&[0x10000]);
    // Level 3 entry 1 maps a 1 GiB page.
    let r = table.map_to(page_4kb(0x4000_0000), frame_4kb(0x77000), flags(0x3), &mut alloc);
    assert!(matches!(r, Err(MapToError::ParentEntryHugePage)));
    assert_eq!(alloc.free.len(), 1);
}

#[test]
fn map_1gb_page_and_translate() {
    let mut p4 = PageTable::new();
    let mut table = MappedPageTable::new(&mut p4, Tables::default());
    let mut alloc = frames(&[0x10000]);
    let page: Page<Page1GB> = Page::include_address(VirtAddr::new(0x4000_0000));
    let frame = UnusedFrame::new(Frame::<Page1GB>::include_address(PhysAddr::new(0xc000_0000)));
    assert!(table.map_to(page, frame, flags(0x3), &mut alloc).is_ok());
    match table.translate(VirtAddr::new(0x4123_4567)) {
        TranslationResult::Frame1GB { frame, offset } => {
            assert_eq!(frame.start_address().as_u64(), 0xc000_0000);
            assert_eq!(offset, 0x123_4567);
        }
        _ => panic!("expected a 1 GiB frame"),
    }
}

#[test]
fn map_2mb_page_translates_as_1gb_frame() {
    let mut p4 = PageTable::new();
    let mut table = MappedPageTable::new(&mut p4, Tables::default());
    let mut alloc = frames(&[0x10000, 0x11000]);
    let page: Page<Page2MB> = Page::include_address(VirtAddr::new(0x60_0000));
    let frame = UnusedFrame::new(Frame::<Page2MB>::include_address(PhysAddr::new(0x4060_0000)));
    assert!(table.map_to(page, frame, flags(0x3), &mut alloc).is_ok());
    match table.translate(VirtAddr::new(0x61_2345)) {
        TranslationResult::Frame1GB { frame, offset } => {
            assert_eq!(frame.start_address().as_u64(), 0x4000_0000);
            assert_eq!(offset, 0x61_2345);
        }
        _ => panic!("expected a 1 GiB frame"),
    }
}

#[test]
fn unmap_and_translate_page_at_zero() {
    let mut p4 = PageTable::new();
    let mut table = MappedPageTable::new(&mut p4, Tables::default());
    let mut alloc = frames(&[0x10000, 0x11000, 0x12000]);
    let page = page_4kb(0);
    assert!(table.map_to(page, frame_4kb(0x77000), flags(0x3), &mut alloc).is_ok());
    match table.translate_page(page) {
        Ok(f) => assert_eq!(f.start_address().as_u64(), 0x77000),
        Err(_) => panic!("expected the frame"),
    }
    match table.unmap(page) {
        Ok((f, flush)) => {
            assert_eq!(f.start_address().as_u64(), 0x77000);
            assert_eq!(flush.page().start_address().as_u64(), 0);
        }
        Err(_) => panic!("expected the frame"),
    }
    assert!(matches!(table.translate_page(page), Err(TranslateError::PageNotMapped)));
    assert!(matches!(table.unmap(page), Err(UnmapError::PageNotMapped)));
}

#[test]
fn translate_page_walks_from_level_4_index() {
    // A page whose level 3 index differs from its level 4 index is found through its own
    // level 4 entry.
    let mut p4 = PageTable::new();
    let mut table = MappedPageTable::new(&mut p4, Tables::default());
    let mut alloc = frames(&[0x10000, 0x11000, 0x12000]);
    let page = page_4kb(0x4000_0000);
    assert!(table.map_to(page, frame_4kb(0x77000), flags(0x3), &mut alloc).is_ok());
    match table.translate_page(page) {
        Ok(f) => assert_eq!(f.start_address().as_u64(), 0x77000),
        Err(_) => panic!("expected the frame"),
    }
    assert!(table.unmap(page).is_ok());
    assert!(matches!(table.translate_page(page), Err(TranslateError::PageNotMapped)));
}

#[test]
fn update_flags_of_4kb_page_only_where_mapped() {
    let mut p4 = PageTable::new();
    let mut table = MappedPageTable::new(&mut p4, Tables::default());
    let mut alloc = frames(&[0x10000, 0x11000, 0x12000]);
    let page = page_4kb(0);
    assert!(table.map_to(page, frame_4kb(0x77000), flags(0x3), &mut alloc).is_ok());
    assert!(table.update_flags(page, flags(0x1)).is_ok());
    match table.translate_page(page) {
        Ok(f) => assert_eq!(f.start_address().as_u64(), 0x77000),
        Err(_) => panic!("expected the frame"),
    }
    assert!(table.unmap(page).is_ok());
    assert!(matches!(table.update_flags(page, flags(0x1)), Err(FlagUpdateError::PageNotMapped)));
}

#[test]
fn update_flags_of_1gb_page_keeps_frame() {
    let mut p4 = PageTable::new();
    let mut table = MappedPageTable::new(&mut p4, Tables::default());
    let mut alloc = frames(&[0x10000]);
    let page: Page<Page1GB> = Page::include_address(VirtAddr::new(0));
    let frame = UnusedFrame::new(Frame::<Page1GB>::include_address(PhysAddr::new(0xc000_0000)));
    assert!(table.map_to(page, frame, flags(0x3), &mut alloc).is_ok());
    assert!(table.update_flags(page, flags(0x1)).is_ok());
    match table.translate_page(page) {
        Ok(f) => assert_eq!(f.start_address().as_u64(), 0xc000_0000),
        Err(_) => panic!("expected the frame"),
    }
    match table.unmap(page) {
        Ok((f, _)) => assert_eq!(f.start_address().as_u64(), 0xc000_0000),
        Err(_) => panic!("expected the frame"),
    }
    assert!(matches!(table.update_flags(page, flags(0x1)), Err(FlagUpdateError::PageNotMapped)));
}

#[test]
fn update_flags_of_2mb_page_keeps_frame() {
    let mut p4 = PageTable::new();
    let mut table = MappedPageTable::new(&mut p4, Tables::default());
    let mut alloc = frames(&[0x10000, 0x11000]);
    let page: Page<Page2MB> = Page::include_address(VirtAddr::new(0));
    let frame = UnusedFrame::new(Frame::<Page2MB>::include_address(PhysAddr::new(0x60_0000)));
    assert!(table.map_to(page, frame, flags(0x3), &mut alloc).is_ok());
    assert!(table.update_flags(page, flags(0x1)).is_ok());
    match table.translate_page(page) {
        Ok(f) => assert_eq!(f.start_address().as_u64(), 0x60_0000),
        Err(_) => panic!("expected the frame"),
    }
    match table.unmap(page) {
        Ok((f, _)) => assert_eq!(f.start_address().as_u64(), 0x60_0000),
        Err(_) => panic!("expected the frame"),
    }
    assert!(matches!(table.translate_page(page), Err(TranslateError::PageNotMapped)));
}

/// Tables seen at virtual pages, kept by page start and index; absent entries read as unused.
#[derive(Default)]
struct Pages {
    entries: HashMap<(u64, u64), PageTableEntry>,
}

impl TablePages for Pages {
    fn entry_at(&self, page: u64, index: u64) -> u64 {
        match self.entries.get(&(page, index)) {
            Some(e) => e.addr().as_u64() | e.flags().bits(),
            None => 0,
        }
    }

    fn read_entry(&self, page: Page<Page4KB>, index: PageIndex) -> PageTableEntry {
        let key = (page.start_address().as_u64(), index.as_u64());
        self.entries.get(&key).copied().unwrap_or_else(PageTableEntry::new)
    }

    fn write_entry(&mut self, page: Page<Page4KB>, index: PageIndex, entry: PageTableEntry) {
        self.entries.insert((page.start_address().as_u64(), index.as_u64()), entry);
    }
}

#[test]
fn recursive_map_translate_update_unmap_4kb() {
    let mut p4 = PageTable::new();
    let mut table = RecursivePageTable::new_unchecked(&mut p4, PageIndex::new(511), Pages::default());
    let mut alloc = frames(&[0x10000, 0x11000, 0x12000]);
    let page = page_4kb(0x40_1000);
    assert!(table.map_to(page, frame_4kb(0x77000), flags(0x3), &mut alloc).is_ok());
    match table.translate(VirtAddr::new(0x40_1abc)) {
        TranslationResult::Frame4KB { frame, offset } => {
            assert_eq!(frame.start_address().as_u64(), 0x77000);
            assert_eq!(offset, 0xabc);
        }
        _ => panic!("expected a 4 KiB frame"),
    }
    match table.translate_page(page) {
        Ok(f) => assert_eq!(f.start_address().as_u64(), 0x77000),
        Err(_) => panic!("expected the frame"),
    }
    assert!(table.update_flags(page, flags(0x1)).is_ok());
    match table.translate_page(page) {
        Ok(f) => assert_eq!(f.start_address().as_u64(), 0x77000),
        Err(_) => panic!("expected the frame"),
    }
    match table.unmap(page) {
        Ok((f, flush)) => {
            assert_eq!(f.start_address().as_u64(), 0x77000);
            assert_eq!(flush.page().start_address().as_u64(), 0x40_1000);
        }
        Err(_) => panic!("expected the frame"),
    }
    assert!(matches!(table.translate_page(page), Err(TranslateError::PageNotMapped)));
    assert!(matches!(table.unmap(page), Err(UnmapError::PageNotMapped)));
    assert!(matches!(table.update_flags(page, flags(0x1)), Err(FlagUpdateError::PageNotMapped)));
    assert!(matches!(table.translate(VirtAddr::new(0x40_1abc)), TranslationResult::PageNotMapped));
}

#[test]
fn recursive_tables_sit_at_recursive_pages() {
    let mut p4 = PageTable::new();
    let mut table = RecursivePageTable::new_unchecked(&mut p4, PageIndex::new(511), Pages::default());
    let mut alloc = frames(&[0x10000, 0x11000, 0x12000]);
    assert!(table.map_to(page_4kb(0x40_1000), frame_4kb(0x77000), flags(0x3), &mut alloc).is_ok());
    drop(table);
    // The level 4 entry 0 points to the first frame.
    assert_eq!(p4.index(0).addr().as_u64(), 0x10000);
}

#[test]
fn recursive_map_twice_and_without_frames() {
    let mut p4 = PageTable::new();
    let mut table = RecursivePageTable::new_unchecked(&mut p4, PageIndex::new(511), Pages::default());
    let mut none = frames(&[]);
    let r = table.map_to(page_4kb(0x2000), frame_4kb(0x77000), flags(0x3), &mut none);
    assert!(matches!(r, Err(MapToError::FrameAllocateFailed)));
    let mut alloc = frames(&[0x10000, 0x11000, 0x12000]);
    assert!(table.map_to(page_4kb(0x2000), frame_4kb(0x77000), flags(0x3), &mut alloc).is_ok());
    match table.map_to(page_4kb(0x2000), frame_4kb(0x78000), flags(0x3), &mut alloc) {
        Err(MapToError::PageAlreadyMapped(f)) => {
            assert_eq!(f.frame().start_address().as_u64(), 0x78000)
        }
        _ => panic!("expected PageAlreadyMapped"),
    }
}

#[test]
fn recursive_huge_pages() {
    let mut p4 = PageTable::new();
    let mut table = RecursivePageTable::new_unchecked(&mut p4, PageIndex::new(511), Pages::default());
    let mut alloc = frames(&[0x10000, 0x11000]);
    let giant: Page<Page1GB> = Page::include_address(VirtAddr::new(0x4000_0000));
    let frame = UnusedFrame::new(Frame::<Page1GB>::include_address(PhysAddr::new(0xc000_0000)));
    assert!(table.map_to(giant, frame, flags(0x3), &mut alloc).is_ok());
    match table.translate(VirtAddr::new(0x4123_4567)) {
        TranslationResult::Frame1GB { frame, offset } => {
            assert_eq!(frame.start_address().as_u64(), 0xc000_0000);
            assert_eq!(offset, 0x123_4567);
        }
        _ => panic!("expected a 1 GiB frame"),
    }
    // Below the 1 GiB page no 4 KiB page can be mapped.
    let r = table.map_to(page_4kb(0x4000_0000), frame_4kb(0x77000), flags(0x3), &mut alloc);
    assert!(matches!(r, Err(MapToError::ParentEntryHugePage)));
    // A 2 MiB page translates as a 4 KiB frame at its start with the 21-bit offset.
    let huge: Page<Page2MB> = Page::include_address(VirtAddr::new(0x60_0000));
    let frame = UnusedFrame::new(Frame::<Page2MB>::include_address(PhysAddr::new(0x4060_0000)));
    assert!(table.map_to(huge, frame, flags(0x3), &mut alloc).is_ok());
    match table.translate(VirtAddr::new(0x61_2345)) {
        TranslationResult::Frame4KB { frame, offset } => {
            assert_eq!(frame.start_address().as_u64(), 0x4060_0000);
            assert_eq!(offset, 0x01_2345);
        }
        _ => panic!("expected a 4 KiB frame"),
    }
    match table.translate_page(huge) {
        Ok(f) => assert_eq!(f.start_address().as_u64(), 0x4060_0000),
        Err(_) => panic!("expected the frame"),
    }
    assert!(table.update_flags(huge, flags(0x1)).is_ok());
    match table.unmap(huge) {
        Ok((f, _)) => assert_eq!(f.start_address().as_u64(), 0x4060_0000),
        Err(_) => panic!("expected the frame"),
    }
    match table.unmap(giant) {
        Ok((f, _)) => assert_eq!(f.start_address().as_u64(), 0xc000_0000),
        Err(_) => panic!("expected the frame"),
    }
    assert!(matches!(table.translate_page(giant), Err(TranslateError::PageNotMapped)));
}

#[test]
fn table_store_reads_what_was_written() {
    let mut store = TableStore::new();
    let f1 = Frame::<Page4KB>::include_address(PhysAddr::new(0x1000));
    let f2 = Frame::<Page4KB>::include_address(PhysAddr::new(0x2000));
    assert!(PhysicalToVirtual::read_entry(&store, f1, PageIndex::new(3)).is_unused());
    PhysicalToVirtual::write_entry(&mut store, f1, PageIndex::new(3), entry(0x5000, 0x3));
    PhysicalToVirtual::write_entry(&mut store, f2, PageIndex::new(3), entry(0x6000, 0x1));
    let e = PhysicalToVirtual::read_entry(&store, f1, PageIndex::new(3));
    assert_eq!(e.addr().as_u64(), 0x5000);
    assert_eq!(e.flags().bits(), 0x3);
    assert!(PhysicalToVirtual::read_entry(&store, f1, PageIndex::new(4)).is_unused());
    assert_eq!(PhysicalToVirtual::read_entry(&store, f2, PageIndex::new(3)).addr().as_u64(), 0x6000);
    let p = page_4kb(0x1000);
    assert_eq!(TablePages::read_entry(&store, p, PageIndex::new(3)).addr().as_u64(), 0x5000);
}

#[test]
fn mapped_table_over_table_store() {
    let mut p4 = PageTable::new();
    let mut table = MappedPageTable::new(&mut p4, TableStore::new());
    let mut alloc = frames(&[0x10000, 0x11000, 0x12000]);
    let page = page_4kb(0x40_1000);
    assert!(table.map_to(page, frame_4kb(0x77000), flags(0x3), &mut alloc).is_ok());
    match table.translate(VirtAddr::new(0x40_1abc)) {
        TranslationResult::Frame4KB { frame, offset } => {
            assert_eq!(frame.start_address().as_u64(), 0x77000);
            assert_eq!(offset, 0xabc);
        }
        _ => panic!("expected a 4 KiB frame"),
    }
}

#[test]
fn recursive_table_over_table_store() {
    let mut p4 = PageTable::new();
    let mut table = RecursivePageTable::new_unchecked(&mut p4, PageIndex::new(511), TableStore::new());
    let mut alloc = frames(&[0x10000, 0x11000, 0x12000]);
    let page = page_4kb(0x40_1000);
    assert!(table.map_to(page, frame_4kb(0x77000), flags(0x3), &mut alloc).is_ok());
    match table.unmap(page) {
        Ok((f, _)) => assert_eq!(f.start_address().as_u64(), 0x77000),
        Err(_) => panic!("expected the frame"),
    }
    assert!(matches!(table.translate_page(page), Err(TranslateError::PageNotMapped)));
}
