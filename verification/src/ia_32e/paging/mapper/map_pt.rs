//! Page tables reached through a mapping of physical memory: every table below the level 4
//! table lives in a physical frame, and a `PhysicalToVirtual` reads and writes the tables of
//! frames.
use crate::bits::PageTableFlags;
use crate::ia_32e::addr::{is_align_down, VirtAddr};
use crate::ia_32e::paging::allocator::{FrameAllocator, UnusedFrame};
use crate::ia_32e::paging::frame::Frame;
use crate::ia_32e::paging::mapper::{MapAllSize, Mapper, MapperFlush};
use crate::ia_32e::paging::page::{Page, Page1GB, Page2MB, Page4KB, PageSize, SIZE_1GB, SIZE_2MB};
use crate::ia_32e::paging::page_ops::PageIndex;
use crate::ia_32e::paging::page_table::{
    entry_huge, entry_present, lemma_entry_bits, PageTable, PageTableEntry, ENTRY_ADDR_MASK,
};
use crate::ia_32e::paging::result::{
    flag_error_of, translate_error_of, unmap_error_of, CreatePageTableError, FlagUpdateError,
    FrameError, MapToError, PageTableWalkError, TranslateError, TranslationResult, UnmapError,
};
use vstd::prelude::*;

verus! {

/// Access to the page tables that physical frames hold, implemented by the code that knows
/// where physical memory is mapped.
pub trait PhysicalToVirtual {
    /// The raw entry at `index` of the page table in the frame that starts at `frame`.
    spec fn entry_at(&self, frame: u64, index: u64) -> u64;

    /// The entry at `index` of the table in `frame`.
    fn read_entry(&self, frame: Frame<Page4KB>, index: PageIndex) -> (r: PageTableEntry)
        ensures
            r@ == self.entry_at(frame.start(), index@),
    ;

    /// Writes `entry` at `index` of the table in `frame`, and nothing else.
    fn write_entry(&mut self, frame: Frame<Page4KB>, index: PageIndex, entry: PageTableEntry)
        ensures
            forall|f: u64, i: u64| #[trigger]
                final(self).entry_at(f, i) == if f == frame.start() && i == index@ {
                    entry@
                } else {
                    old(self).entry_at(f, i)
                },
    ;
}

/// The start of the frame whose table the entry `e` points to: `NotMapped` where it is not
/// present, `MappedToHugePage` where it maps a huge page.
pub open spec fn next_frame(e: u64) -> Result<u64, PageTableWalkError> {
    if !entry_present(e) {
        Err(PageTableWalkError::NotMapped)
    } else if entry_huge(e) {
        Err(PageTableWalkError::MappedToHugePage)
    } else {
        Ok(e & ENTRY_ADDR_MASK)
    }
}

/// Whether the tables of `b` are those of `a`.
pub open spec fn same_tables<P: PhysicalToVirtual>(a: P, b: P) -> bool {
    forall|f: u64, i: u64| #[trigger] b.entry_at(f, i) == a.entry_at(f, i)
}

/// Whether the tables of `b` are those of `a` with the entry at `index` of the table in
/// `frame` replaced by `e`.
pub open spec fn entry_written<P: PhysicalToVirtual>(a: P, b: P, frame: u64, index: u64, e: u64) -> bool {
    forall|f: u64, i: u64| #[trigger]
        b.entry_at(f, i) == if f == frame && i == index {
            e
        } else {
            a.entry_at(f, i)
        }
}

/// Whether `r` is what a walk through the entry `e` finds: the frame of the next table, or
/// the reason there is none.
pub open spec fn walked(r: Result<Frame<Page4KB>, PageTableWalkError>, e: u64) -> bool {
    match r {
        Ok(f) => next_frame(e) == Ok::<u64, PageTableWalkError>(f.start()),
        Err(err) => next_frame(e) == Err::<u64, PageTableWalkError>(err),
    }
}

/// Whether `r` is the table that the entry `e` leads to once it is set: its frame, or
/// `MappedToHugePage` where `e` maps a huge page.
pub open spec fn reached(r: Result<Frame<Page4KB>, CreatePageTableError>, e: u64) -> bool {
    match r {
        Ok(f) => next_frame(e) == Ok::<u64, PageTableWalkError>(f.start()),
        Err(CreatePageTableError::MappedToHugePage) => next_frame(e) == Err::<u64, PageTableWalkError>(
            PageTableWalkError::MappedToHugePage,
        ),
        Err(CreatePageTableError::FrameAllocateFailed) => false,
    }
}

/// Whether the tables of `b` are those of `a` after `e` was written at `at` (where `at` is
/// some) and then the table in the frame `zero` was cleared (where `zero` is some).
pub open spec fn placed<P: PhysicalToVirtual>(
    a: P,
    b: P,
    at: Option<(Frame<Page4KB>, PageIndex)>,
    e: u64,
    zero: Option<u64>,
) -> bool {
    forall|f: u64, i: u64| #[trigger]
        b.entry_at(f, i) == if zero matches Some(z) && f == z && i < 512 {
            0
        } else if at matches Some(l) && f == l.0.start() && i == l.1@ {
            e
        } else {
            a.entry_at(f, i)
        }
}

/// Walks and extends the tables below the level 4 table.
pub struct PageTableWalker<P: PhysicalToVirtual> {
    phy_to_vir: P,
}

impl<P: PhysicalToVirtual> PageTableWalker<P> {
    /// The tables the walker reads and writes.
    pub closed spec fn tables(&self) -> P {
        self.phy_to_vir
    }

    /// A walker over the tables that `p` reaches.
    pub fn new(p: P) -> (r: Self)
        ensures
            r.tables() == p,
    {
        Self { phy_to_vir: p }
    }

    /// The frame of the table that `entry` points to: `NotMapped` where the entry is not
    /// present, `MappedToHugePage` where it maps a huge page.
    fn next_table(&self, entry: &PageTableEntry) -> (r: Result<Frame<Page4KB>, PageTableWalkError>)
        ensures
            walked(r, entry@),
    {
        match entry.frame() {
            Ok(frame) => Ok(frame),
            Err(err) => Err(PageTableWalkError::from(err)),
        }
    }

    /// Clears every entry of the table in `frame`.
    fn zero_table(&mut self, frame: Frame<Page4KB>)
        ensures
            forall|f: u64, i: u64| #[trigger]
                final(self).tables().entry_at(f, i) == if f == frame.start() && i < 512 {
                    0
                } else {
                    old(self).tables().entry_at(f, i)
                },
    {
        let ghost before = self.phy_to_vir;
        let mut i: u16 = 0;
        while i < 512
            invariant
                i <= 512,
                forall|f: u64, j: u64| #[trigger]
                    self.phy_to_vir.entry_at(f, j) == if f == frame.start() && j < i {
                        0
                    } else {
                        before.entry_at(f, j)
                    },
            decreases 512 - i,
        {
            self.phy_to_vir.write_entry(frame, PageIndex::new(i), PageTableEntry::new());
            i = i + 1;
        }
    }

    /// The table that `entry` points to, made first where the entry is unused: a frame comes
    /// from `allocator`, the entry points to it (present and writable) and is written at `at`
    /// where `at` is some, and the new table is cleared. `FrameAllocateFailed` where the
    /// allocator has no frame, `MappedToHugePage` where the entry maps a huge page.
    fn create_next_table<A: FrameAllocator<Page4KB>>(
        &mut self,
        entry: &mut PageTableEntry,
        at: Option<(Frame<Page4KB>, PageIndex)>,
        allocator: &mut A,
    ) -> (r: Result<Frame<Page4KB>, CreatePageTableError>)
        requires
            old(entry)@ == 0 || entry_present(old(entry)@),
        ensures
            old(entry)@ != 0 ==> *final(entry) == *old(entry) && same_tables(
                old(self).tables(),
                final(self).tables(),
            ) && reached(r, old(entry)@),
            old(entry)@ == 0 && r == Err::<Frame<Page4KB>, CreatePageTableError>(
                CreatePageTableError::FrameAllocateFailed,
            ) ==> *final(entry) == *old(entry) && same_tables(old(self).tables(), final(self).tables()),
            old(entry)@ == 0 && r != Err::<Frame<Page4KB>, CreatePageTableError>(
                CreatePageTableError::FrameAllocateFailed,
            ) ==> final(entry)@ & 3 == 3 && reached(r, final(entry)@) && placed(
                old(self).tables(),
                final(self).tables(),
                at,
                final(entry)@,
                if r is Ok {
                    Some(final(entry)@ & ENTRY_ADDR_MASK)
                } else {
                    None
                },
            ),
    {
        let ghost before = self.phy_to_vir;
        let mut created = false;
        if entry.is_unused() {
            match allocator.allocate() {
                Some(frame) => {
                    entry.set_frame(
                        frame.frame(),
                        PageTableFlags { bits: PageTableFlags::PRESENT | PageTableFlags::WRITABLE },
                    );
                    proof {
                        lemma_entry_bits(frame.spec_frame().start(), 3);
                    }
                    match at {
                        Some(l) => self.phy_to_vir.write_entry(l.0, l.1, *entry),
                        None => {},
                    }
                    created = true;
                },
                None => {
                    return Err(CreatePageTableError::FrameAllocateFailed);
                },
            }
        }
        let ghost written = self.phy_to_vir;
        let pt = match self.next_table(entry) {
            Ok(table) => table,
            Err(PageTableWalkError::MappedToHugePage) => {
                return Err(CreatePageTableError::MappedToHugePage);
            },
            Err(PageTableWalkError::NotMapped) => {
                return unreached();
            },
        };
        if created {
            self.zero_table(pt);
        }
        Ok(pt)
    }
}

/// The index into a table at the level whose indices start at bit `shift` of `a`.
pub open spec fn table_index(a: u64, shift: u64) -> u64 {
    (a >> shift) & 0o777
}

/// Whether `r` is the translation of the virtual address `a` through the level 4 table `p4`
/// and the tables of `tables`: unmapped where an entry on the way is not present or the last
/// one is unused; a 1 GiB frame where the level 3 or the level 2 entry maps a huge page,
/// with the offset taken from the low 30 bits; otherwise the 4 KiB frame of the level 1
/// entry and the low 12 bits.
pub open spec fn translated<P: PhysicalToVirtual>(
    r: TranslationResult,
    p4: Seq<PageTableEntry>,
    tables: P,
    a: u64,
) -> bool {
    match next_frame(p4[table_index(a, 39) as int]@) {
        Err(_) => r is PageNotMapped,
        Ok(f3) => {
            let e3 = tables.entry_at(f3, table_index(a, 30));
            match next_frame(e3) {
                Err(PageTableWalkError::NotMapped) => r is PageNotMapped,
                Err(PageTableWalkError::MappedToHugePage) => r matches TranslationResult::Frame1GB {
                    frame,
                    offset,
                } && is_align_down(e3 & ENTRY_ADDR_MASK, SIZE_1GB, frame.start()) && offset == a
                    & 0o777_777_7777,
                Ok(f2) => {
                    let e2 = tables.entry_at(f2, table_index(a, 21));
                    match next_frame(e2) {
                        Err(PageTableWalkError::NotMapped) => r is PageNotMapped,
                        Err(PageTableWalkError::MappedToHugePage) => r matches TranslationResult::Frame1GB {
                            frame,
                            offset,
                        } && is_align_down(e2 & ENTRY_ADDR_MASK, SIZE_1GB, frame.start()) && offset
                            == a & 0o777_777_7777,
                        Ok(f1) => {
                            let e1 = tables.entry_at(f1, table_index(a, 12));
                            if e1 == 0 {
                                r is PageNotMapped
                            } else {
                                r matches TranslationResult::Frame4KB { frame, offset } && frame.start()
                                    == e1 & ENTRY_ADDR_MASK && offset == a & 0xfff
                            }
                        },
                    }
                },
            }
        },
    }
}

/// The frame of the table that the level 4 entry `i4` of `p4` points to.
pub open spec fn walk1(p4: Seq<PageTableEntry>, i4: u64) -> Result<u64, PageTableWalkError> {
    next_frame(p4[i4 as int]@)
}

/// The frame of the table that the walk through the level 4 entry `i4` and then the entry
/// `i3` of the next table reaches.
pub open spec fn walk2<P: PhysicalToVirtual>(p4: Seq<PageTableEntry>, tables: P, i4: u64, i3: u64) -> Result<
    u64,
    PageTableWalkError,
> {
    match walk1(p4, i4) {
        Ok(f) => next_frame(tables.entry_at(f, i3)),
        Err(e) => Err(e),
    }
}

/// The frame of the table that the walk through the entries `i4`, `i3` and `i2` reaches.
pub open spec fn walk3<P: PhysicalToVirtual>(
    p4: Seq<PageTableEntry>,
    tables: P,
    i4: u64,
    i3: u64,
    i2: u64,
) -> Result<u64, PageTableWalkError> {
    match walk2(p4, tables, i4, i3) {
        Ok(f) => next_frame(tables.entry_at(f, i2)),
        Err(e) => Err(e),
    }
}

/// Whether `r` is the frame of size `size` that the entry `e` maps, where `e` is set and its
/// address is aligned to `size`: `PageNotMapped` where it is unused, `InvalidFrameAddress`
/// with the address where that is not aligned.
pub open spec fn entry_translated<S: PageSize>(r: Result<Frame<S>, TranslateError>, e: u64, size: u64) -> bool {
    if e == 0 {
        r matches Err(TranslateError::PageNotMapped)
    } else if (e & ENTRY_ADDR_MASK) & ((size - 1) as u64) != 0 {
        r matches Err(TranslateError::InvalidFrameAddress(a)) && a@ == e & ENTRY_ADDR_MASK
    } else {
        r matches Ok(f) && f.start() == e & ENTRY_ADDR_MASK
    }
}

/// Whether `r` is what `translate_page` gives for the 1 GiB page at `a`: the frame of the
/// entry at the page's level 3 index of the table that the level 4 entry at its level 4
/// index points to.
pub open spec fn translated_1gb<P: PhysicalToVirtual>(
    r: Result<Frame<Page1GB>, TranslateError>,
    p4: Seq<PageTableEntry>,
    tables: P,
    a: u64,
) -> bool {
    match walk1(p4, table_index(a, 39)) {
        Err(e) => r == Err::<Frame<Page1GB>, TranslateError>(translate_error_of(e)),
        Ok(f3) => entry_translated(r, tables.entry_at(f3, table_index(a, 30)), SIZE_1GB),
    }
}

/// Whether `r` is what `translate_page` gives for the 2 MiB page at `a`: the walk goes
/// through the level 4 entry at the page's level 4 index and the level 3 entry at its level
/// 3 index, and takes the frame of the level 2 entry at its level 2 index.
pub open spec fn translated_2mb<P: PhysicalToVirtual>(
    r: Result<Frame<Page2MB>, TranslateError>,
    p4: Seq<PageTableEntry>,
    tables: P,
    a: u64,
) -> bool {
    match walk2(p4, tables, table_index(a, 39), table_index(a, 30)) {
        Err(e) => r == Err::<Frame<Page2MB>, TranslateError>(translate_error_of(e)),
        Ok(f2) => entry_translated(r, tables.entry_at(f2, table_index(a, 21)), SIZE_2MB),
    }
}

/// Whether `r` is what `translate_page` gives for the 4 KiB page at `a`: the walk goes
/// through the entries at the page's level 4, level 3 and level 2 indices, and takes the
/// frame of the level 1 entry at its level 1 index.
pub open spec fn translated_4kb<P: PhysicalToVirtual>(
    r: Result<Frame<Page4KB>, TranslateError>,
    p4: Seq<PageTableEntry>,
    tables: P,
    a: u64,
) -> bool {
    match walk3(p4, tables, table_index(a, 39), table_index(a, 30), table_index(a, 21)) {
        Err(e) => r == Err::<Frame<Page4KB>, TranslateError>(translate_error_of(e)),
        Ok(f1) => entry_translated(r, tables.entry_at(f1, table_index(a, 12)), 0x1000),
    }
}

/// Whether unmapping the huge page `page` that the entry `e` at `index` of the table in
/// `frame` maps went as it should: `PageNotMapped` where `e` is not present,
/// `ParentEntryHugePage` where it maps no huge page, `InvalidFrameAddress` where its address
/// is not aligned to `size`, and otherwise its frame, with the entry cleared.
pub open spec fn huge_unmapped<S: PageSize, P: PhysicalToVirtual>(
    r: Result<(Frame<S>, MapperFlush<S>), UnmapError>,
    page: Page<S>,
    before: P,
    after: P,
    frame: u64,
    index: u64,
    size: u64,
) -> bool {
    let e = before.entry_at(frame, index);
    if !entry_present(e) {
        r matches Err(UnmapError::PageNotMapped) && same_tables(before, after)
    } else if !entry_huge(e) {
        r matches Err(UnmapError::ParentEntryHugePage) && same_tables(before, after)
    } else if (e & ENTRY_ADDR_MASK) & ((size - 1) as u64) != 0 {
        r matches Err(UnmapError::InvalidFrameAddress(a)) && a@ == e & ENTRY_ADDR_MASK
            && same_tables(before, after)
    } else {
        r matches Ok(v) && v.0.start() == e & ENTRY_ADDR_MASK && v.1.spec_page() == page
            && entry_written(before, after, frame, index, 0)
    }
}

/// Whether changing the flags of the huge page `page`, whose entry sits at `index` of the
/// table in `frame`, went as it should: `PageNotMapped` where the entry is unused, and
/// otherwise the entry keeps its address and takes `flags` and HUGE_PAGE.
pub open spec fn huge_flags_updated<S: PageSize, P: PhysicalToVirtual>(
    r: Result<MapperFlush<S>, FlagUpdateError>,
    page: Page<S>,
    before: P,
    after: P,
    frame: u64,
    index: u64,
    flags: u64,
) -> bool {
    let e = before.entry_at(frame, index);
    if e == 0 {
        r matches Err(FlagUpdateError::PageNotMapped) && same_tables(before, after)
    } else {
        r matches Ok(fl) && fl.spec_page() == page && entry_written(
            before,
            after,
            frame,
            index,
            (e & ENTRY_ADDR_MASK) | (flags | 0x80),
        )
    }
}

/// A level 4 table and the tables below it, which physical frames hold.
pub struct MappedPageTable<'a, P: PhysicalToVirtual> {
    pt_walker: PageTableWalker<P>,
    level_4_table: &'a mut PageTable,
}

impl<'a, P: PhysicalToVirtual> MappedPageTable<'a, P> {
    /// The entries of the level 4 table.
    pub closed spec fn level_4(&self) -> Seq<PageTableEntry> {
        self.level_4_table@
    }

    /// The tables below the level 4 table.
    pub closed spec fn tables(&self) -> P {
        self.pt_walker.tables()
    }

    /// The table whose level 4 table is `level_4_table` and whose other tables `phy_to_vir`
    /// reaches.
    pub fn new(level_4_table: &'a mut PageTable, phy_to_vir: P) -> (r: Self)
        ensures
            r.level_4() == old(level_4_table)@,
            r.tables() == phy_to_vir,
    {
        Self { pt_walker: PageTableWalker::new(phy_to_vir), level_4_table }
    }

}


impl<'a, P: PhysicalToVirtual> MapAllSize for MappedPageTable<'a, P> {
    /// The level 4 entry of `addr` does not map a huge page.
    open spec fn translatable(&self, addr: VirtAddr) -> bool {
        !(entry_present(self.level_4()[table_index(addr@, 39) as int]@) && entry_huge(
            self.level_4()[table_index(addr@, 39) as int]@,
        ))
    }

    /// What `addr` translates to (see `translated`).
    fn translate(&self, addr: VirtAddr) -> (r: TranslationResult)
        ensures
            translated(r, self.level_4(), self.tables(), addr@),
    {
        let p4 = &self.level_4_table;
        let p3 = match self.pt_walker.next_table(p4.index_of(addr.page4_index())) {
            Ok(pt) => pt,
            Err(PageTableWalkError::NotMapped) => return TranslationResult::PageNotMapped,
            Err(PageTableWalkError::MappedToHugePage) => return unreached(),
        };
        let e3 = self.pt_walker.phy_to_vir.read_entry(p3, addr.page3_index());
        let p2 = match self.pt_walker.next_table(&e3) {
            Ok(pt) => pt,
            Err(PageTableWalkError::NotMapped) => return TranslationResult::PageNotMapped,
            Err(PageTableWalkError::MappedToHugePage) => {
                let frame = Frame::<Page1GB>::include_address(e3.addr());
                let offset = addr.as_u64() & 0o_777_777_7777;
                return TranslationResult::Frame1GB { frame, offset };
            },
        };
        let e2 = self.pt_walker.phy_to_vir.read_entry(p2, addr.page2_index());
        let p1 = match self.pt_walker.next_table(&e2) {
            Ok(pt) => pt,
            Err(PageTableWalkError::NotMapped) => return TranslationResult::PageNotMapped,
            Err(PageTableWalkError::MappedToHugePage) => {
                let frame = Frame::<Page1GB>::include_address(e2.addr());
                let offset = addr.as_u64() & 0o_777_777_7777;
                return TranslationResult::Frame1GB { frame, offset };
            },
        };
        let entry = self.pt_walker.phy_to_vir.read_entry(p1, addr.page1_index());
        if entry.is_unused() {
            return TranslationResult::PageNotMapped;
        }
        proof {
            lemma_entry_bits(entry@, 0);
        }
        let frame = match Frame::<Page4KB>::from_start_addr(entry.addr()) {
            Ok(frame) => frame,
            Err(_) => return TranslationResult::InvalidFrameAddress(entry.addr()),
        };
        let offset = addr.page_offset().as_u64();
        TranslationResult::Frame4KB { frame, offset }
    }
}

impl<'a, P: PhysicalToVirtual> Mapper<Page1GB> for MappedPageTable<'a, P> {
    /// The level 4 entry of the page is unused or present.
    open spec fn map_ready(&self, page: Page<Page1GB>) -> bool {
        let e4 = self.level_4()[table_index(page.start(), 39) as int]@;
        e4 == 0 || entry_present(e4)
    }

    /// Where the level 4 entry of the page leads to a table, the page's level 3 entry there
    /// becomes the frame with `flags` and HUGE_PAGE if it is unused, and `PageAlreadyMapped`
    /// gives the frame back otherwise; where that entry maps a huge page, the error is
    /// `ParentEntryHugePage`. Where the level 4 entry is unused, a table is made first from a
    /// frame of `allocator`.
    fn map_to<A: FrameAllocator<Page4KB>>(
        &mut self,
        page: Page<Page1GB>,
        frame: UnusedFrame<Page1GB>,
        flags: PageTableFlags,
        allocator: &mut A,
    ) -> (r: Result<MapperFlush<Page1GB>, MapToError<Page1GB>>)
        ensures
            r matches Ok(fl) ==> fl.spec_page() == page,
            r is Ok ==> (walk1(final(self).level_4(), table_index(page.start(), 39)) matches Ok(f3)
                && final(self).tables().entry_at(f3, table_index(page.start(), 30))
                == frame.spec_frame().start() | (flags.bits | 0x80)),
            r matches Err(MapToError::PageAlreadyMapped(u)) ==> u == frame,
            ({
                let i4 = table_index(page.start(), 39);
                let i3 = table_index(page.start(), 30);
                match walk1(old(self).level_4(), i4) {
                    Ok(f3) => final(self).level_4() == old(self).level_4() && if old(
                        self,
                    ).tables().entry_at(f3, i3) == 0 {
                        r is Ok && entry_written(
                            old(self).tables(),
                            final(self).tables(),
                            f3,
                            i3,
                            frame.spec_frame().start() | (flags.bits | 0x80),
                        )
                    } else {
                        r matches Err(MapToError::PageAlreadyMapped(_)) && same_tables(
                            old(self).tables(),
                            final(self).tables(),
                        )
                    },
                    Err(PageTableWalkError::MappedToHugePage) => r matches Err(
                        MapToError::ParentEntryHugePage,
                    ) && final(self).level_4() == old(self).level_4() && same_tables(
                        old(self).tables(),
                        final(self).tables(),
                    ),
                    Err(PageTableWalkError::NotMapped) => r matches Err(
                        MapToError::FrameAllocateFailed,
                    ) ==> final(self).level_4() == old(self).level_4() && same_tables(
                        old(self).tables(),
                        final(self).tables(),
                    ),
                }
            }),
    {
        let i4 = page.p4_index();
        let mut e4 = *self.level_4_table.index_of(i4);
        proof {
            self.level_4_table.lemma_entry_count();
            lemma_entry_bits(e4@, 0);
            lemma_entry_bits(page.start(), 30);
        }
        let created = self.pt_walker.create_next_table(&mut e4, None, allocator);
        self.level_4_table.set_entry(i4.as_usize(), e4);
        assert(e4 == old(self).level_4()[i4@ as int] ==> self.level_4() =~= old(self).level_4());
        let p3 = match created {
            Ok(table) => table,
            Err(err) => return Err(MapToError::from(err)),
        };
        let i3 = page.p3_index();
        let mut entry = self.pt_walker.phy_to_vir.read_entry(p3, i3);
        if !entry.is_unused() {
            return Err(MapToError::PageAlreadyMapped(frame));
        }
        entry.set_addr(
            frame.frame().start_address(),
            flags.union(PageTableFlags { bits: PageTableFlags::HUGE_PAGE }),
        );
        self.pt_walker.phy_to_vir.write_entry(p3, i3, entry);
        Ok(MapperFlush::new(page))
    }

    /// Clears the level 3 entry of the page (see `huge_unmapped`), reached through the level
    /// 4 entry at the page's level 4 index.
    fn unmap(&mut self, page: Page<Page1GB>) -> (r: Result<(Frame<Page1GB>, MapperFlush<Page1GB>), UnmapError>)
        ensures
            final(self).level_4() == old(self).level_4(),
            ({
                let i4 = table_index(page.start(), 39);
                let i3 = table_index(page.start(), 30);
                match walk1(old(self).level_4(), i4) {
                    Err(e) => r == Err::<(Frame<Page1GB>, MapperFlush<Page1GB>), UnmapError>(
                        unmap_error_of(e),
                    ) && same_tables(old(self).tables(), final(self).tables()),
                    Ok(f3) => huge_unmapped(
                        r,
                        page,
                        old(self).tables(),
                        final(self).tables(),
                        f3,
                        i3,
                        SIZE_1GB,
                    ),
                }
            }),
    {
        let i3 = page.p3_index();
        let p3 = match self.pt_walker.next_table(self.level_4_table.index_of(page.p4_index())) {
            Ok(table) => table,
            Err(err) => return Err(UnmapError::from(err)),
        };
        let mut entry = self.pt_walker.phy_to_vir.read_entry(p3, i3);
        proof {
            lemma_entry_bits(entry@, 0);
        }
        let flags = entry.flags();
        if !flags.contains(PageTableFlags { bits: PageTableFlags::PRESENT }) {
            return Err(UnmapError::PageNotMapped);
        }
        if !flags.contains(PageTableFlags { bits: PageTableFlags::HUGE_PAGE }) {
            return Err(UnmapError::ParentEntryHugePage);
        }
        let frame = match Frame::<Page1GB>::from_start_addr(entry.addr()) {
            Ok(frame) => frame,
            Err(_) => return Err(UnmapError::InvalidFrameAddress(entry.addr())),
        };
        entry.set_unused();
        self.pt_walker.phy_to_vir.write_entry(p3, i3, entry);
        Ok((frame, MapperFlush::new(page)))
    }

    /// Gives the level 3 entry of the page `flags` and HUGE_PAGE (see `huge_flags_updated`),
    /// reached through the level 4 entry at the page's level 4 index.
    fn update_flags(&mut self, page: Page<Page1GB>, flags: PageTableFlags) -> (r: Result<
        MapperFlush<Page1GB>,
        FlagUpdateError,
    >)
        ensures
            final(self).level_4() == old(self).level_4(),
            ({
                let i4 = table_index(page.start(), 39);
                let i3 = table_index(page.start(), 30);
                match walk1(old(self).level_4(), i4) {
                    Err(e) => r == Err::<MapperFlush<Page1GB>, FlagUpdateError>(flag_error_of(e))
                        && same_tables(old(self).tables(), final(self).tables()),
                    Ok(f3) => huge_flags_updated(
                        r,
                        page,
                        old(self).tables(),
                        final(self).tables(),
                        f3,
                        i3,
                        flags.bits,
                    ),
                }
            }),
    {
        let i3 = page.p3_index();
        let p3 = match self.pt_walker.next_table(self.level_4_table.index_of(page.p4_index())) {
            Ok(table) => table,
            Err(err) => return Err(FlagUpdateError::from(err)),
        };
        let mut entry = self.pt_walker.phy_to_vir.read_entry(p3, i3);
        if entry.is_unused() {
            return Err(FlagUpdateError::PageNotMapped);
        }
        entry.set_flags(flags.union(PageTableFlags { bits: PageTableFlags::HUGE_PAGE }));
        self.pt_walker.phy_to_vir.write_entry(p3, i3, entry);
        Ok(MapperFlush::new(page))
    }

    /// The frame that the page's level 3 entry maps (see `translated_1gb`).
    fn translate_page(&mut self, page: Page<Page1GB>) -> (r: Result<Frame<Page1GB>, TranslateError>)
        ensures
            final(self).level_4() == old(self).level_4(),
            same_tables(old(self).tables(), final(self).tables()),
            translated_1gb(r, old(self).level_4(), old(self).tables(), page.start()),
    {
        let i3 = page.p3_index();
        let p3 = match self.pt_walker.next_table(self.level_4_table.index_of(page.p4_index())) {
            Ok(table) => table,
            Err(err) => return Err(TranslateError::from(err)),
        };
        let entry = self.pt_walker.phy_to_vir.read_entry(p3, i3);
        if entry.is_unused() {
            return Err(TranslateError::PageNotMapped);
        }
        match Frame::<Page1GB>::from_start_addr(entry.addr()) {
            Ok(frame) => Ok(frame),
            Err(_) => Err(TranslateError::InvalidFrameAddress(entry.addr())),
        }
    }
}

impl<'a, P: PhysicalToVirtual> Mapper<Page2MB> for MappedPageTable<'a, P> {
    /// The level 4 entry of the page is unused or present, and so is its level 3 entry where
    /// the level 4 entry leads to a table.
    open spec fn map_ready(&self, page: Page<Page2MB>) -> bool {
        let e4 = self.level_4()[table_index(page.start(), 39) as int]@;
        &&& e4 == 0 || entry_present(e4)
        &&& walk1(self.level_4(), table_index(page.start(), 39)) matches Ok(f3) ==> ({
            let e3 = self.tables().entry_at(f3, table_index(page.start(), 30));
            e3 == 0 || entry_present(e3)
        })
    }

    /// Where the walk through the page's level 4 and level 3 entries reaches a table, the
    /// page's level 2 entry there becomes the frame with `flags` and HUGE_PAGE if it is unused,
    /// and `PageAlreadyMapped` gives the frame back otherwise; where the walk meets a huge
    /// page, the error is `ParentEntryHugePage`. Missing tables are made first from frames of
    /// `allocator`.
    fn map_to<A: FrameAllocator<Page4KB>>(
        &mut self,
        page: Page<Page2MB>,
        frame: UnusedFrame<Page2MB>,
        flags: PageTableFlags,
        allocator: &mut A,
    ) -> (r: Result<MapperFlush<Page2MB>, MapToError<Page2MB>>)
        ensures
            r matches Ok(fl) ==> fl.spec_page() == page,
            r is Ok ==> exists|f2: u64|
                final(self).tables().entry_at(f2, table_index(page.start(), 21))
                    == frame.spec_frame().start() | (flags.bits | 0x80),
            r matches Err(MapToError::PageAlreadyMapped(u)) ==> u == frame,
            ({
                let i4 = table_index(page.start(), 39);
                let i3 = table_index(page.start(), 30);
                let i2 = table_index(page.start(), 21);
                match walk2(old(self).level_4(), old(self).tables(), i4, i3) {
                    Ok(f2) => final(self).level_4() == old(self).level_4() && if old(
                        self,
                    ).tables().entry_at(f2, i2) == 0 {
                        r is Ok && entry_written(
                            old(self).tables(),
                            final(self).tables(),
                            f2,
                            i2,
                            frame.spec_frame().start() | (flags.bits | 0x80),
                        )
                    } else {
                        r matches Err(MapToError::PageAlreadyMapped(_)) && same_tables(
                            old(self).tables(),
                            final(self).tables(),
                        )
                    },
                    Err(PageTableWalkError::MappedToHugePage) => r matches Err(
                        MapToError::ParentEntryHugePage,
                    ) && final(self).level_4() == old(self).level_4() && same_tables(
                        old(self).tables(),
                        final(self).tables(),
                    ),
                    Err(PageTableWalkError::NotMapped) => (r matches Err(
                        MapToError::FrameAllocateFailed,
                    ) && walk1(old(self).level_4(), i4) is Ok) ==> final(self).level_4() == old(
                        self,
                    ).level_4() && same_tables(old(self).tables(), final(self).tables()),
                }
            }),
    {
        let i4 = page.p4_index();
        let i3 = page.p3_index();
        let i2 = page.p2_index();
        let mut e4 = *self.level_4_table.index_of(i4);
        proof {
            self.level_4_table.lemma_entry_count();
            lemma_entry_bits(e4@, 0);
            lemma_entry_bits(page.start(), 30);
            lemma_entry_bits(page.start(), 21);
        }
        let created = self.pt_walker.create_next_table(&mut e4, None, allocator);
        self.level_4_table.set_entry(i4.as_usize(), e4);
        assert(e4 == old(self).level_4()[i4@ as int] ==> self.level_4() =~= old(self).level_4());
        let p3 = match created {
            Ok(table) => table,
            Err(err) => return Err(MapToError::from(err)),
        };
        let mut e3 = self.pt_walker.phy_to_vir.read_entry(p3, i3);
        let p2 = match self.pt_walker.create_next_table(&mut e3, Some((p3, i3)), allocator) {
            Ok(table) => table,
            Err(err) => return Err(MapToError::from(err)),
        };
        let mut entry = self.pt_walker.phy_to_vir.read_entry(p2, i2);
        if !entry.is_unused() {
            return Err(MapToError::PageAlreadyMapped(frame));
        }
        entry.set_addr(
            frame.frame().start_address(),
            flags.union(PageTableFlags { bits: PageTableFlags::HUGE_PAGE }),
        );
        self.pt_walker.phy_to_vir.write_entry(p2, i2, entry);
        assert(self.tables().entry_at(p2.start(), table_index(page.start(), 21))
            == frame.spec_frame().start() | (flags.bits | 0x80));
        Ok(MapperFlush::new(page))
    }

    /// Clears the level 2 entry of the page (see `huge_unmapped`), reached through the level
    /// 4 entry at the page's level 4 index and the level 3 entry at its level 3 index.
    fn unmap(&mut self, page: Page<Page2MB>) -> (r: Result<(Frame<Page2MB>, MapperFlush<Page2MB>), UnmapError>)
        ensures
            final(self).level_4() == old(self).level_4(),
            ({
                let i4 = table_index(page.start(), 39);
                let i3 = table_index(page.start(), 30);
                let i2 = table_index(page.start(), 21);
                match walk2(old(self).level_4(), old(self).tables(), i4, i3) {
                    Err(e) => r == Err::<(Frame<Page2MB>, MapperFlush<Page2MB>), UnmapError>(
                        unmap_error_of(e),
                    ) && same_tables(old(self).tables(), final(self).tables()),
                    Ok(f2) => huge_unmapped(
                        r,
                        page,
                        old(self).tables(),
                        final(self).tables(),
                        f2,
                        i2,
                        SIZE_2MB,
                    ),
                }
            }),
    {
        let i3 = page.p3_index();
        let i2 = page.p2_index();
        let p3 = match self.pt_walker.next_table(self.level_4_table.index_of(page.p4_index())) {
            Ok(table) => table,
            Err(err) => return Err(UnmapError::from(err)),
        };
        let e3 = self.pt_walker.phy_to_vir.read_entry(p3, i3);
        let p2 = match self.pt_walker.next_table(&e3) {
            Ok(table) => table,
            Err(err) => return Err(UnmapError::from(err)),
        };
        let mut entry = self.pt_walker.phy_to_vir.read_entry(p2, i2);
        proof {
            lemma_entry_bits(entry@, 0);
        }
        let flags = entry.flags();
        if !flags.contains(PageTableFlags { bits: PageTableFlags::PRESENT }) {
            return Err(UnmapError::PageNotMapped);
        }
        if !flags.contains(PageTableFlags { bits: PageTableFlags::HUGE_PAGE }) {
            return Err(UnmapError::ParentEntryHugePage);
        }
        let frame = match Frame::<Page2MB>::from_start_addr(entry.addr()) {
            Ok(frame) => frame,
            Err(_) => return Err(UnmapError::InvalidFrameAddress(entry.addr())),
        };
        entry.set_unused();
        self.pt_walker.phy_to_vir.write_entry(p2, i2, entry);
        Ok((frame, MapperFlush::new(page)))
    }

    /// Gives the level 2 entry of the page `flags` and HUGE_PAGE (see `huge_flags_updated`),
    /// reached as `unmap` reaches it.
    fn update_flags(&mut self, page: Page<Page2MB>, flags: PageTableFlags) -> (r: Result<
        MapperFlush<Page2MB>,
        FlagUpdateError,
    >)
        ensures
            final(self).level_4() == old(self).level_4(),
            ({
                let i4 = table_index(page.start(), 39);
                let i3 = table_index(page.start(), 30);
                let i2 = table_index(page.start(), 21);
                match walk2(old(self).level_4(), old(self).tables(), i4, i3) {
                    Err(e) => r == Err::<MapperFlush<Page2MB>, FlagUpdateError>(flag_error_of(e))
                        && same_tables(old(self).tables(), final(self).tables()),
                    Ok(f2) => huge_flags_updated(
                        r,
                        page,
                        old(self).tables(),
                        final(self).tables(),
                        f2,
                        i2,
                        flags.bits,
                    ),
                }
            }),
    {
        let i3 = page.p3_index();
        let i2 = page.p2_index();
        let p3 = match self.pt_walker.next_table(self.level_4_table.index_of(page.p4_index())) {
            Ok(table) => table,
            Err(err) => return Err(FlagUpdateError::from(err)),
        };
        let e3 = self.pt_walker.phy_to_vir.read_entry(p3, i3);
        let p2 = match self.pt_walker.next_table(&e3) {
            Ok(table) => table,
            Err(err) => return Err(FlagUpdateError::from(err)),
        };
        let mut entry = self.pt_walker.phy_to_vir.read_entry(p2, i2);
        if entry.is_unused() {
            return Err(FlagUpdateError::PageNotMapped);
        }
        entry.set_flags(flags.union(PageTableFlags { bits: PageTableFlags::HUGE_PAGE }));
        self.pt_walker.phy_to_vir.write_entry(p2, i2, entry);
        Ok(MapperFlush::new(page))
    }

    /// The frame that the page's level 2 entry maps (see `translated_2mb`).
    fn translate_page(&mut self, page: Page<Page2MB>) -> (r: Result<Frame<Page2MB>, TranslateError>)
        ensures
            final(self).level_4() == old(self).level_4(),
            same_tables(old(self).tables(), final(self).tables()),
            translated_2mb(r, old(self).level_4(), old(self).tables(), page.start()),
    {
        let i3 = page.p3_index();
        let i2 = page.p2_index();
        let p3 = match self.pt_walker.next_table(self.level_4_table.index_of(page.p4_index())) {
            Ok(table) => table,
            Err(err) => return Err(TranslateError::from(err)),
        };
        let e3 = self.pt_walker.phy_to_vir.read_entry(p3, i3);
        let p2 = match self.pt_walker.next_table(&e3) {
            Ok(table) => table,
            Err(err) => return Err(TranslateError::from(err)),
        };
        let entry = self.pt_walker.phy_to_vir.read_entry(p2, i2);
        if entry.is_unused() {
            return Err(TranslateError::PageNotMapped);
        }
        match Frame::<Page2MB>::from_start_addr(entry.addr()) {
            Ok(frame) => Ok(frame),
            Err(_) => Err(TranslateError::InvalidFrameAddress(entry.addr())),
        }
    }
}

impl<'a, P: PhysicalToVirtual> Mapper<Page4KB> for MappedPageTable<'a, P> {
    /// Each entry on the walk to the page's level 1 table is unused or present, as far as the
    /// walk reaches tables.
    open spec fn map_ready(&self, page: Page<Page4KB>) -> bool {
        let i4 = table_index(page.start(), 39);
        let i3 = table_index(page.start(), 30);
        let i2 = table_index(page.start(), 21);
        let e4 = self.level_4()[i4 as int]@;
        &&& e4 == 0 || entry_present(e4)
        &&& walk1(self.level_4(), i4) matches Ok(f3) ==> ({
            let e3 = self.tables().entry_at(f3, i3);
            e3 == 0 || entry_present(e3)
        })
        &&& walk2(self.level_4(), self.tables(), i4, i3) matches Ok(f2) ==> ({
            let e2 = self.tables().entry_at(f2, i2);
            e2 == 0 || entry_present(e2)
        })
    }

    /// Where the walk through the page's level 4, 3 and 2 entries reaches a table, the page's
    /// level 1 entry there becomes the frame with `flags` if it is unused, and
    /// `PageAlreadyMapped` gives the frame back otherwise; where the walk meets a huge page,
    /// the error is `ParentEntryHugePage`. Missing tables are made first from frames of
    /// `allocator`.
    fn map_to<A: FrameAllocator<Page4KB>>(
        &mut self,
        page: Page<Page4KB>,
        frame: UnusedFrame<Page4KB>,
        flags: PageTableFlags,
        allocator: &mut A,
    ) -> (r: Result<MapperFlush<Page4KB>, MapToError<Page4KB>>)
        ensures
            r matches Ok(fl) ==> fl.spec_page() == page,
            r is Ok ==> exists|f1: u64|
                final(self).tables().entry_at(f1, table_index(page.start(), 12))
                    == frame.spec_frame().start() | flags.bits,
            r matches Err(MapToError::PageAlreadyMapped(u)) ==> u == frame,
            ({
                let i4 = table_index(page.start(), 39);
                let i3 = table_index(page.start(), 30);
                let i2 = table_index(page.start(), 21);
                let i1 = table_index(page.start(), 12);
                match walk3(old(self).level_4(), old(self).tables(), i4, i3, i2) {
                    Ok(f1) => final(self).level_4() == old(self).level_4() && if old(
                        self,
                    ).tables().entry_at(f1, i1) == 0 {
                        r is Ok && entry_written(
                            old(self).tables(),
                            final(self).tables(),
                            f1,
                            i1,
                            frame.spec_frame().start() | flags.bits,
                        )
                    } else {
                        r matches Err(MapToError::PageAlreadyMapped(_)) && same_tables(
                            old(self).tables(),
                            final(self).tables(),
                        )
                    },
                    Err(PageTableWalkError::MappedToHugePage) => r matches Err(
                        MapToError::ParentEntryHugePage,
                    ) && final(self).level_4() == old(self).level_4() && same_tables(
                        old(self).tables(),
                        final(self).tables(),
                    ),
                    Err(PageTableWalkError::NotMapped) => (r matches Err(
                        MapToError::FrameAllocateFailed,
                    ) && walk2(old(self).level_4(), old(self).tables(), i4, i3) is Ok)
                        ==> final(self).level_4() == old(self).level_4() && same_tables(
                        old(self).tables(),
                        final(self).tables(),
                    ),
                }
            }),
    {
        let i4 = page.p4_index();
        let i3 = page.p3_index();
        let i2 = page.p2_index();
        let i1 = page.p1_index();
        let mut e4 = *self.level_4_table.index_of(i4);
        proof {
            self.level_4_table.lemma_entry_count();
            lemma_entry_bits(e4@, 0);
            lemma_entry_bits(page.start(), 30);
            lemma_entry_bits(page.start(), 21);
            lemma_entry_bits(page.start(), 12);
        }
        let created = self.pt_walker.create_next_table(&mut e4, None, allocator);
        self.level_4_table.set_entry(i4.as_usize(), e4);
        assert(e4 == old(self).level_4()[i4@ as int] ==> self.level_4() =~= old(self).level_4());
        let p3 = match created {
            Ok(table) => table,
            Err(err) => return Err(MapToError::from(err)),
        };
        let ghost after_p3 = self.pt_walker.phy_to_vir;
        let mut e3 = self.pt_walker.phy_to_vir.read_entry(p3, i3);
        let p2 = match self.pt_walker.create_next_table(&mut e3, Some((p3, i3)), allocator) {
            Ok(table) => table,
            Err(err) => return Err(MapToError::from(err)),
        };
        let mut e2 = self.pt_walker.phy_to_vir.read_entry(p2, i2);
        let p1 = match self.pt_walker.create_next_table(&mut e2, Some((p2, i2)), allocator) {
            Ok(table) => table,
            Err(err) => return Err(MapToError::from(err)),
        };
        let mut entry = self.pt_walker.phy_to_vir.read_entry(p1, i1);
        if !entry.is_unused() {
            return Err(MapToError::PageAlreadyMapped(frame));
        }
        entry.set_frame(frame.frame(), flags);
        self.pt_walker.phy_to_vir.write_entry(p1, i1, entry);
        assert(self.tables().entry_at(p1.start(), table_index(page.start(), 12))
            == frame.spec_frame().start() | flags.bits);
        Ok(MapperFlush::new(page))
    }

    /// Clears the level 1 entry at the page's level 1 index of the table that the walk
    /// through the entries at its level 4, level 3 and level 2 indices reaches, and gives
    /// back its frame. The walk's errors and those of
    /// the entry's frame come back as `UnmapError`s.
    fn unmap(&mut self, page: Page<Page4KB>) -> (r: Result<(Frame<Page4KB>, MapperFlush<Page4KB>), UnmapError>)
        ensures
            final(self).level_4() == old(self).level_4(),
            ({
                let i4 = table_index(page.start(), 39);
                let i3 = table_index(page.start(), 30);
                let i2 = table_index(page.start(), 21);
                let i1 = table_index(page.start(), 12);
                match walk3(old(self).level_4(), old(self).tables(), i4, i3, i2) {
                    Err(e) => r == Err::<(Frame<Page4KB>, MapperFlush<Page4KB>), UnmapError>(
                        unmap_error_of(e),
                    ) && same_tables(old(self).tables(), final(self).tables()),
                    Ok(f1) => match next_frame(old(self).tables().entry_at(f1, i1)) {
                        Err(e) => r == Err::<(Frame<Page4KB>, MapperFlush<Page4KB>), UnmapError>(
                            unmap_error_of(e),
                        ) && same_tables(old(self).tables(), final(self).tables()),
                        Ok(start) => r matches Ok(v) && v.0.start() == start && v.1.spec_page()
                            == page && entry_written(
                            old(self).tables(),
                            final(self).tables(),
                            f1,
                            i1,
                            0,
                        ),
                    },
                }
            }),
    {
        let i3 = page.p3_index();
        let i2 = page.p2_index();
        let i1 = page.p1_index();
        let p3 = match self.pt_walker.next_table(self.level_4_table.index_of(page.p4_index())) {
            Ok(table) => table,
            Err(err) => return Err(UnmapError::from(err)),
        };
        let e3 = self.pt_walker.phy_to_vir.read_entry(p3, i3);
        let p2 = match self.pt_walker.next_table(&e3) {
            Ok(table) => table,
            Err(err) => return Err(UnmapError::from(err)),
        };
        let e2 = self.pt_walker.phy_to_vir.read_entry(p2, i2);
        let p1 = match self.pt_walker.next_table(&e2) {
            Ok(table) => table,
            Err(err) => return Err(UnmapError::from(err)),
        };
        let mut entry = self.pt_walker.phy_to_vir.read_entry(p1, i1);
        let frame = match entry.frame() {
            Ok(frame) => frame,
            Err(FrameError::FrameNotPresent) => return Err(UnmapError::PageNotMapped),
            Err(FrameError::HugeFrame) => return Err(UnmapError::ParentEntryHugePage),
        };
        entry.set_unused();
        self.pt_walker.phy_to_vir.write_entry(p1, i1, entry);
        Ok((frame, MapperFlush::new(page)))
    }

    /// Replaces the flags of the level 1 entry that `unmap` reaches, keeping its address,
    /// where that entry is set; `PageNotMapped` where it is unused. The walk's errors come
    /// back as `FlagUpdateError`s.
    fn update_flags(&mut self, page: Page<Page4KB>, flags: PageTableFlags) -> (r: Result<
        MapperFlush<Page4KB>,
        FlagUpdateError,
    >)
        ensures
            final(self).level_4() == old(self).level_4(),
            ({
                let i4 = table_index(page.start(), 39);
                let i3 = table_index(page.start(), 30);
                let i2 = table_index(page.start(), 21);
                let i1 = table_index(page.start(), 12);
                match walk3(old(self).level_4(), old(self).tables(), i4, i3, i2) {
                    Err(e) => r == Err::<MapperFlush<Page4KB>, FlagUpdateError>(flag_error_of(e))
                        && same_tables(old(self).tables(), final(self).tables()),
                    Ok(f1) => {
                        let e = old(self).tables().entry_at(f1, i1);
                        if e == 0 {
                            r matches Err(FlagUpdateError::PageNotMapped) && same_tables(
                                old(self).tables(),
                                final(self).tables(),
                            )
                        } else {
                            r matches Ok(fl) && fl.spec_page() == page && entry_written(
                                old(self).tables(),
                                final(self).tables(),
                                f1,
                                i1,
                                (e & ENTRY_ADDR_MASK) | flags.bits,
                            )
                        }
                    },
                }
            }),
    {
        let i3 = page.p3_index();
        let i2 = page.p2_index();
        let i1 = page.p1_index();
        let p3 = match self.pt_walker.next_table(self.level_4_table.index_of(page.p4_index())) {
            Ok(table) => table,
            Err(err) => return Err(FlagUpdateError::from(err)),
        };
        let e3 = self.pt_walker.phy_to_vir.read_entry(p3, i3);
        let p2 = match self.pt_walker.next_table(&e3) {
            Ok(table) => table,
            Err(err) => return Err(FlagUpdateError::from(err)),
        };
        let e2 = self.pt_walker.phy_to_vir.read_entry(p2, i2);
        let p1 = match self.pt_walker.next_table(&e2) {
            Ok(table) => table,
            Err(err) => return Err(FlagUpdateError::from(err)),
        };
        let mut entry = self.pt_walker.phy_to_vir.read_entry(p1, i1);
        if entry.is_unused() {
            return Err(FlagUpdateError::PageNotMapped);
        }
        entry.set_flags(flags);
        self.pt_walker.phy_to_vir.write_entry(p1, i1, entry);
        Ok(MapperFlush::new(page))
    }

    /// The frame that the page's level 1 entry maps (see `translated_4kb`).
    fn translate_page(&mut self, page: Page<Page4KB>) -> (r: Result<Frame<Page4KB>, TranslateError>)
        ensures
            final(self).level_4() == old(self).level_4(),
            same_tables(old(self).tables(), final(self).tables()),
            translated_4kb(r, old(self).level_4(), old(self).tables(), page.start()),
    {
        let i3 = page.p3_index();
        let i2 = page.p2_index();
        let i1 = page.p1_index();
        let p3 = match self.pt_walker.next_table(self.level_4_table.index_of(page.p4_index())) {
            Ok(table) => table,
            Err(err) => return Err(TranslateError::from(err)),
        };
        let e3 = self.pt_walker.phy_to_vir.read_entry(p3, i3);
        let p2 = match self.pt_walker.next_table(&e3) {
            Ok(table) => table,
            Err(err) => return Err(TranslateError::from(err)),
        };
        let e2 = self.pt_walker.phy_to_vir.read_entry(p2, i2);
        let p1 = match self.pt_walker.next_table(&e2) {
            Ok(table) => table,
            Err(err) => return Err(TranslateError::from(err)),
        };
        let entry = self.pt_walker.phy_to_vir.read_entry(p1, i1);
        if entry.is_unused() {
            return Err(TranslateError::PageNotMapped);
        }
        proof {
            lemma_entry_bits(entry@, 0);
        }
        match Frame::<Page4KB>::from_start_addr(entry.addr()) {
            Ok(frame) => Ok(frame),
            Err(_) => Err(TranslateError::InvalidFrameAddress(entry.addr())),
        }
    }
}

} // verus!
