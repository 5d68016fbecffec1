//! Reaching the page tables through a recursive entry of the level 4 table.
use crate::bits::PageTableFlags;
use crate::ia_32e::addr::{is_align_down, is_canonical, sign_extend, VirtAddr};
use crate::ia_32e::paging::allocator::{FrameAllocator, UnusedFrame};
use crate::ia_32e::paging::frame::Frame;
use crate::ia_32e::paging::mapper::map_pt::{entry_translated, next_frame, table_index};
use crate::ia_32e::paging::mapper::{MapAllSize, Mapper, MapperFlush};
use crate::ia_32e::paging::page::{
    NotGiantPageSize, Page, Page1GB, Page2MB, Page4KB, PageSize, SIZE_1GB, SIZE_2MB,
};
use crate::ia_32e::paging::page_ops::PageIndex;
use crate::ia_32e::paging::page_table::{
    entry_huge, entry_present, lemma_entry_bits, PageTable, PageTableEntry, ENTRY_ADDR_MASK,
};
use crate::ia_32e::paging::result::{
    unmap_error_of, CreatePageTableError, FlagUpdateError, FrameError, MapToError,
    PageTableWalkError, TranslateError, TranslationResult, UnmapError,
};
use vstd::prelude::*;

verus! {

/// Access to the page tables that the recursive entry makes visible at virtual pages,
/// implemented by the code that reads and writes memory at those pages.
pub trait TablePages {
    /// The raw entry at `index` of the table seen at the virtual page that starts at `page`.
    spec fn entry_at(&self, page: u64, index: u64) -> u64;

    /// The entry at `index` of the table seen at `page`.
    fn read_entry(&self, page: Page<Page4KB>, index: PageIndex) -> (r: PageTableEntry)
        ensures
            r@ == self.entry_at(page.start(), index@),
    ;

    /// Writes `entry` at `index` of the table seen at `page`, and nothing else.
    fn write_entry(&mut self, page: Page<Page4KB>, index: PageIndex, entry: PageTableEntry)
        ensures
            forall|p: u64, i: u64| #[trigger]
                final(self).entry_at(p, i) == if p == page.start() && i == index@ {
                    entry@
                } else {
                    old(self).entry_at(p, i)
                },
    ;
}

/// Whether the tables seen at the pages of `b` are those of `a`.
pub open spec fn same_pages<T: TablePages>(a: T, b: T) -> bool {
    forall|p: u64, i: u64| #[trigger] b.entry_at(p, i) == a.entry_at(p, i)
}

/// Whether the tables of `b` are those of `a` with the entry at `index` of the table seen at
/// `page` replaced by `e`.
pub open spec fn page_entry_written<T: TablePages>(a: T, b: T, page: u64, index: u64, e: u64) -> bool {
    forall|p: u64, i: u64| #[trigger]
        b.entry_at(p, i) == if p == page && i == index {
            e
        } else {
            a.entry_at(p, i)
        }
}

/// Whether the tables of `b` are those of `a` after `e` was written at `at` (where `at` is
/// some) and then the table seen at the page `zero` was cleared (where `zero` is some).
pub open spec fn page_placed<T: TablePages>(
    a: T,
    b: T,
    at: Option<(Page<Page4KB>, PageIndex)>,
    e: u64,
    zero: Option<u64>,
) -> bool {
    forall|p: u64, i: u64| #[trigger]
        b.entry_at(p, i) == if zero matches Some(z) && p == z && i < 512 {
            0
        } else if at matches Some(l) && p == l.0.start() && i == l.1@ {
            e
        } else {
            a.entry_at(p, i)
        }
}

/// The virtual page at which the level 3 table for the address `a` appears when the level 4
/// table maps itself at entry `ri`.
pub open spec fn p3_table(a: u64, ri: u64) -> u64 {
    sign_extend((ri << 39u64) | (ri << 30u64) | (ri << 21u64) | (((a >> 39u64) & 0o777) << 12u64))
}

/// The virtual page at which the level 2 table for the address `a` appears.
pub open spec fn p2_table(a: u64, ri: u64) -> u64 {
    sign_extend(
        (ri << 39u64) | (ri << 30u64) | (((a >> 39u64) & 0o777) << 21u64) | (((a >> 30u64)
            & 0o777) << 12u64),
    )
}

/// The virtual page at which the level 1 table for the address `a` appears.
pub open spec fn p1_table(a: u64, ri: u64) -> u64 {
    sign_extend(
        (ri << 39u64) | (((a >> 39u64) & 0o777) << 30u64) | (((a >> 30u64) & 0o777) << 21u64) | (((a
            >> 21u64) & 0o777) << 12u64),
    )
}

/// Whether `r` is the translation of the virtual address `a` through the level 4 table `p4`
/// and the tables seen at the pages of `tables`: unmapped where an entry on the way is unused;
/// a 1 GiB frame and the low 30 bits where the level 3 entry maps a huge page; the 4 KiB
/// frame at the level 2 entry's address and the low 21 bits where the level 2 entry maps a
/// huge page; otherwise the 4 KiB frame of the level 1 entry and the low 12 bits.
pub open spec fn translated_recursive<T: TablePages>(
    r: TranslationResult,
    p4: Seq<PageTableEntry>,
    tables: T,
    a: u64,
    ri: u64,
) -> bool {
    let e4 = p4[table_index(a, 39) as int]@;
    let e3 = tables.entry_at(p3_table(a, ri), table_index(a, 30));
    let e2 = tables.entry_at(p2_table(a, ri), table_index(a, 21));
    let e1 = tables.entry_at(p1_table(a, ri), table_index(a, 12));
    if e4 == 0 || e3 == 0 {
        r is PageNotMapped
    } else if entry_huge(e3) {
        r matches TranslationResult::Frame1GB { frame, offset } && is_align_down(
            e3 & ENTRY_ADDR_MASK,
            SIZE_1GB,
            frame.start(),
        ) && offset == a & 0o777_777_7777
    } else if e2 == 0 {
        r is PageNotMapped
    } else if entry_huge(e2) {
        r matches TranslationResult::Frame4KB { frame, offset } && frame.start() == e2
            & ENTRY_ADDR_MASK && offset == a & 0o777_7777
    } else if e1 == 0 {
        r is PageNotMapped
    } else {
        r matches TranslationResult::Frame4KB { frame, offset } && frame.start() == e1
            & ENTRY_ADDR_MASK && offset == a & 0xfff
    }
}

/// Whether translating `a` meets neither a level 4 entry nor a level 1 entry that maps a huge
/// page.
pub open spec fn recursive_translatable<T: TablePages>(
    p4: Seq<PageTableEntry>,
    tables: T,
    a: u64,
    ri: u64,
) -> bool {
    let e4 = p4[table_index(a, 39) as int]@;
    let e3 = tables.entry_at(p3_table(a, ri), table_index(a, 30));
    let e2 = tables.entry_at(p2_table(a, ri), table_index(a, 21));
    let e1 = tables.entry_at(p1_table(a, ri), table_index(a, 12));
    &&& e4 == 0 || !entry_huge(e4)
    &&& (e4 != 0 && e3 != 0 && !entry_huge(e3) && e2 != 0 && !entry_huge(e2)) ==> !entry_huge(e1)
}

/// The page at which the level 3 table of `page` appears when the level 4 table maps
/// itself at entry `recursive_index`.
pub fn p3_page<S: PageSize>(page: Page<S>, recursive_index: PageIndex) -> (r: Page<Page4KB>)
    ensures
        r.start() == p3_table(page.start(), recursive_index@),
{
    Page::from_page_table_indices(recursive_index, recursive_index, recursive_index, page.p4_index())
}

/// The page at which the level 2 table of `page` appears when the level 4 table maps
/// itself at entry `recursive_index`.
pub fn p2_page<S: NotGiantPageSize>(page: Page<S>, recursive_index: PageIndex) -> (r: Page<Page4KB>)
    ensures
        r.start() == p2_table(page.start(), recursive_index@),
{
    Page::from_page_table_indices(recursive_index, recursive_index, page.p4_index(), page.p3_index())
}

/// The page at which the level 1 table of `page` appears when the level 4 table maps
/// itself at entry `recursive_index`.
pub fn p1_page(page: Page<Page4KB>, recursive_index: PageIndex) -> (r: Page<Page4KB>)
    ensures
        r.start() == p1_table(page.start(), recursive_index@),
{
    Page::from_page_table_indices(recursive_index, page.p4_index(), page.p3_index(), page.p2_index())
}

/// The recursive entry of a level 4 table mapped at `table_addr`: the table's page must be
/// reached through the same entry at all four levels. `Err` where it is not.
pub fn recursive_index_of(table_addr: VirtAddr) -> (r: Result<PageIndex, ()>)
    requires
        is_canonical(table_addr@),
    ensures
        ({
            let a = table_addr@;
            let i4 = (a >> 39u64) & 0o777;
            let same = i4 == (a >> 30u64) & 0o777 && i4 == (a >> 21u64) & 0o777 && i4 == (a
                >> 12u64) & 0o777;
            &&& r is Ok <==> same
            &&& r matches Ok(i) ==> i@ == i4
        }),
{
    let page = Page::<Page4KB>::include_address(table_addr);
    proof {
        let a = table_addr@;
        let p = page.start();
        assert((p >> 39u64) & 0o777 == (a >> 39u64) & 0o777 && (p >> 30u64) & 0o777 == (a
            >> 30u64) & 0o777 && (p >> 21u64) & 0o777 == (a >> 21u64) & 0o777 && (p >> 12u64)
            & 0o777 == (a >> 12u64) & 0o777) by (bit_vector)
            requires
                p & 0xfff == 0,
                p <= a,
                a - p < 4096,
        ;
    }
    let recursive_index = page.p4_index();
    if page.p3_index().as_u16() != recursive_index.as_u16() || page.p2_index().as_u16()
        != recursive_index.as_u16() || page.p1_index().as_u16() != recursive_index.as_u16() {
        return Err(());
    }
    Ok(recursive_index)
}

/// Whether unmapping the huge page `page`, whose entry sits at `index` of the table seen at
/// the virtual page `at`, went as it should: `PageNotMapped` where the entry is not present,
/// `ParentEntryHugePage` where it maps no huge page, `InvalidFrameAddress` where its address
/// is not aligned to `size`, and otherwise its frame, with the entry cleared.
pub open spec fn page_huge_unmapped<S: PageSize, T: TablePages>(
    r: Result<(Frame<S>, MapperFlush<S>), UnmapError>,
    page: Page<S>,
    before: T,
    after: T,
    at: u64,
    index: u64,
    size: u64,
) -> bool {
    let e = before.entry_at(at, index);
    if !entry_present(e) {
        r matches Err(UnmapError::PageNotMapped) && same_pages(before, after)
    } else if !entry_huge(e) {
        r matches Err(UnmapError::ParentEntryHugePage) && same_pages(before, after)
    } else if (e & ENTRY_ADDR_MASK) & ((size - 1) as u64) != 0 {
        r matches Err(UnmapError::InvalidFrameAddress(a)) && a@ == e & ENTRY_ADDR_MASK
            && same_pages(before, after)
    } else {
        r matches Ok(v) && v.0.start() == e & ENTRY_ADDR_MASK && v.1.spec_page() == page
            && page_entry_written(before, after, at, index, 0)
    }
}

/// Whether changing the flags of `page`, whose entry sits at `index` of the table seen at
/// `at`, went as it should, given whether the entries above it are set (`above`): where
/// they are and the entry is set, the entry keeps its address and takes the flags `flags`;
/// otherwise `PageNotMapped`.
pub open spec fn page_flags_updated<S: PageSize, T: TablePages>(
    r: Result<MapperFlush<S>, FlagUpdateError>,
    page: Page<S>,
    above: bool,
    before: T,
    after: T,
    at: u64,
    index: u64,
    flags: u64,
) -> bool {
    let e = before.entry_at(at, index);
    if !above || e == 0 {
        r matches Err(FlagUpdateError::PageNotMapped) && same_pages(before, after)
    } else {
        r matches Ok(fl) && fl.spec_page() == page && page_entry_written(
            before,
            after,
            at,
            index,
            (e & ENTRY_ADDR_MASK) | flags,
        )
    }
}

/// Whether mapping `page` went as it should where the entries above its entry were all set
/// and none of them mapped a huge page: the entry at `index` of the table seen at `at`
/// becomes `entry` where it was unused, and `PageAlreadyMapped` comes back otherwise.
pub open spec fn page_mapped<S: PageSize, T: TablePages>(
    r: Result<MapperFlush<S>, MapToError<S>>,
    before: T,
    after: T,
    at: u64,
    index: u64,
    entry: u64,
) -> bool {
    if before.entry_at(at, index) == 0 {
        r is Ok && page_entry_written(before, after, at, index, entry)
    } else {
        r matches Err(MapToError::PageAlreadyMapped(_)) && same_pages(before, after)
    }
}

/// Whether `r` is what `translate_page` gives for the 4 KiB page at `a` when the level 4
/// table `p4` maps itself at entry `ri`: `PageNotMapped` where an entry above the page's is
/// unused, and otherwise the frame of the page's level 1 entry (see `entry_translated`).
pub open spec fn translated_page_4kb<T: TablePages>(
    r: Result<Frame<Page4KB>, TranslateError>,
    p4: Seq<PageTableEntry>,
    tables: T,
    a: u64,
    ri: u64,
) -> bool {
    if p4[table_index(a, 39) as int]@ == 0 || tables.entry_at(p3_table(a, ri), table_index(a, 30))
        == 0 || tables.entry_at(p2_table(a, ri), table_index(a, 21)) == 0 {
        r matches Err(TranslateError::PageNotMapped)
    } else {
        entry_translated(r, tables.entry_at(p1_table(a, ri), table_index(a, 12)), 0x1000)
    }
}

/// Whether unmapping the 4 KiB page `page` went as it should: where the page's level 4, 3
/// and 2 entries give frames and so does its level 1 entry, that frame comes back and the
/// level 1 entry is cleared; otherwise the first frame error comes back as an `UnmapError`
/// and the tables stay as they were.
pub open spec fn unmapped_4kb<T: TablePages>(
    r: Result<(Frame<Page4KB>, MapperFlush<Page4KB>), UnmapError>,
    page: Page<Page4KB>,
    p4: Seq<PageTableEntry>,
    before: T,
    after: T,
    ri: u64,
) -> bool {
    let a = page.start();
    let e3 = before.entry_at(p3_table(a, ri), table_index(a, 30));
    let e2 = before.entry_at(p2_table(a, ri), table_index(a, 21));
    let e1 = before.entry_at(p1_table(a, ri), table_index(a, 12));
    let first_error = match next_frame(p4[table_index(a, 39) as int]@) {
        Err(e) => Some(e),
        Ok(_) => match next_frame(e3) {
            Err(e) => Some(e),
            Ok(_) => match next_frame(e2) {
                Err(e) => Some(e),
                Ok(_) => match next_frame(e1) {
                    Err(e) => Some(e),
                    Ok(_) => None,
                },
            },
        },
    };
    match first_error {
        Some(e) => r == Err::<(Frame<Page4KB>, MapperFlush<Page4KB>), UnmapError>(unmap_error_of(e))
            && same_pages(before, after),
        None => r matches Ok(v) && v.0.start() == e1 & ENTRY_ADDR_MASK && v.1.spec_page() == page
            && page_entry_written(before, after, p1_table(a, ri), table_index(a, 12), 0),
    }
}

/// A level 4 table that maps itself at entry `recursive_index`, which makes every table
/// reachable at a virtual page; `tables` reads and writes the tables at those pages.
pub struct RecursivePageTable<'a, T: TablePages> {
    p4: &'a mut PageTable,
    recursive_index: PageIndex,
    tables: T,
}

impl<'a, T: TablePages> RecursivePageTable<'a, T> {
    /// The recursive entry.
    pub closed spec fn spec_recursive_index(&self) -> PageIndex {
        self.recursive_index
    }

    /// The entries of the level 4 table.
    pub closed spec fn level_4(&self) -> Seq<PageTableEntry> {
        self.p4@
    }

    /// The tables seen at virtual pages.
    pub closed spec fn tables(&self) -> T {
        self.tables
    }

    /// The level 4 table `table`, mapped at `table_addr`, as a recursive table: its page
    /// must be reached through one entry at all four levels, and that entry must be present,
    /// map no huge page and point at the frame that CR3 holds (`active`). `Err` otherwise.
    pub fn new(table: &'a mut PageTable, table_addr: VirtAddr, active: Frame<Page4KB>, tables: T) -> (r: Result<Self, ()>)
        requires
            is_canonical(table_addr@),
        ensures
            r is Ok <==> exists|i: PageIndex|
                recursive_index_of_spec(table_addr@, i) && next_frame(old(table)@[i@ as int]@)
                    == Ok::<u64, PageTableWalkError>(active.start()),
            r matches Ok(t) ==> recursive_index_of_spec(table_addr@, t.spec_recursive_index())
                && t.level_4() == old(table)@ && t.tables() == tables,
            r is Err ==> final(table)@ == old(table)@,
    {
        let recursive_index = match recursive_index_of(table_addr) {
            Ok(i) => i,
            Err(_) => return Err(()),
        };
        match table.index_of(recursive_index).frame() {
            Ok(frame) => {
                if frame.start_address().as_u64() != active.start_address().as_u64() {
                    return Err(());
                }
            },
            Err(_) => return Err(()),
        }
        assert(recursive_index_of_spec(table_addr@, recursive_index) && next_frame(
            table@[recursive_index@ as int]@,
        ) == Ok::<u64, PageTableWalkError>(active.start()));
        Ok(RecursivePageTable { p4: table, recursive_index, tables })
    }

    /// The table `table` with the recursive entry `recursive_index`, unchecked.
    pub fn new_unchecked(table: &'a mut PageTable, recursive_index: PageIndex, tables: T) -> (r: Self)
        ensures
            r.spec_recursive_index() == recursive_index,
            r.level_4() == old(table)@,
            r.tables() == tables,
    {
        RecursivePageTable { p4: table, recursive_index, tables }
    }

    /// Clears every entry of the table seen at `page`.
    fn zero_table(&mut self, page: Page<Page4KB>)
        ensures
            final(self).level_4() == old(self).level_4(),
            final(self).spec_recursive_index() == old(self).spec_recursive_index(),
            forall|p: u64, i: u64| #[trigger]
                final(self).tables().entry_at(p, i) == if p == page.start() && i < 512 {
                    0
                } else {
                    old(self).tables().entry_at(p, i)
                },
    {
        let ghost before = self.tables;
        let mut i: u16 = 0;
        while i < 512
            invariant
                i <= 512,
                self.p4@ == old(self).p4@,
                self.recursive_index == old(self).recursive_index,
                forall|p: u64, j: u64| #[trigger]
                    self.tables.entry_at(p, j) == if p == page.start() && j < i {
                        0
                    } else {
                        before.entry_at(p, j)
                    },
            decreases 512 - i,
        {
            self.tables.write_entry(page, PageIndex::new(i), PageTableEntry::new());
            i = i + 1;
        }
    }

    /// Makes the table that `entry` leads to where the entry is unused: a frame comes from
    /// `allocator`, the entry points to it (present and writable) and is written at `at`
    /// where `at` is some, and the table seen at `next_table_page` is cleared.
    /// `FrameAllocateFailed` where the allocator has no frame, `MappedToHugePage` where the
    /// entry maps a huge page.
    fn create_next_table<A: FrameAllocator<Page4KB>>(
        &mut self,
        entry: &mut PageTableEntry,
        at: Option<(Page<Page4KB>, PageIndex)>,
        next_table_page: Page<Page4KB>,
        allocator: &mut A,
    ) -> (r: Result<(), CreatePageTableError>)
        ensures
            final(self).level_4() == old(self).level_4(),
            final(self).spec_recursive_index() == old(self).spec_recursive_index(),
            old(entry)@ != 0 ==> *final(entry) == *old(entry) && same_pages(
                old(self).tables(),
                final(self).tables(),
            ) && r == if entry_huge(old(entry)@) {
                Err::<(), CreatePageTableError>(CreatePageTableError::MappedToHugePage)
            } else {
                Ok::<(), CreatePageTableError>(())
            },
            old(entry)@ == 0 && r == Err::<(), CreatePageTableError>(
                CreatePageTableError::FrameAllocateFailed,
            ) ==> *final(entry) == *old(entry) && same_pages(old(self).tables(), final(self).tables()),
            old(entry)@ == 0 && r != Err::<(), CreatePageTableError>(
                CreatePageTableError::FrameAllocateFailed,
            ) ==> final(entry)@ & 3 == 3 && r == (if entry_huge(final(entry)@) {
                Err::<(), CreatePageTableError>(CreatePageTableError::MappedToHugePage)
            } else {
                Ok::<(), CreatePageTableError>(())
            }) && page_placed(
                old(self).tables(),
                final(self).tables(),
                at,
                final(entry)@,
                if r is Ok {
                    Some(next_table_page.start())
                } else {
                    None
                },
            ),
    {
        let mut created = false;
        if entry.is_unused() {
            match allocator.allocate() {
                Some(frame) => {
                    entry.set_frame(
                        frame.frame(),
                        PageTableFlags { bits: PageTableFlags::PRESENT | PageTableFlags::WRITABLE },
                    );
                    proof {
                        lemma_entry_bits(frame.spec_frame().start(), 3);
                    }
                    match at {
                        Some(l) => self.tables.write_entry(l.0, l.1, *entry),
                        None => {},
                    }
                    created = true;
                },
                None => {
                    return Err(CreatePageTableError::FrameAllocateFailed);
                },
            }
        }
        proof {
            lemma_entry_bits(entry@, 0);
        }
        if entry.flags().contains(PageTableFlags { bits: PageTableFlags::HUGE_PAGE }) {
            return Err(CreatePageTableError::MappedToHugePage);
        }
        if created {
            self.zero_table(next_table_page);
        }
        Ok(())
    }
}

impl<'a, T: TablePages> MapAllSize for RecursivePageTable<'a, T> {
    /// Neither the level 4 entry nor the level 1 entry of `addr` maps a huge page.
    open spec fn translatable(&self, addr: VirtAddr) -> bool {
        recursive_translatable(self.level_4(), self.tables(), addr@, self.spec_recursive_index()@)
    }

    /// What `addr` translates to (see `translated_recursive`).
    fn translate(&self, addr: VirtAddr) -> (r: TranslationResult)
        ensures
            translated_recursive(
                r,
                self.level_4(),
                self.tables(),
                addr@,
                self.spec_recursive_index()@,
            ),
    {
        let ri = self.recursive_index;
        let i4 = addr.page4_index();
        let i3 = addr.page3_index();
        let i2 = addr.page2_index();
        let i1 = addr.page1_index();
        let p4_entry = self.p4.index_of(i4);
        if p4_entry.is_unused() {
            return TranslationResult::PageNotMapped;
        }
        proof {
            lemma_entry_bits(p4_entry@, 0);
        }
        if p4_entry.flags().contains(PageTableFlags { bits: PageTableFlags::HUGE_PAGE }) {
            return unreached();
        }
        let p3 = Page::from_page_table_indices(ri, ri, ri, i4);
        let p3_entry = self.tables.read_entry(p3, i3);
        if p3_entry.is_unused() {
            return TranslationResult::PageNotMapped;
        }
        proof {
            lemma_entry_bits(p3_entry@, 0);
        }
        if p3_entry.flags().contains(PageTableFlags { bits: PageTableFlags::HUGE_PAGE }) {
            let frame = Frame::<Page1GB>::include_address(p3_entry.addr());
            let offset = addr.as_u64() & 0o_777_777_7777;
            return TranslationResult::Frame1GB { frame, offset };
        }
        let p2 = Page::from_page_table_indices(ri, ri, i4, i3);
        let p2_entry = self.tables.read_entry(p2, i2);
        if p2_entry.is_unused() {
            return TranslationResult::PageNotMapped;
        }
        proof {
            lemma_entry_bits(p2_entry@, 0);
        }
        if p2_entry.flags().contains(PageTableFlags { bits: PageTableFlags::HUGE_PAGE }) {
            let frame = Frame::<Page4KB>::include_address(p2_entry.addr());
            let offset = addr.as_u64() & 0o_777_7777;
            return TranslationResult::Frame4KB { frame, offset };
        }
        let p1 = Page::from_page_table_indices(ri, i4, i3, i2);
        let p1_entry = self.tables.read_entry(p1, i1);
        if p1_entry.is_unused() {
            return TranslationResult::PageNotMapped;
        }
        proof {
            lemma_entry_bits(p1_entry@, 0);
        }
        if p1_entry.flags().contains(PageTableFlags { bits: PageTableFlags::HUGE_PAGE }) {
            return unreached();
        }
        let frame = Frame::<Page4KB>::include_address(p1_entry.addr());
        let offset = addr.page_offset().as_u64();
        TranslationResult::Frame4KB { frame, offset }
    }
}


impl<'a, T: TablePages> Mapper<Page1GB> for RecursivePageTable<'a, T> {
    /// Mapping a 1 GiB page never stops on an entry.
    open spec fn map_ready(&self, page: Page<Page1GB>) -> bool {
        true
    }

    /// Where the page's level 4 entry is set and maps no huge page, the page's level 3 entry,
    /// seen at the level 3 table's page, becomes the frame with `flags` and HUGE_PAGE if it is
    /// unused (`PageAlreadyMapped` gives the frame back otherwise); where the level 4 entry
    /// maps a huge page, the error is `ParentEntryHugePage`. Where it is unused, a table is
    /// made first from a frame of `allocator`.
    fn map_to<A: FrameAllocator<Page4KB>>(
        &mut self,
        page: Page<Page1GB>,
        frame: UnusedFrame<Page1GB>,
        flags: PageTableFlags,
        allocator: &mut A,
    ) -> (r: Result<MapperFlush<Page1GB>, MapToError<Page1GB>>)
        ensures
            final(self).spec_recursive_index() == old(self).spec_recursive_index(),
            r matches Ok(fl) ==> fl.spec_page() == page,
            r is Ok ==> final(self).tables().entry_at(
                p3_table(page.start(), old(self).spec_recursive_index()@),
                table_index(page.start(), 30),
            ) == frame.spec_frame().start() | (flags.bits | 0x80),
            r matches Err(MapToError::PageAlreadyMapped(u)) ==> u == frame,
            ({
                let a = page.start();
                let ri = old(self).spec_recursive_index()@;
                let e4 = old(self).level_4()[table_index(a, 39) as int]@;
                if e4 != 0 && entry_huge(e4) {
                    r matches Err(MapToError::ParentEntryHugePage) && final(self).level_4() == old(self).level_4() && same_pages(old(self).tables(), final(self).tables())
                } else if e4 != 0 {
                    final(self).level_4() == old(self).level_4() && page_mapped(
                        r,
                        old(self).tables(),
                        final(self).tables(),
                        p3_table(a, ri),
                        table_index(a, 30),
                        frame.spec_frame().start() | (flags.bits | 0x80),
                    )
                } else {
                    r matches Err(MapToError::FrameAllocateFailed) ==> final(self).level_4() == old(self).level_4() && same_pages(old(self).tables(), final(self).tables())
                }
            }),
    {
        let ri = self.recursive_index;
        let i4 = page.p4_index();
        let i3 = page.p3_index();
        let mut e4 = *self.p4.index_of(i4);
        proof {
            self.p4.lemma_entry_count();
            lemma_entry_bits(page.start(), 30);
        }
        let p3 = p3_page(page, ri);
        let created = self.create_next_table(&mut e4, None, p3, allocator);
        self.p4.set_entry(i4.as_usize(), e4);
        assert(e4 == old(self).level_4()[i4@ as int] ==> self.level_4() =~= old(self).level_4());
        match created {
            Ok(()) => {},
            Err(err) => return Err(MapToError::from(err)),
        }
        let mut entry = self.tables.read_entry(p3, i3);
        if !entry.is_unused() {
            return Err(MapToError::PageAlreadyMapped(frame));
        }
        entry.set_addr(
            frame.frame().start_address(),
            flags.union(PageTableFlags { bits: PageTableFlags::HUGE_PAGE }),
        );
        self.tables.write_entry(p3, i3, entry);
        Ok(MapperFlush::new(page))
    }

    /// Where the page's level 4 entry gives a frame, clears the page's level 3 entry (see
    /// `page_huge_unmapped`); the level 4 entry's frame error comes back as an `UnmapError`
    /// otherwise.
    fn unmap(&mut self, page: Page<Page1GB>) -> (r: Result<(Frame<Page1GB>, MapperFlush<Page1GB>), UnmapError>)
        ensures
            final(self).level_4() == old(self).level_4(),
            final(self).spec_recursive_index() == old(self).spec_recursive_index(),
            ({
                let a = page.start();
                let ri = old(self).spec_recursive_index()@;
                match next_frame(old(self).level_4()[table_index(a, 39) as int]@) {
                    Err(e) => r == Err::<(Frame<Page1GB>, MapperFlush<Page1GB>), UnmapError>(
                        unmap_error_of(e),
                    ) && same_pages(old(self).tables(), final(self).tables()),
                    Ok(_) => page_huge_unmapped(
                        r,
                        page,
                        old(self).tables(),
                        final(self).tables(),
                        p3_table(a, ri),
                        table_index(a, 30),
                        SIZE_1GB,
                    ),
                }
            }),
    {
        let ri = self.recursive_index;
        match self.p4.index_of(page.p4_index()).frame() {
            Ok(_) => {},
            Err(FrameError::FrameNotPresent) => return Err(UnmapError::PageNotMapped),
            Err(FrameError::HugeFrame) => return Err(UnmapError::ParentEntryHugePage),
        }
        let p3 = p3_page(page, ri);
        let i3 = page.p3_index();
        let mut entry = self.tables.read_entry(p3, i3);
        proof {
            lemma_entry_bits(entry@, 0);
        }
        let flags = entry.flags();
        if !flags.contains(PageTableFlags { bits: PageTableFlags::PRESENT }) {
            return Err(UnmapError::PageNotMapped);
        }
        if !flags.contains(PageTableFlags { bits: PageTableFlags::HUGE_PAGE }) {
            return Err(UnmapError::ParentEntryHugePage);
        }
        let frame = match Frame::<Page1GB>::from_start_addr(entry.addr()) {
            Ok(frame) => frame,
            Err(_) => return Err(UnmapError::InvalidFrameAddress(entry.addr())),
        };
        entry.set_unused();
        self.tables.write_entry(p3, i3, entry);
        Ok((frame, MapperFlush::new(page)))
    }

    /// Gives the page's level 3 entry `flags` and HUGE_PAGE where it and the level 4 entry
    /// are set (see `page_flags_updated`).
    fn update_flags(&mut self, page: Page<Page1GB>, flags: PageTableFlags) -> (r: Result<
        MapperFlush<Page1GB>,
        FlagUpdateError,
    >)
        ensures
            final(self).level_4() == old(self).level_4(),
            final(self).spec_recursive_index() == old(self).spec_recursive_index(),
            ({
                let a = page.start();
                let ri = old(self).spec_recursive_index()@;
                page_flags_updated(
                    r,
                    page,
                    old(self).level_4()[table_index(a, 39) as int]@ != 0,
                    old(self).tables(),
                    final(self).tables(),
                    p3_table(a, ri),
                    table_index(a, 30),
                    flags.bits | 0x80,
                )
            }),
    {
        let ri = self.recursive_index;
        if self.p4.index_of(page.p4_index()).is_unused() {
            return Err(FlagUpdateError::PageNotMapped);
        }
        let p3 = p3_page(page, ri);
        let i3 = page.p3_index();
        let mut entry = self.tables.read_entry(p3, i3);
        if entry.is_unused() {
            return Err(FlagUpdateError::PageNotMapped);
        }
        entry.set_flags(flags.union(PageTableFlags { bits: PageTableFlags::HUGE_PAGE }));
        self.tables.write_entry(p3, i3, entry);
        Ok(MapperFlush::new(page))
    }

    /// The frame of the page's level 3 entry (see `entry_translated`); `PageNotMapped` where
    /// the level 4 entry is unused.
    fn translate_page(&mut self, page: Page<Page1GB>) -> (r: Result<Frame<Page1GB>, TranslateError>)
        ensures
            final(self).level_4() == old(self).level_4(),
            final(self).spec_recursive_index() == old(self).spec_recursive_index(),
            same_pages(old(self).tables(), final(self).tables()),
            ({
                let a = page.start();
                let ri = old(self).spec_recursive_index()@;
                if old(self).level_4()[table_index(a, 39) as int]@ == 0 {
                    r matches Err(TranslateError::PageNotMapped)
                } else {
                    entry_translated(
                        r,
                        old(self).tables().entry_at(p3_table(a, ri), table_index(a, 30)),
                        SIZE_1GB,
                    )
                }
            }),
    {
        let ri = self.recursive_index;
        if self.p4.index_of(page.p4_index()).is_unused() {
            return Err(TranslateError::PageNotMapped);
        }
        let p3 = p3_page(page, ri);
        let entry = self.tables.read_entry(p3, page.p3_index());
        if entry.is_unused() {
            return Err(TranslateError::PageNotMapped);
        }
        match Frame::<Page1GB>::from_start_addr(entry.addr()) {
            Ok(frame) => Ok(frame),
            Err(_) => Err(TranslateError::InvalidFrameAddress(entry.addr())),
        }
    }
}

impl<'a, T: TablePages> Mapper<Page2MB> for RecursivePageTable<'a, T> {
    /// Mapping a 2 MiB page never stops on an entry.
    open spec fn map_ready(&self, page: Page<Page2MB>) -> bool {
        true
    }

    /// Where the page's level 4 and level 3 entries are set and map no huge page, the page's
    /// level 2 entry becomes the frame with `flags` and HUGE_PAGE if it is unused
    /// (`PageAlreadyMapped` gives the frame back otherwise); where one of them that is set maps
    /// a huge page before an unused one comes, the error is `ParentEntryHugePage`. Missing
    /// tables are made first from frames of `allocator`.
    fn map_to<A: FrameAllocator<Page4KB>>(
        &mut self,
        page: Page<Page2MB>,
        frame: UnusedFrame<Page2MB>,
        flags: PageTableFlags,
        allocator: &mut A,
    ) -> (r: Result<MapperFlush<Page2MB>, MapToError<Page2MB>>)
        ensures
            final(self).spec_recursive_index() == old(self).spec_recursive_index(),
            r matches Ok(fl) ==> fl.spec_page() == page,
            r is Ok ==> final(self).tables().entry_at(
                p2_table(page.start(), old(self).spec_recursive_index()@),
                table_index(page.start(), 21),
            ) == frame.spec_frame().start() | (flags.bits | 0x80),
            r matches Err(MapToError::PageAlreadyMapped(u)) ==> u == frame,
            ({
                let a = page.start();
                let ri = old(self).spec_recursive_index()@;
                let e4 = old(self).level_4()[table_index(a, 39) as int]@;
                let e3 = old(self).tables().entry_at(p3_table(a, ri), table_index(a, 30));
                if e4 != 0 && entry_huge(e4) || e4 != 0 && e3 != 0 && entry_huge(e3) {
                    r matches Err(MapToError::ParentEntryHugePage) && final(self).level_4() == old(self).level_4() && same_pages(old(self).tables(), final(self).tables())
                } else if e4 != 0 && e3 != 0 {
                    final(self).level_4() == old(self).level_4() && page_mapped(
                        r,
                        old(self).tables(),
                        final(self).tables(),
                        p2_table(a, ri),
                        table_index(a, 21),
                        frame.spec_frame().start() | (flags.bits | 0x80),
                    )
                } else {
                    (r matches Err(MapToError::FrameAllocateFailed) && e4 != 0) ==> final(self).level_4() == old(self).level_4() && same_pages(
                        old(self).tables(),
                        final(self).tables(),
                    )
                }
            }),
    {
        let ri = self.recursive_index;
        let i4 = page.p4_index();
        let i3 = page.p3_index();
        let i2 = page.p2_index();
        let mut e4 = *self.p4.index_of(i4);
        proof {
            self.p4.lemma_entry_count();
            lemma_entry_bits(page.start(), 30);
            lemma_entry_bits(page.start(), 21);
        }
        let p3 = p3_page(page, ri);
        let created = self.create_next_table(&mut e4, None, p3, allocator);
        self.p4.set_entry(i4.as_usize(), e4);
        assert(e4 == old(self).level_4()[i4@ as int] ==> self.level_4() =~= old(self).level_4());
        match created {
            Ok(()) => {},
            Err(err) => return Err(MapToError::from(err)),
        }
        let mut e3 = self.tables.read_entry(p3, i3);
        let p2 = p2_page(page, ri);
        match self.create_next_table(&mut e3, Some((p3, i3)), p2, allocator) {
            Ok(()) => {},
            Err(err) => return Err(MapToError::from(err)),
        }
        let mut entry = self.tables.read_entry(p2, i2);
        if !entry.is_unused() {
            return Err(MapToError::PageAlreadyMapped(frame));
        }
        entry.set_addr(
            frame.frame().start_address(),
            flags.union(PageTableFlags { bits: PageTableFlags::HUGE_PAGE }),
        );
        self.tables.write_entry(p2, i2, entry);
        Ok(MapperFlush::new(page))
    }

    /// Where the page's level 4 and level 3 entries give frames, clears the page's level 2
    /// entry (see `page_huge_unmapped`); the first frame error comes back as an `UnmapError`
    /// otherwise.
    fn unmap(&mut self, page: Page<Page2MB>) -> (r: Result<(Frame<Page2MB>, MapperFlush<Page2MB>), UnmapError>)
        ensures
            final(self).level_4() == old(self).level_4(),
            final(self).spec_recursive_index() == old(self).spec_recursive_index(),
            ({
                let a = page.start();
                let ri = old(self).spec_recursive_index()@;
                let e3 = old(self).tables().entry_at(p3_table(a, ri), table_index(a, 30));
                match next_frame(old(self).level_4()[table_index(a, 39) as int]@) {
                    Err(e) => r == Err::<(Frame<Page2MB>, MapperFlush<Page2MB>), UnmapError>(
                        unmap_error_of(e),
                    ) && same_pages(old(self).tables(), final(self).tables()),
                    Ok(_) => match next_frame(e3) {
                        Err(e) => r == Err::<(Frame<Page2MB>, MapperFlush<Page2MB>), UnmapError>(
                            unmap_error_of(e),
                        ) && same_pages(old(self).tables(), final(self).tables()),
                        Ok(_) => page_huge_unmapped(
                            r,
                            page,
                            old(self).tables(),
                            final(self).tables(),
                            p2_table(a, ri),
                            table_index(a, 21),
                            SIZE_2MB,
                        ),
                    },
                }
            }),
    {
        let ri = self.recursive_index;
        match self.p4.index_of(page.p4_index()).frame() {
            Ok(_) => {},
            Err(FrameError::FrameNotPresent) => return Err(UnmapError::PageNotMapped),
            Err(FrameError::HugeFrame) => return Err(UnmapError::ParentEntryHugePage),
        }
        let p3 = p3_page(page, ri);
        match self.tables.read_entry(p3, page.p3_index()).frame() {
            Ok(_) => {},
            Err(FrameError::FrameNotPresent) => return Err(UnmapError::PageNotMapped),
            Err(FrameError::HugeFrame) => return Err(UnmapError::ParentEntryHugePage),
        }
        let p2 = p2_page(page, ri);
        let i2 = page.p2_index();
        let mut entry = self.tables.read_entry(p2, i2);
        proof {
            lemma_entry_bits(entry@, 0);
        }
        let flags = entry.flags();
        if !flags.contains(PageTableFlags { bits: PageTableFlags::PRESENT }) {
            return Err(UnmapError::PageNotMapped);
        }
        if !flags.contains(PageTableFlags { bits: PageTableFlags::HUGE_PAGE }) {
            return Err(UnmapError::ParentEntryHugePage);
        }
        let frame = match Frame::<Page2MB>::from_start_addr(entry.addr()) {
            Ok(frame) => frame,
            Err(_) => return Err(UnmapError::InvalidFrameAddress(entry.addr())),
        };
        entry.set_unused();
        self.tables.write_entry(p2, i2, entry);
        Ok((frame, MapperFlush::new(page)))
    }

    /// Gives the page's level 2 entry `flags` and HUGE_PAGE where it and the entries above it
    /// are set (see `page_flags_updated`).
    fn update_flags(&mut self, page: Page<Page2MB>, flags: PageTableFlags) -> (r: Result<
        MapperFlush<Page2MB>,
        FlagUpdateError,
    >)
        ensures
            final(self).level_4() == old(self).level_4(),
            final(self).spec_recursive_index() == old(self).spec_recursive_index(),
            ({
                let a = page.start();
                let ri = old(self).spec_recursive_index()@;
                page_flags_updated(
                    r,
                    page,
                    old(self).level_4()[table_index(a, 39) as int]@ != 0 && old(self).tables().entry_at(p3_table(a, ri), table_index(a, 30)) != 0,
                    old(self).tables(),
                    final(self).tables(),
                    p2_table(a, ri),
                    table_index(a, 21),
                    flags.bits | 0x80,
                )
            }),
    {
        let ri = self.recursive_index;
        if self.p4.index_of(page.p4_index()).is_unused() {
            return Err(FlagUpdateError::PageNotMapped);
        }
        let p3 = p3_page(page, ri);
        if self.tables.read_entry(p3, page.p3_index()).is_unused() {
            return Err(FlagUpdateError::PageNotMapped);
        }
        let p2 = p2_page(page, ri);
        let i2 = page.p2_index();
        let mut entry = self.tables.read_entry(p2, i2);
        if entry.is_unused() {
            return Err(FlagUpdateError::PageNotMapped);
        }
        entry.set_flags(flags.union(PageTableFlags { bits: PageTableFlags::HUGE_PAGE }));
        self.tables.write_entry(p2, i2, entry);
        Ok(MapperFlush::new(page))
    }

    /// The frame of the page's level 2 entry (see `entry_translated`); `PageNotMapped` where
    /// an entry above it is unused.
    fn translate_page(&mut self, page: Page<Page2MB>) -> (r: Result<Frame<Page2MB>, TranslateError>)
        ensures
            final(self).level_4() == old(self).level_4(),
            final(self).spec_recursive_index() == old(self).spec_recursive_index(),
            same_pages(old(self).tables(), final(self).tables()),
            ({
                let a = page.start();
                let ri = old(self).spec_recursive_index()@;
                if old(self).level_4()[table_index(a, 39) as int]@ == 0 || old(self).tables().entry_at(p3_table(a, ri), table_index(a, 30)) == 0 {
                    r matches Err(TranslateError::PageNotMapped)
                } else {
                    entry_translated(
                        r,
                        old(self).tables().entry_at(p2_table(a, ri), table_index(a, 21)),
                        SIZE_2MB,
                    )
                }
            }),
    {
        let ri = self.recursive_index;
        if self.p4.index_of(page.p4_index()).is_unused() {
            return Err(TranslateError::PageNotMapped);
        }
        let p3 = p3_page(page, ri);
        if self.tables.read_entry(p3, page.p3_index()).is_unused() {
            return Err(TranslateError::PageNotMapped);
        }
        let p2 = p2_page(page, ri);
        let entry = self.tables.read_entry(p2, page.p2_index());
        if entry.is_unused() {
            return Err(TranslateError::PageNotMapped);
        }
        match Frame::<Page2MB>::from_start_addr(entry.addr()) {
            Ok(frame) => Ok(frame),
            Err(_) => Err(TranslateError::InvalidFrameAddress(entry.addr())),
        }
    }
}

impl<'a, T: TablePages> Mapper<Page4KB> for RecursivePageTable<'a, T> {
    /// Mapping a 4 KiB page never stops on an entry.
    open spec fn map_ready(&self, page: Page<Page4KB>) -> bool {
        true
    }

    /// Where the page's level 4, 3 and 2 entries are set and map no huge page, the page's
    /// level 1 entry becomes the frame with `flags` if it is unused (`PageAlreadyMapped`
    /// gives the frame back otherwise); where one of them that is set maps a huge page before
    /// an unused one comes, the error is `ParentEntryHugePage`. Missing tables are made first
    /// from frames of `allocator`.
    fn map_to<A: FrameAllocator<Page4KB>>(
        &mut self,
        page: Page<Page4KB>,
        frame: UnusedFrame<Page4KB>,
        flags: PageTableFlags,
        allocator: &mut A,
    ) -> (r: Result<MapperFlush<Page4KB>, MapToError<Page4KB>>)
        ensures
            final(self).spec_recursive_index() == old(self).spec_recursive_index(),
            r matches Ok(fl) ==> fl.spec_page() == page,
            r is Ok ==> final(self).tables().entry_at(
                p1_table(page.start(), old(self).spec_recursive_index()@),
                table_index(page.start(), 12),
            ) == frame.spec_frame().start() | flags.bits,
            r matches Err(MapToError::PageAlreadyMapped(u)) ==> u == frame,
            ({
                let a = page.start();
                let ri = old(self).spec_recursive_index()@;
                let e4 = old(self).level_4()[table_index(a, 39) as int]@;
                let e3 = old(self).tables().entry_at(p3_table(a, ri), table_index(a, 30));
                let e2 = old(self).tables().entry_at(p2_table(a, ri), table_index(a, 21));
                if e4 != 0 && entry_huge(e4) || e4 != 0 && e3 != 0 && entry_huge(e3) || e4 != 0
                    && e3 != 0 && e2 != 0 && entry_huge(e2) {
                    r matches Err(MapToError::ParentEntryHugePage) && final(self).level_4() == old(self).level_4() && same_pages(old(self).tables(), final(self).tables())
                } else if e4 != 0 && e3 != 0 && e2 != 0 {
                    final(self).level_4() == old(self).level_4() && page_mapped(
                        r,
                        old(self).tables(),
                        final(self).tables(),
                        p1_table(a, ri),
                        table_index(a, 12),
                        frame.spec_frame().start() | flags.bits,
                    )
                } else {
                    (r matches Err(MapToError::FrameAllocateFailed) && e4 != 0 && e3 != 0) ==> final(self).level_4() == old(self).level_4() && same_pages(
                        old(self).tables(),
                        final(self).tables(),
                    )
                }
            }),
    {
        let ri = self.recursive_index;
        let i4 = page.p4_index();
        let i3 = page.p3_index();
        let i2 = page.p2_index();
        let i1 = page.p1_index();
        let mut e4 = *self.p4.index_of(i4);
        proof {
            self.p4.lemma_entry_count();
            lemma_entry_bits(page.start(), 30);
            lemma_entry_bits(page.start(), 21);
            lemma_entry_bits(page.start(), 12);
        }
        let p3 = p3_page(page, ri);
        let created = self.create_next_table(&mut e4, None, p3, allocator);
        self.p4.set_entry(i4.as_usize(), e4);
        assert(e4 == old(self).level_4()[i4@ as int] ==> self.level_4() =~= old(self).level_4());
        match created {
            Ok(()) => {},
            Err(err) => return Err(MapToError::from(err)),
        }
        let mut e3 = self.tables.read_entry(p3, i3);
        let p2 = p2_page(page, ri);
        match self.create_next_table(&mut e3, Some((p3, i3)), p2, allocator) {
            Ok(()) => {},
            Err(err) => return Err(MapToError::from(err)),
        }
        let mut e2 = self.tables.read_entry(p2, i2);
        let p1 = p1_page(page, ri);
        match self.create_next_table(&mut e2, Some((p2, i2)), p1, allocator) {
            Ok(()) => {},
            Err(err) => return Err(MapToError::from(err)),
        }
        let mut entry = self.tables.read_entry(p1, i1);
        if !entry.is_unused() {
            return Err(MapToError::PageAlreadyMapped(frame));
        }
        entry.set_frame(frame.frame(), flags);
        self.tables.write_entry(p1, i1, entry);
        Ok(MapperFlush::new(page))
    }

    /// Where the page's level 4, 3 and 2 entries give frames, clears the page's level 1 entry
    /// and gives back its frame; the first frame error on the way, the level 1 entry's
    /// included, comes back as an `UnmapError` otherwise.
    fn unmap(&mut self, page: Page<Page4KB>) -> (r: Result<(Frame<Page4KB>, MapperFlush<Page4KB>), UnmapError>)
        ensures
            final(self).level_4() == old(self).level_4(),
            final(self).spec_recursive_index() == old(self).spec_recursive_index(),
            unmapped_4kb(
                r,
                page,
                old(self).level_4(),
                old(self).tables(),
                final(self).tables(),
                old(self).spec_recursive_index()@,
            ),
    {
        let ri = self.recursive_index;
        match self.p4.index_of(page.p4_index()).frame() {
            Ok(_) => {},
            Err(FrameError::FrameNotPresent) => return Err(UnmapError::PageNotMapped),
            Err(FrameError::HugeFrame) => return Err(UnmapError::ParentEntryHugePage),
        }
        let p3 = p3_page(page, ri);
        match self.tables.read_entry(p3, page.p3_index()).frame() {
            Ok(_) => {},
            Err(FrameError::FrameNotPresent) => return Err(UnmapError::PageNotMapped),
            Err(FrameError::HugeFrame) => return Err(UnmapError::ParentEntryHugePage),
        }
        let p2 = p2_page(page, ri);
        match self.tables.read_entry(p2, page.p2_index()).frame() {
            Ok(_) => {},
            Err(FrameError::FrameNotPresent) => return Err(UnmapError::PageNotMapped),
            Err(FrameError::HugeFrame) => return Err(UnmapError::ParentEntryHugePage),
        }
        let p1 = p1_page(page, ri);
        let i1 = page.p1_index();
        let mut entry = self.tables.read_entry(p1, i1);
        let frame = match entry.frame() {
            Ok(frame) => frame,
            Err(FrameError::FrameNotPresent) => return Err(UnmapError::PageNotMapped),
            Err(FrameError::HugeFrame) => return Err(UnmapError::ParentEntryHugePage),
        };
        entry.set_unused();
        self.tables.write_entry(p1, i1, entry);
        Ok((frame, MapperFlush::new(page)))
    }

    /// Replaces the flags of the page's level 1 entry, keeping its address, where it and the
    /// entries above it are set (see `page_flags_updated`).
    fn update_flags(&mut self, page: Page<Page4KB>, flags: PageTableFlags) -> (r: Result<
        MapperFlush<Page4KB>,
        FlagUpdateError,
    >)
        ensures
            final(self).level_4() == old(self).level_4(),
            final(self).spec_recursive_index() == old(self).spec_recursive_index(),
            ({
                let a = page.start();
                let ri = old(self).spec_recursive_index()@;
                page_flags_updated(
                    r,
                    page,
                    old(self).level_4()[table_index(a, 39) as int]@ != 0 && old(self).tables().entry_at(p3_table(a, ri), table_index(a, 30)) != 0 && old(self).tables().entry_at(p2_table(a, ri), table_index(a, 21)) != 0,
                    old(self).tables(),
                    final(self).tables(),
                    p1_table(a, ri),
                    table_index(a, 12),
                    flags.bits,
                )
            }),
    {
        let ri = self.recursive_index;
        if self.p4.index_of(page.p4_index()).is_unused() {
            return Err(FlagUpdateError::PageNotMapped);
        }
        let p3 = p3_page(page, ri);
        if self.tables.read_entry(p3, page.p3_index()).is_unused() {
            return Err(FlagUpdateError::PageNotMapped);
        }
        let p2 = p2_page(page, ri);
        if self.tables.read_entry(p2, page.p2_index()).is_unused() {
            return Err(FlagUpdateError::PageNotMapped);
        }
        let p1 = p1_page(page, ri);
        let i1 = page.p1_index();
        let mut entry = self.tables.read_entry(p1, i1);
        if entry.is_unused() {
            return Err(FlagUpdateError::PageNotMapped);
        }
        entry.set_flags(flags);
        self.tables.write_entry(p1, i1, entry);
        Ok(MapperFlush::new(page))
    }

    /// The frame of the page's level 1 entry (see `entry_translated`); `PageNotMapped` where
    /// an entry above it is unused.
    fn translate_page(&mut self, page: Page<Page4KB>) -> (r: Result<Frame<Page4KB>, TranslateError>)
        ensures
            final(self).level_4() == old(self).level_4(),
            final(self).spec_recursive_index() == old(self).spec_recursive_index(),
            same_pages(old(self).tables(), final(self).tables()),
            translated_page_4kb(
                r,
                old(self).level_4(),
                old(self).tables(),
                page.start(),
                old(self).spec_recursive_index()@,
            ),
    {
        let ri = self.recursive_index;
        if self.p4.index_of(page.p4_index()).is_unused() {
            return Err(TranslateError::PageNotMapped);
        }
        let p3 = p3_page(page, ri);
        if self.tables.read_entry(p3, page.p3_index()).is_unused() {
            return Err(TranslateError::PageNotMapped);
        }
        let p2 = p2_page(page, ri);
        if self.tables.read_entry(p2, page.p2_index()).is_unused() {
            return Err(TranslateError::PageNotMapped);
        }
        let p1 = p1_page(page, ri);
        let entry = self.tables.read_entry(p1, page.p1_index());
        if entry.is_unused() {
            return Err(TranslateError::PageNotMapped);
        }
        proof {
            lemma_entry_bits(entry@, 0);
        }
        match Frame::<Page4KB>::from_start_addr(entry.addr()) {
            Ok(frame) => Ok(frame),
            Err(_) => Err(TranslateError::InvalidFrameAddress(entry.addr())),
        }
    }
}

/// Whether `i` is the entry through which the page at `a` is reached at all four levels.
pub open spec fn recursive_index_of_spec(a: u64, i: PageIndex) -> bool {
    let i4 = (a >> 39u64) & 0o777;
    &&& i@ == i4
    &&& i4 == (a >> 30u64) & 0o777
    &&& i4 == (a >> 21u64) & 0o777
    &&& i4 == (a >> 12u64) & 0o777
}

} // verus!
