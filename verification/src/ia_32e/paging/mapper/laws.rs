//! What the operations of a `MappedPageTable` and of a `RecursivePageTable` promise of each
//! other, stated over the predicates that their contracts use.
use crate::ia_32e::paging::frame::Frame;
use crate::ia_32e::paging::mapper::map_pt::{
    entry_written, next_frame, table_index, translated, translated_1gb, translated_2mb,
    translated_4kb, walk1, PhysicalToVirtual,
};
use crate::ia_32e::paging::mapper::page::{
    p1_table, p2_table, p3_table, page_entry_written, same_pages, translated_page_4kb,
    translated_recursive, unmapped_4kb, TablePages,
};
use crate::ia_32e::paging::mapper::MapperFlush;
use crate::ia_32e::paging::page::{Page, Page1GB, Page2MB, Page4KB, SIZE_1GB};
use crate::ia_32e::paging::page_table::{lemma_entry_bits, PageTableEntry, ENTRY_ADDR_MASK};
use crate::ia_32e::paging::result::{
    PageTableWalkError, TranslateError, TranslationResult, UnmapError,
};
use vstd::prelude::*;

verus! {

/// Once a 4 KiB page has been mapped through tables that already existed (the level 1 entry
/// at the page's index in the table that the walk reaches was set to the frame's start and
/// present flags), translating an address of the page gives that frame and the address's
/// offset in it, provided the entry written is none of the two entries the walk read on
/// its way.
pub proof fn law_mapped_4kb_page_translates<P: PhysicalToVirtual>(
    p4: Seq<PageTableEntry>,
    before: P,
    after: P,
    a: u64,
    f3: u64,
    f2: u64,
    f1: u64,
    start: u64,
    flags: u64,
    r: TranslationResult,
)
    requires
        walk1(p4, table_index(a, 39)) == Ok::<u64, PageTableWalkError>(f3),
        next_frame(before.entry_at(f3, table_index(a, 30))) == Ok::<u64, PageTableWalkError>(f2),
        next_frame(before.entry_at(f2, table_index(a, 21))) == Ok::<u64, PageTableWalkError>(f1),
        entry_written(before, after, f1, table_index(a, 12), start | flags),
        !(f1 == f3 && table_index(a, 12) == table_index(a, 30)),
        !(f1 == f2 && table_index(a, 12) == table_index(a, 21)),
        start & 0xfff == 0,
        start >> 52 == 0,
        flags & ENTRY_ADDR_MASK == 0,
        flags & 0x1 != 0,
        translated(r, p4, after, a),
    ensures
        r matches TranslationResult::Frame4KB { frame, offset } && frame.start() == start && offset
            == a & 0xfff,
{
    lemma_entry_bits(start, flags);
    let i3 = table_index(a, 30);
    let i2 = table_index(a, 21);
    let i1 = table_index(a, 12);
    assert(after.entry_at(f3, i3) == before.entry_at(f3, i3));
    assert(after.entry_at(f2, i2) == before.entry_at(f2, i2));
    assert(after.entry_at(f1, i1) == start | flags);
}

/// Once a 1 GiB page has been mapped (the level 3 entry at the page's index, in the table that
/// the page's level 4 entry points to, was set to the frame's start, the page's flags and
/// HUGE_PAGE), translating an address of the page gives that frame and the address's offset
/// in it.
pub proof fn law_mapped_1gb_page_translates<P: PhysicalToVirtual>(
    p4: Seq<PageTableEntry>,
    before: P,
    after: P,
    a: u64,
    f3: u64,
    start: u64,
    flags: u64,
    r: TranslationResult,
)
    requires
        walk1(p4, table_index(a, 39)) == Ok::<u64, PageTableWalkError>(f3),
        entry_written(before, after, f3, table_index(a, 30), start | (flags | 0x80)),
        start & ((SIZE_1GB - 1) as u64) == 0,
        start >> 52 == 0,
        flags & ENTRY_ADDR_MASK == 0,
        flags & 0x1 != 0,
        translated(r, p4, after, a),
    ensures
        r matches TranslationResult::Frame1GB { frame, offset } && frame.start() == start && offset
            == a & 0o777_777_7777,
{
    lemma_entry_bits(start, flags);
    lemma_entry_bits(start, flags | 0x80);
    assert(start & 0xfff == 0) by (bit_vector)
        requires
            start & 0x3fff_ffffu64 == 0,
    ;
    let e = start | (flags | 0x80);
    assert(after.entry_at(f3, table_index(a, 30)) == e);
    assert(e & ENTRY_ADDR_MASK == start);
}

/// Changing the flags of a mapped 1 GiB page keeps the frame it maps: where `translate_page`
/// found a frame before the level 3 entry took new flags (keeping its address and HUGE_PAGE),
/// it finds the same frame after.
pub proof fn law_1gb_flag_update_keeps_frame<P: PhysicalToVirtual>(
    p4: Seq<PageTableEntry>,
    before: P,
    after: P,
    a: u64,
    f3: u64,
    flags: u64,
    r_before: Result<Frame<Page1GB>, TranslateError>,
    r_after: Result<Frame<Page1GB>, TranslateError>,
)
    requires
        walk1(p4, table_index(a, 39)) == Ok::<u64, PageTableWalkError>(f3),
        entry_written(
            before,
            after,
            f3,
            table_index(a, 30),
            (before.entry_at(f3, table_index(a, 30)) & ENTRY_ADDR_MASK) | (flags | 0x80),
        ),
        flags & ENTRY_ADDR_MASK == 0,
        translated_1gb(r_before, p4, before, a),
        translated_1gb(r_after, p4, after, a),
    ensures
        r_before matches Ok(f) ==> (r_after matches Ok(g) && g.start() == f.start()),
{
    let e = before.entry_at(f3, table_index(a, 30));
    lemma_entry_bits(e & ENTRY_ADDR_MASK, flags | 0x80);
    lemma_entry_bits(e, flags);
    assert(after.entry_at(f3, table_index(a, 30)) == (e & ENTRY_ADDR_MASK) | (flags | 0x80));
}

/// Changing the flags of a mapped 2 MiB page keeps the frame it maps, where the level 2 entry
/// that takes the new flags is not the entry the walk read on its way to it.
pub proof fn law_2mb_flag_update_keeps_frame<P: PhysicalToVirtual>(
    p4: Seq<PageTableEntry>,
    before: P,
    after: P,
    a: u64,
    f3: u64,
    f2: u64,
    flags: u64,
    r_before: Result<Frame<Page2MB>, TranslateError>,
    r_after: Result<Frame<Page2MB>, TranslateError>,
)
    requires
        walk1(p4, table_index(a, 39)) == Ok::<u64, PageTableWalkError>(f3),
        next_frame(before.entry_at(f3, table_index(a, 30))) == Ok::<u64, PageTableWalkError>(f2),
        !(f2 == f3 && table_index(a, 21) == table_index(a, 30)),
        entry_written(
            before,
            after,
            f2,
            table_index(a, 21),
            (before.entry_at(f2, table_index(a, 21)) & ENTRY_ADDR_MASK) | (flags | 0x80),
        ),
        flags & ENTRY_ADDR_MASK == 0,
        translated_2mb(r_before, p4, before, a),
        translated_2mb(r_after, p4, after, a),
    ensures
        r_before matches Ok(f) ==> (r_after matches Ok(g) && g.start() == f.start()),
{
    let e = before.entry_at(f2, table_index(a, 21));
    lemma_entry_bits(e & ENTRY_ADDR_MASK, flags | 0x80);
    lemma_entry_bits(e, flags);
    assert(after.entry_at(f3, table_index(a, 30)) == before.entry_at(f3, table_index(a, 30)));
    assert(after.entry_at(f2, table_index(a, 21)) == (e & ENTRY_ADDR_MASK) | (flags | 0x80));
}

/// Once the entry of a 1 GiB page has been cleared, `translate_page` no longer finds the page.
pub proof fn law_unmapped_1gb_page_not_found<P: PhysicalToVirtual>(
    p4: Seq<PageTableEntry>,
    before: P,
    after: P,
    a: u64,
    f3: u64,
    r: Result<Frame<Page1GB>, TranslateError>,
)
    requires
        walk1(p4, table_index(a, 39)) == Ok::<u64, PageTableWalkError>(f3),
        entry_written(before, after, f3, table_index(a, 30), 0),
        translated_1gb(r, p4, after, a),
    ensures
        r matches Err(TranslateError::PageNotMapped),
{
    assert(after.entry_at(f3, table_index(a, 30)) == 0);
}

/// Once the level 1 entry of a 4 KiB page has been cleared, `translate_page` no longer finds
/// the page, provided the entry cleared is none of the two entries the walk reads on its way.
pub proof fn law_unmapped_4kb_page_not_found<P: PhysicalToVirtual>(
    p4: Seq<PageTableEntry>,
    before: P,
    after: P,
    a: u64,
    f3: u64,
    f2: u64,
    f1: u64,
    r: Result<Frame<Page4KB>, TranslateError>,
)
    requires
        walk1(p4, table_index(a, 39)) == Ok::<u64, PageTableWalkError>(f3),
        next_frame(before.entry_at(f3, table_index(a, 30))) == Ok::<u64, PageTableWalkError>(f2),
        next_frame(before.entry_at(f2, table_index(a, 21))) == Ok::<u64, PageTableWalkError>(f1),
        entry_written(before, after, f1, table_index(a, 12), 0),
        !(f1 == f3 && table_index(a, 12) == table_index(a, 30)),
        !(f1 == f2 && table_index(a, 12) == table_index(a, 21)),
        translated_4kb(r, p4, after, a),
    ensures
        r matches Err(TranslateError::PageNotMapped),
{
    assert(after.entry_at(f3, table_index(a, 30)) == before.entry_at(f3, table_index(a, 30)));
    assert(after.entry_at(f2, table_index(a, 21)) == before.entry_at(f2, table_index(a, 21)));
    assert(after.entry_at(f1, table_index(a, 12)) == 0);
}

/// Whether the entries above the 4 KiB page at `a` (its level 4 entry in `p4` and its level
/// 3 and level 2 entries, seen at the recursive pages) all lead to a table.
pub open spec fn recursive_path_present<T: TablePages>(
    p4: Seq<PageTableEntry>,
    tables: T,
    a: u64,
    ri: u64,
) -> bool {
    &&& next_frame(p4[table_index(a, 39) as int]@) is Ok
    &&& next_frame(tables.entry_at(p3_table(a, ri), table_index(a, 30))) is Ok
    &&& next_frame(tables.entry_at(p2_table(a, ri), table_index(a, 21))) is Ok
}

/// Whether the level 1 entry of the 4 KiB page at `a` is seen at another place than its
/// level 3 and level 2 entries.
pub open spec fn recursive_slots_apart(a: u64, ri: u64) -> bool {
    &&& !(p1_table(a, ri) == p3_table(a, ri) && table_index(a, 12) == table_index(a, 30))
    &&& !(p1_table(a, ri) == p2_table(a, ri) && table_index(a, 12) == table_index(a, 21))
}

/// Once a 4 KiB page has been mapped through a recursive table whose tables on the way
/// existed (the page's level 1 entry was set to the frame's start and present flags),
/// translating an address of the page gives that frame and the address's offset in it.
pub proof fn law_recursive_mapped_4kb_page_translates<T: TablePages>(
    p4: Seq<PageTableEntry>,
    before: T,
    after: T,
    a: u64,
    ri: u64,
    start: u64,
    flags: u64,
    r: TranslationResult,
)
    requires
        recursive_path_present(p4, before, a, ri),
        recursive_slots_apart(a, ri),
        page_entry_written(before, after, p1_table(a, ri), table_index(a, 12), start | flags),
        start & 0xfff == 0,
        start >> 52 == 0,
        flags & ENTRY_ADDR_MASK == 0,
        flags & 0x1 != 0,
        translated_recursive(r, p4, after, a, ri),
    ensures
        r matches TranslationResult::Frame4KB { frame, offset } && frame.start() == start && offset
            == a & 0xfff,
{
    lemma_entry_bits(start, flags);
    lemma_entry_bits(p4[table_index(a, 39) as int]@, 0);
    let e3 = before.entry_at(p3_table(a, ri), table_index(a, 30));
    let e2 = before.entry_at(p2_table(a, ri), table_index(a, 21));
    lemma_entry_bits(e3, 0);
    lemma_entry_bits(e2, 0);
    assert(after.entry_at(p3_table(a, ri), table_index(a, 30)) == e3);
    assert(after.entry_at(p2_table(a, ri), table_index(a, 21)) == e2);
    assert(after.entry_at(p1_table(a, ri), table_index(a, 12)) == start | flags);
}

/// Unmapping a 4 KiB page right after mapping it through a recursive table whose tables on
/// the way existed gives back the frame it was mapped to, and leaves the tables as they were
/// before the mapping.
pub proof fn law_recursive_unmap_undoes_map<T: TablePages>(
    page: Page<Page4KB>,
    p4: Seq<PageTableEntry>,
    before: T,
    mapped: T,
    after: T,
    ri: u64,
    start: u64,
    flags: u64,
    r: Result<(Frame<Page4KB>, MapperFlush<Page4KB>), UnmapError>,
)
    requires
        recursive_path_present(p4, before, page.start(), ri),
        recursive_slots_apart(page.start(), ri),
        before.entry_at(p1_table(page.start(), ri), table_index(page.start(), 12)) == 0,
        page_entry_written(
            before,
            mapped,
            p1_table(page.start(), ri),
            table_index(page.start(), 12),
            start | flags,
        ),
        start & 0xfff == 0,
        start >> 52 == 0,
        flags & ENTRY_ADDR_MASK == 0,
        flags & 0x1 != 0,
        flags & 0x80 == 0,
        unmapped_4kb(r, page, p4, mapped, after, ri),
    ensures
        r matches Ok(v) && v.0.start() == start,
        same_pages(before, after),
{
    let a = page.start();
    lemma_entry_bits(start, flags);
    assert(mapped.entry_at(p3_table(a, ri), table_index(a, 30)) == before.entry_at(
        p3_table(a, ri),
        table_index(a, 30),
    ));
    assert(mapped.entry_at(p2_table(a, ri), table_index(a, 21)) == before.entry_at(
        p2_table(a, ri),
        table_index(a, 21),
    ));
    assert(mapped.entry_at(p1_table(a, ri), table_index(a, 12)) == start | flags);
    assert forall|p: u64, i: u64| #[trigger] after.entry_at(p, i) == before.entry_at(p, i) by {
        if p == p1_table(a, ri) && i == table_index(a, 12) {
        } else {
            assert(mapped.entry_at(p, i) == before.entry_at(p, i));
        }
    }
}

/// Changing the flags of a mapped 4 KiB page of a recursive table to present flags keeps the
/// frame it maps: where `translate_page` found a frame before, it finds the same frame after.
pub proof fn law_recursive_flag_update_keeps_frame<T: TablePages>(
    p4: Seq<PageTableEntry>,
    before: T,
    after: T,
    a: u64,
    ri: u64,
    flags: u64,
    r_before: Result<Frame<Page4KB>, TranslateError>,
    r_after: Result<Frame<Page4KB>, TranslateError>,
)
    requires
        recursive_slots_apart(a, ri),
        page_entry_written(
            before,
            after,
            p1_table(a, ri),
            table_index(a, 12),
            (before.entry_at(p1_table(a, ri), table_index(a, 12)) & ENTRY_ADDR_MASK) | flags,
        ),
        flags & ENTRY_ADDR_MASK == 0,
        flags & 0x1 != 0,
        translated_page_4kb(r_before, p4, before, a, ri),
        translated_page_4kb(r_after, p4, after, a, ri),
    ensures
        r_before matches Ok(f) ==> (r_after matches Ok(g) && g.start() == f.start()),
{
    let e1 = before.entry_at(p1_table(a, ri), table_index(a, 12));
    lemma_entry_bits(e1 & ENTRY_ADDR_MASK, flags);
    lemma_entry_bits(e1, flags);
    assert(after.entry_at(p3_table(a, ri), table_index(a, 30)) == before.entry_at(
        p3_table(a, ri),
        table_index(a, 30),
    ));
    assert(after.entry_at(p2_table(a, ri), table_index(a, 21)) == before.entry_at(
        p2_table(a, ri),
        table_index(a, 21),
    ));
    assert(after.entry_at(p1_table(a, ri), table_index(a, 12)) == (e1 & ENTRY_ADDR_MASK) | flags);
}

/// Once a 1 GiB page has been mapped through a recursive table whose level 4 entry for the
/// page was set and mapped no huge page (the page's level 3 entry was set to the frame's
/// start, present flags and HUGE_PAGE), translating an address of the page gives that frame
/// and the address's offset in it.
pub proof fn law_recursive_mapped_1gb_page_translates<T: TablePages>(
    p4: Seq<PageTableEntry>,
    before: T,
    after: T,
    a: u64,
    ri: u64,
    start: u64,
    flags: u64,
    r: TranslationResult,
)
    requires
        p4[table_index(a, 39) as int]@ != 0,
        page_entry_written(before, after, p3_table(a, ri), table_index(a, 30), start | (flags | 0x80)),
        start & ((SIZE_1GB - 1) as u64) == 0,
        start >> 52 == 0,
        flags & ENTRY_ADDR_MASK == 0,
        translated_recursive(r, p4, after, a, ri),
    ensures
        r matches TranslationResult::Frame1GB { frame, offset } && frame.start() == start && offset
            == a & 0o777_777_7777,
{
    lemma_entry_bits(start, flags);
    lemma_entry_bits(start, flags | 0x80);
    assert(start & 0xfff == 0) by (bit_vector)
        requires
            start & 0x3fff_ffffu64 == 0,
    ;
    let e = start | (flags | 0x80);
    assert(after.entry_at(p3_table(a, ri), table_index(a, 30)) == e);
    assert(e & ENTRY_ADDR_MASK == start);
}

} // verus!
