//! Page tables held in ordinary memory, each under the address it is found at: the start of
//! its frame for a `MappedPageTable`, the start of its virtual page for a
//! `RecursivePageTable`. A table never written reads as unused.
use crate::ia_32e::paging::frame::Frame;
use crate::ia_32e::paging::mapper::map_pt::PhysicalToVirtual;
use crate::ia_32e::paging::mapper::page::TablePages;
use crate::ia_32e::paging::page::{Page, Page4KB};
use crate::ia_32e::paging::page_ops::PageIndex;
use crate::ia_32e::paging::page_table::{PageTable, PageTableEntry};
use vstd::prelude::*;

verus! {

/// Whether `k` is the first place of `tables` that holds the table found at `at`.
pub open spec fn first_slot(tables: Seq<(u64, PageTable)>, at: u64, k: int) -> bool {
    &&& 0 <= k < tables.len()
    &&& tables[k].0 == at
    &&& forall|j: int| 0 <= j < k ==> tables[j].0 != at
}

/// The raw entry at `index` of the table found at `at`: the entry of the first table held
/// under `at`, and 0 where no table is held there or `index` is past the end of a table.
pub open spec fn stored_entry(tables: Seq<(u64, PageTable)>, at: u64, index: u64) -> u64 {
    if exists|k: int| first_slot(tables, at, k) && index < 512 {
        tables[choose|k: int| first_slot(tables, at, k)].1@[index as int]@
    } else {
        0
    }
}

/// The first place that holds a table is unique.
proof fn lemma_first_slot_unique(tables: Seq<(u64, PageTable)>, at: u64, k: int, l: int)
    requires
        first_slot(tables, at, k),
        first_slot(tables, at, l),
    ensures
        k == l,
{
    if k < l {
        assert(tables[k].0 != at);
    } else if l < k {
        assert(tables[l].0 != at);
    }
}

/// Page tables held in memory, each under the address it is found at.
pub struct TableStore {
    tables: Vec<(u64, PageTable)>,
}

impl TableStore {
    /// The tables held, each with the address it is found at.
    pub closed spec fn held(&self) -> Seq<(u64, PageTable)> {
        self.tables@
    }

    /// A store that holds no table: every entry reads as unused.
    pub fn new() -> (r: Self)
        ensures
            r.held().len() == 0,
    {
        TableStore { tables: Vec::new() }
    }

    /// The first place that holds the table found at `at`, if any.
    fn find(&self, at: u64) -> (r: Option<usize>)
        ensures
            r matches Some(k) ==> first_slot(self.tables@, at, k as int),
            r is None ==> forall|k: int| 0 <= k < self.tables@.len() ==> self.tables@[k].0 != at,
    {
        let mut k: usize = 0;
        while k < self.tables.len()
            invariant
                k <= self.tables@.len(),
                forall|j: int| 0 <= j < k ==> self.tables@[j].0 != at,
            decreases self.tables@.len() - k,
        {
            if self.tables[k].0 == at {
                return Some(k);
            }
            k = k + 1;
        }
        None
    }

    /// The entry at `index` of the table found at `at`.
    fn read(&self, at: u64, index: PageIndex) -> (r: PageTableEntry)
        ensures
            r@ == stored_entry(self.held(), at, index@),
    {
        let i = index.as_usize();
        match self.find(at) {
            Some(k) => {
                proof {
                    self.tables@[k as int].1.lemma_entry_count();
                    assert forall|l: int| first_slot(self.held(), at, l) implies l == k by {
                        lemma_first_slot_unique(self.held(), at, k as int, l);
                    }
                }
                *self.tables[k].1.index(i)
            },
            None => PageTableEntry::new(),
        }
    }

    /// Writes `entry` at `index` of the table found at `at`, holding a new unused table
    /// there first where none is held.
    fn write(&mut self, at: u64, index: PageIndex, entry: PageTableEntry)
        ensures
            forall|p: u64, j: u64| #[trigger]
                stored_entry(final(self).held(), p, j) == if p == at && j == index@ {
                    entry@
                } else {
                    stored_entry(old(self).held(), p, j)
                },
    {
        let i = index.as_usize();
        let ghost before = self.tables@;
        match self.find(at) {
            Some(k) => {
                self.tables[k].1.set_entry(i, entry);
                proof {
                    let after = self.tables@;
                    assert forall|p: u64, j: u64| #[trigger]
                        stored_entry(after, p, j) == if p == at && j == index@ {
                            entry@
                        } else {
                            stored_entry(before, p, j)
                        } by {
                        assert forall|l: int| first_slot(after, p, l) <==> first_slot(before, p, l) by {
                            assert forall|m: int| 0 <= m < after.len() implies after[m].0 == before[m].0 by {
                            }
                        }
                        if exists|l: int| first_slot(before, p, l) {
                            let l = choose|l: int| first_slot(before, p, l);
                            before[l].1.lemma_entry_count();
                            after[l].1.lemma_entry_count();
                            if p == at {
                                lemma_first_slot_unique(before, at, k as int, l);
                            }
                        }
                    }
                }
            },
            None => {
                let mut table = PageTable::new();
                table.set_entry(i, entry);
                self.tables.push((at, table));
                proof {
                    let after = self.tables@;
                    let n = before.len() as int;
                    after[n].1.lemma_entry_count();
                    assert forall|j: int| 0 <= j < n implies after[j].0 != at by {
                        assert(after[j] == before[j]);
                    }
                    assert(first_slot(after, at, n));
                    assert forall|l: int| !first_slot(before, at, l) by {
                        if 0 <= l < before.len() {
                            assert(before[l].0 != at);
                        }
                    }
                    assert forall|p: u64, j: u64| #[trigger]
                        stored_entry(after, p, j) == if p == at && j == index@ {
                            entry@
                        } else {
                            stored_entry(before, p, j)
                        } by {
                        if p == at {
                            assert forall|l: int| first_slot(after, at, l) implies l == n by {
                                lemma_first_slot_unique(after, at, n, l);
                            }
                            assert(!(exists|l: int| first_slot(before, at, l)));
                        } else {
                            assert forall|l: int| first_slot(after, p, l) <==> first_slot(before, p, l) by {
                                assert forall|m: int| 0 <= m < before.len() implies after[m] == before[m] by {
                                }
                            }
                            if exists|l: int| first_slot(before, p, l) {
                                let l = choose|l: int| first_slot(before, p, l);
                                assert(after[l] == before[l]);
                            }
                        }
                    }
                }
            },
        }
    }
}

impl PhysicalToVirtual for TableStore {
    /// The entry stored under the frame's start.
    open spec fn entry_at(&self, frame: u64, index: u64) -> u64 {
        stored_entry(self.held(), frame, index)
    }

    fn read_entry(&self, frame: Frame<Page4KB>, index: PageIndex) -> (r: PageTableEntry) {
        self.read(frame.start_address().as_u64(), index)
    }

    fn write_entry(&mut self, frame: Frame<Page4KB>, index: PageIndex, entry: PageTableEntry) {
        self.write(frame.start_address().as_u64(), index, entry)
    }
}

impl TablePages for TableStore {
    /// The entry stored under the page's start.
    open spec fn entry_at(&self, page: u64, index: u64) -> u64 {
        stored_entry(self.held(), page, index)
    }

    fn read_entry(&self, page: Page<Page4KB>, index: PageIndex) -> (r: PageTableEntry) {
        self.read(page.start_address().as_u64(), index)
    }

    fn write_entry(&mut self, page: Page<Page4KB>, index: PageIndex, entry: PageTableEntry) {
        self.write(page.start_address().as_u64(), index, entry)
    }
}

} // verus!
