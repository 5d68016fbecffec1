//! The global descriptor table.
use crate::ia_32e::descriptor::{Descriptor, DescriptorTablePointer, SegmentSelector};
use crate::ia_32e::{level_value, PrivilegedLevel};
use vstd::prelude::*;

verus! {

/// A global descriptor table of eight entries. Entry 0 is the null descriptor; the entries
/// from `next_free` on are free.
#[derive(Clone, Copy, Debug)]
pub struct GlobalDescriptorTable {
    table: [u64; 8],
    next_free: usize,
}

impl GlobalDescriptorTable {
    #[verifier::type_invariant]
    spec fn inv(self) -> bool {
        1 <= self.next_free <= 8
    }

    /// The eight entries.
    pub closed spec fn entries(&self) -> Seq<u64> {
        self.table@
    }

    /// The index of the first free entry; the null descriptor is never free.
    pub closed spec fn next_free(&self) -> nat {
        self.next_free as nat
    }

    /// Every table has eight entries.
    pub proof fn lemma_entries_len(&self)
        ensures
            self.entries().len() == 8,
    {
    }

    /// The number of free entries.
    pub open spec fn free_entries(&self) -> int {
        8 - self.next_free()
    }

    /// The table that holds the null descriptor alone.
    pub fn new() -> (r: GlobalDescriptorTable)
        ensures
            r.entries() == Seq::new(8, |i: int| 0u64),
            r.next_free() == 1,
    {
        let r = GlobalDescriptorTable { table: [0u64; 8], next_free: 1 };
        assert(r.table@ =~= Seq::new(8, |i: int| 0u64));
        r
    }

    /// The table whose entries are `table`, with every entry but the null descriptor taken
    /// to be free.
    pub fn from_table(table: [u64; 8]) -> (r: GlobalDescriptorTable)
        ensures
            r.entries() == table@,
            r.next_free() == 1,
    {
        GlobalDescriptorTable { table, next_free: 1 }
    }

    /// Stores `value` in the first free entry and gives its index.
    fn push(&mut self, value: u64) -> (r: usize)
        requires
            old(self).free_entries() >= 1,
        ensures
            r == old(self).next_free(),
            final(self).next_free() == old(self).next_free() + 1,
            final(self).entries() == old(self).entries().update(r as int, value),
    {
        proof {
            use_type_invariant(&*self);
        }
        let index = self.next_free;
        self.table[index] = value;
        self.next_free = index + 1;
        index
    }

    /// Adds `descr` in the first free entries (one for a user segment, two for a system
    /// segment) and gives the ring 0 selector of its first entry.
    pub fn add_descriptor(&mut self, descr: Descriptor) -> (r: SegmentSelector)
        requires
            old(self).free_entries() >= match descr {
                Descriptor::UserSegment(_) => 1int,
                Descriptor::SystemSegment(_, _) => 2int,
            },
        ensures
            r.0 == ((old(self).next_free() as u16) << 3u16) | level_value(PrivilegedLevel::Ring0),
            final(self).entries().len() == 8,
            match descr {
                Descriptor::UserSegment(value) => {
                    &&& final(self).next_free() == old(self).next_free() + 1
                    &&& final(self).entries() == old(self).entries().update(
                        old(self).next_free() as int,
                        value,
                    )
                },
                Descriptor::SystemSegment(low, high) => {
                    &&& final(self).next_free() == old(self).next_free() + 2
                    &&& final(self).entries() == old(self).entries().update(
                        old(self).next_free() as int,
                        low,
                    ).update(old(self).next_free() + 1int, high)
                },
            },
    {
        let index = match descr {
            Descriptor::UserSegment(value) => self.push(value),
            Descriptor::SystemSegment(low, high) => {
                let index = self.push(low);
                self.push(high);
                index
            },
        };
        SegmentSelector::new(index as u16, PrivilegedLevel::Ring0)
    }

    /// The operand that loads this table from address `base`: the limit of eight entries of
    /// eight bytes, less one.
    pub fn pointer(&self, base: u64) -> (r: DescriptorTablePointer)
        ensures
            r.limit == 63,
            r.base == base,
    {
        DescriptorTablePointer { limit: 63, base }
    }

    /// The entry at `index`.
    pub fn entry(&self, index: usize) -> (r: u64)
        requires
            index < 8,
        ensures
            r == self.entries()[index as int],
    {
        self.table[index]
    }
}

} // verus!
