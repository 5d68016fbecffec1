//! Page table entries and page tables of 512 entries.
use crate::bits::PageTableFlags;
use crate::ia_32e::addr::PhysAddr;
use crate::ia_32e::paging::frame::Frame;
use crate::ia_32e::paging::page::Page4KB;
use crate::ia_32e::paging::page_ops::PageIndex;
use crate::ia_32e::paging::result::FrameError;
use vstd::prelude::*;
use vstd::std_specs::iter::IteratorSpec;

verus! {

/// Bits 12 to 51 of an entry: the physical address it maps.
pub const ENTRY_ADDR_MASK: u64 = 0x000f_ffff_ffff_f000;

/// Number of entries in a page table.
pub const ENTRY_COUNT: usize = 512;

/// Whether the entry `e` has its PRESENT bit set.
pub open spec fn entry_present(e: u64) -> bool {
    e & 0x1 != 0
}

/// Whether the entry `e` has its HUGE_PAGE bit set.
pub open spec fn entry_huge(e: u64) -> bool {
    e & 0x80 != 0
}

/// The address bits of an entry and the bits around them: the address bits of an entry
/// are 4 KiB aligned and below bit 52, and an or of two values takes its address, PRESENT
/// and HUGE_PAGE bits from both.
pub proof fn lemma_entry_bits(a: u64, f: u64)
    by (bit_vector)
    ensures
        (a & 0x000f_ffff_ffff_f000u64) & 0xfffu64 == 0,
        (a & 0x000f_ffff_ffff_f000u64) >> 52u64 == 0,
        (a | f) & 0x000f_ffff_ffff_f000u64 == (a & 0x000f_ffff_ffff_f000u64) | (f
            & 0x000f_ffff_ffff_f000u64),
        ((a | f) & 0x1u64 != 0) == (a & 0x1u64 != 0 || f & 0x1u64 != 0),
        ((a | f) & 0x80u64 != 0) == (a & 0x80u64 != 0 || f & 0x80u64 != 0),
        (a & 0xfffu64 == 0 && a >> 52u64 == 0) ==> a & 0x000f_ffff_ffff_f000u64 == a,
        f & 0x000f_ffff_ffff_f000u64 == 0 ==> f & 0x000f_ffff_ffff_f000u64 == 0u64,
        0u64 & 0x1u64 == 0,
        0u64 & 0x80u64 == 0,
        0x1u64 | 0x2u64 == 3u64,
        3u64 & 0x1u64 != 0,
        3u64 & 0x80u64 == 0,
        (a | 3u64) & 0x3u64 == 3,
        (a >> f) & 0o777u64 < 512u64,
        a | 0u64 == a,
        a & 0xfffu64 == 0 ==> a & 0x80u64 == 0,
        f & 0x000f_ffff_ffff_f000u64 == 0 ==> (f | 0x80u64) & 0x000f_ffff_ffff_f000u64 == 0,
        (f | 0x80u64) & 0x80u64 != 0,
        ((f | 0x80u64) & 0x1u64 != 0) == (f & 0x1u64 != 0),
        ((a & 0xfff0000000000fffu64) & 0x1u64 == 0x1u64) == (a & 0x1u64 != 0),
        ((a & 0xfff0000000000fffu64) & 0x80u64 == 0x80u64) == (a & 0x80u64 != 0),
{
}

/// An entry of a page table.
#[derive(Clone, Copy, PartialEq, Eq, Structural, Debug)]
pub struct PageTableEntry {
    entry: u64,
}

impl View for PageTableEntry {
    type V = u64;

    closed spec fn view(&self) -> u64 {
        self.entry
    }
}

impl PageTableEntry {
    /// An unused entry.
    pub fn new() -> (r: Self)
        ensures
            r@ == 0,
    {
        PageTableEntry { entry: 0 }
    }

    /// Whether the entry is unused.
    pub fn is_unused(&self) -> (r: bool)
        ensures
            r == (self@ == 0),
    {
        self.entry == 0
    }

    /// Mark the entry as unused.
    pub fn set_unused(&mut self)
        ensures
            final(self)@ == 0,
    {
        self.entry = 0;
    }

    /// The flags of the entry: its bits that some flag defines.
    pub fn flags(&self) -> (r: PageTableFlags)
        ensures
            r.bits == self@ & PageTableFlags::ALL,
    {
        PageTableFlags::from_bits_truncate(self.entry)
    }

    /// The physical address that the entry maps: its bits 12 to 51.
    pub fn addr(&self) -> (r: PhysAddr)
        ensures
            r@ == self@ & ENTRY_ADDR_MASK,
    {
        let a = self.entry & ENTRY_ADDR_MASK;
        proof {
            let e = self.entry;
            assert((e & 0x000f_ffff_ffff_f000u64) >> 52u64 == 0) by (bit_vector);
        }
        PhysAddr::new(a)
    }

    /// The 4 KiB frame that the entry maps: `FrameNotPresent` where the entry is not present,
    /// `HugeFrame` where it maps a huge page.
    pub fn frame(&self) -> (r: Result<Frame<Page4KB>, FrameError>)
        ensures
            !entry_present(self@) ==> r == Err::<Frame<Page4KB>, FrameError>(
                FrameError::FrameNotPresent,
            ),
            entry_present(self@) && entry_huge(self@) ==> r == Err::<Frame<Page4KB>, FrameError>(
                FrameError::HugeFrame,
            ),
            entry_present(self@) && !entry_huge(self@) ==> (r matches Ok(f) && f.start() == self@
                & ENTRY_ADDR_MASK),
    {
        if self.entry & PageTableFlags::PRESENT == 0 {
            return Err(FrameError::FrameNotPresent);
        }
        if self.entry & PageTableFlags::HUGE_PAGE != 0 {
            return Err(FrameError::HugeFrame);
        }
        proof {
            lemma_entry_bits(self.entry, 0);
        }
        Ok(Frame::include_address(self.addr()))
    }

    /// Points the entry at `addr` with `flags`: the entry becomes the address or the flags.
    pub fn set_addr(&mut self, addr: PhysAddr, flags: PageTableFlags)
        ensures
            final(self)@ == addr@ | flags.bits,
    {
        self.entry = addr.as_u64() | flags.bits();
    }

    /// Points the entry at the start of `frame` with `flags`.
    pub fn set_frame(&mut self, frame: Frame<Page4KB>, flags: PageTableFlags)
        ensures
            final(self)@ == frame.start() | flags.bits,
    {
        self.set_addr(frame.start_address(), flags);
    }

    /// Replaces the flags of the entry, keeping its address.
    pub fn set_flags(&mut self, flags: PageTableFlags)
        ensures
            final(self)@ == (old(self)@ & ENTRY_ADDR_MASK) | flags.bits,
    {
        self.entry = self.addr().as_u64() | flags.bits();
    }
}

/// A page table: 512 entries.
pub struct PageTable {
    entries: [PageTableEntry; 512],
}

impl View for PageTable {
    type V = Seq<PageTableEntry>;

    closed spec fn view(&self) -> Seq<PageTableEntry> {
        self.entries@
    }
}

impl PageTable {
    /// A table has `ENTRY_COUNT` entries.
    pub proof fn lemma_entry_count(&self)
        ensures
            self@.len() == ENTRY_COUNT,
    {
    }

    /// A page table whose entries are all unused.
    pub fn new() -> (r: Self)
        ensures
            r@.len() == ENTRY_COUNT,
            forall|i: int| 0 <= i < ENTRY_COUNT ==> #[trigger] r@[i]@ == 0,
    {
        PageTable { entries: [PageTableEntry { entry: 0 }; 512] }
    }

    /// Mark every entry as unused.
    pub fn zero(&mut self)
        ensures
            final(self)@.len() == ENTRY_COUNT,
            forall|i: int| 0 <= i < ENTRY_COUNT ==> #[trigger] final(self)@[i]@ == 0,
    {
        let mut i: usize = 0;
        while i < ENTRY_COUNT
            invariant
                i <= ENTRY_COUNT,
                self@.len() == ENTRY_COUNT,
                forall|j: int| 0 <= j < i ==> #[trigger] self@[j]@ == 0,
            decreases ENTRY_COUNT - i,
        {
            self.entries[i] = PageTableEntry::new();
            i = i + 1;
        }
    }

    /// The entries in order.
    pub fn iter(&self) -> (r: core::slice::Iter<'_, PageTableEntry>)
        ensures
            r.remaining() == self@.as_ref(),
    {
        self.entries.as_slice().iter()
    }

    /// The entry at `index`.
    pub fn index(&self, index: usize) -> (r: &PageTableEntry)
        requires
            index < ENTRY_COUNT,
        ensures
            *r == self@[index as int],
    {
        &self.entries[index]
    }

    /// The entry that a table index selects.
    pub fn index_of(&self, index: PageIndex) -> (r: &PageTableEntry)
        ensures
            *r == self@[index@ as int],
    {
        &self.entries[index.as_usize()]
    }

    /// Replace the entry at `index`.
    pub fn set_entry(&mut self, index: usize, entry: PageTableEntry)
        requires
            index < ENTRY_COUNT,
        ensures
            final(self)@ == old(self)@.update(index as int, entry),
    {
        self.entries[index] = entry;
    }
}

} // verus!
