//! Virtual memory pages of the three sizes of the IA-32e paging structures.
use crate::ia_32e::addr::{is_align, is_align_down, is_canonical, sign_extend, VirtAddr};
use crate::ia_32e::paging::page_ops::PageIndex;
use core::marker::PhantomData;
use vstd::prelude::*;

verus! {

/// Bytes in a 4 KiB page.
pub const SIZE_4KB: u64 = 0x1000;

/// Bytes in a 2 MiB page.
pub const SIZE_2MB: u64 = 0x20_0000;

/// Bytes in a 1 GiB page.
pub const SIZE_1GB: u64 = 0x4000_0000;

/// One of the three page sizes.
pub trait PageSize {
    /// The page size in bytes.
    spec fn spec_size() -> u64;

    /// The page size in bytes.
    fn size() -> (r: u64)
        ensures
            r == Self::spec_size(),
    ;

    /// A name of the size for display.
    fn display_str() -> &'static str;

    /// The size is 4 KiB, 2 MiB or 1 GiB.
    proof fn lemma_size()
        ensures
            Self::spec_size() == SIZE_4KB || Self::spec_size() == SIZE_2MB || Self::spec_size()
                == SIZE_1GB,
    ;
}

/// Page sizes other than 1 GiB, for which a level 2 index exists.
pub trait NotGiantPageSize: PageSize {

}

/// A 4 KiB page.
#[derive(Clone, Copy, PartialEq, Eq, Structural, Debug)]
pub struct Page4KB {}

impl PageSize for Page4KB {
    open spec fn spec_size() -> u64 {
        SIZE_4KB
    }

    fn size() -> (r: u64) {
        SIZE_4KB
    }

    fn display_str() -> &'static str {
        "page 4 kb"
    }

    proof fn lemma_size() {
    }
}

impl NotGiantPageSize for Page4KB {

}

/// A 2 MiB page.
#[derive(Clone, Copy, PartialEq, Eq, Structural, Debug)]
pub struct Page2MB {}

impl PageSize for Page2MB {
    open spec fn spec_size() -> u64 {
        SIZE_2MB
    }

    fn size() -> (r: u64) {
        SIZE_2MB
    }

    fn display_str() -> &'static str {
        "page 1 MB"
    }

    proof fn lemma_size() {
    }
}

impl NotGiantPageSize for Page2MB {

}

/// A 1 GiB page.
#[derive(Clone, Copy, PartialEq, Eq, Structural, Debug)]
pub struct Page1GB {}

impl PageSize for Page1GB {
    open spec fn spec_size() -> u64 {
        SIZE_1GB
    }

    fn size() -> (r: u64) {
        SIZE_1GB
    }

    fn display_str() -> &'static str {
        "page 1 GB"
    }

    proof fn lemma_size() {
    }
}

/// Every page size is a power of two.
pub proof fn lemma_size_align<S: PageSize>()
    ensures
        is_align(S::spec_size()),
        S::spec_size() == SIZE_4KB || S::spec_size() == SIZE_2MB || S::spec_size() == SIZE_1GB,
{
    S::lemma_size();
    let size = S::spec_size();
    assert(size > 0 && size & ((size - 1) as u64) == 0) by (bit_vector)
        requires
            size == 0x1000u64 || size == 0x20_0000u64 || size == 0x4000_0000u64,
    ;
}

/// A virtual memory page of size `S`.
pub struct Page<S: PageSize> {
    start_address: VirtAddr,
    size: PhantomData<S>,
}

impl<S: PageSize> Clone for Page<S> {
    fn clone(&self) -> (r: Self)
        ensures
            r == *self,
    {
        Page { start_address: self.start_address, size: PhantomData }
    }
}

impl<S: PageSize> Copy for Page<S> {

}

impl<S: PageSize> Page<S> {
    /// The start address of the page.
    pub closed spec fn start(self) -> u64 {
        self.start_address@
    }

    /// The page's start address is aligned to its size.
    pub closed spec fn wf(self) -> bool {
        self.start() & ((S::spec_size() - 1) as u64) == 0
    }

    /// The page that starts at `address`, or `Err(())` where `address` is not aligned to the
    /// page size.
    pub fn from_start_address(address: VirtAddr) -> (r: Result<Self, ()>)
        ensures
            r is Ok <==> address@ & ((S::spec_size() - 1) as u64) == 0,
            r matches Ok(p) ==> p.start() == address@ && p.wf(),
    {
        proof {
            lemma_size_align::<S>();
        }
        if !address.is_aligned(S::size()) {
            return Err(());
        }
        Ok(Page::include_address(address))
    }

    /// The page that contains `address`: its start is the address aligned down to the page
    /// size, canonical where the address is.
    pub fn include_address(address: VirtAddr) -> (r: Self)
        ensures
            is_align_down(address@, S::spec_size(), r.start()),
            r.wf(),
            is_canonical(address@) ==> is_canonical(r.start()),
    {
        proof {
            lemma_size_align::<S>();
        }
        let start = address.align_down(S::size());
        proof {
            if is_canonical(address@) {
                lemma_align_down_canonical(address@, S::spec_size(), start@);
            }
        }
        Page { start_address: start, size: PhantomData }
    }

    /// The start address of the page.
    pub fn start_address(&self) -> (r: VirtAddr)
        ensures
            r@ == self.start(),
    {
        self.start_address
    }

    /// The page size in bytes.
    pub fn size(&self) -> (r: u64)
        ensures
            r == S::spec_size(),
    {
        S::size()
    }

    /// The index into the level 4 table.
    pub fn p4_index(&self) -> (r: PageIndex)
        ensures
            r@ == (self.start() >> 39u64) & 0o777,
    {
        self.start_address.page4_index()
    }

    /// The index into the level 3 table.
    pub fn p3_index(&self) -> (r: PageIndex)
        ensures
            r@ == (self.start() >> 30u64) & 0o777,
    {
        self.start_address.page3_index()
    }

    /// The pages from `start` up to but excluding `end`.
    pub fn range_page(start: Self, end: Self) -> (r: PageRange<S>)
        ensures
            r.start == start,
            r.end == end,
    {
        PageRange { start, end }
    }

    /// The pages from `start` up to and including `end`.
    pub fn range_include(start: Self, end: Self) -> (r: PageRangeInclude<S>)
        ensures
            r.start == start,
            r.end == end,
    {
        PageRangeInclude { start, end }
    }

    /// The page `count` pages further on.
    pub fn add_pages(self, count: u64) -> (r: Self)
        requires
            self.wf(),
            self.start() + count * S::spec_size() <= u64::MAX,
            is_canonical((self.start() + count * S::spec_size()) as u64),
        ensures
            r.start() == (self.start() + count * S::spec_size()) as u64,
            r.wf(),
    {
        proof {
            lemma_size_align::<S>();
            lemma_multiple_aligned(self.start(), count, S::spec_size());
            assert(sign_extend((self.start() + count * S::spec_size()) as u64) == (self.start()
                + count * S::spec_size()) as u64) by {
                lemma_canonical_fixed((self.start() + count * S::spec_size()) as u64);
            }
        }
        let next = self.start_address.add_offset(count * S::size());
        Page::include_address(next)
    }

    /// The page `count` pages earlier.
    pub fn sub_pages(self, count: u64) -> (r: Self)
        requires
            self.wf(),
            self.start() >= count * S::spec_size(),
            is_canonical((self.start() - count * S::spec_size()) as u64),
        ensures
            r.start() == (self.start() - count * S::spec_size()) as u64,
            r.wf(),
    {
        proof {
            lemma_size_align::<S>();
            lemma_multiple_aligned_sub(self.start(), count, S::spec_size());
            lemma_canonical_fixed((self.start() - count * S::spec_size()) as u64);
            assert(count * S::spec_size() <= u64::MAX) by (nonlinear_arith)
                requires
                    self.start() >= count * S::spec_size(),
            ;
        }
        let prev = self.start_address.sub_offset(count * S::size());
        Page::include_address(prev)
    }

    /// The number of pages from `rhs` up to `self`.
    pub fn pages_between(self, rhs: Self) -> (r: u64)
        requires
            self.start() >= rhs.start(),
        ensures
            r == (self.start() - rhs.start()) / (S::spec_size() as int),
    {
        proof {
            lemma_size_align::<S>();
        }
        self.start_address.distance(rhs.start_address) / S::size()
    }
}

/// A canonical address rounded down to a multiple of a page size stays canonical.
proof fn lemma_align_down_canonical(addr: u64, size: u64, r: u64)
    requires
        is_canonical(addr),
        is_align_down(addr, size, r),
        size == SIZE_4KB || size == SIZE_2MB || size == SIZE_1GB,
    ensures
        is_canonical(r),
{
    let m = (size - 1) as u64;
    assert(is_canonical(r)) by (bit_vector)
        requires
            is_canonical(addr),
            m == 0xfffu64 || m == 0x1f_ffffu64 || m == 0x3fff_ffffu64,
            r & m == 0,
            r <= addr,
            addr - r <= m,
    ;
}

/// A canonical address is left as it is by sign extension.
pub proof fn lemma_canonical_fixed(addr: u64)
    ensures
        is_canonical(addr) ==> sign_extend(addr) == addr,
        is_canonical(addr) ==> (addr >> 47u64 == 0 || addr >> 47u64 == 1 || addr >> 47u64
            == 0x1ffff),
{
    assert(is_canonical(addr) ==> sign_extend(addr) == addr) by (bit_vector);
}

/// Adding a multiple of a page size to an aligned address keeps it aligned.
pub proof fn lemma_multiple_aligned(a: u64, count: u64, size: u64)
    requires
        a & ((size - 1) as u64) == 0,
        size == SIZE_4KB || size == SIZE_2MB || size == SIZE_1GB,
        a + count * size <= u64::MAX,
    ensures
        ((a + count * size) as u64) & ((size - 1) as u64) == 0,
        count * size <= u64::MAX,
{
    assert(count * size <= u64::MAX) by (nonlinear_arith)
        requires
            a + count * size <= u64::MAX,
    ;
    let m = (count * size) as u64;
    lemma_mul_aligned(count, size);
    let b = (a + m) as u64;
    let k = (size - 1) as u64;
    assert(b & k == 0) by (bit_vector)
        requires
            a & k == 0,
            m & k == 0,
            b == a + m,
            k == 0xfffu64 || k == 0x1f_ffffu64 || k == 0x3fff_ffffu64,
    ;
}

/// Subtracting a multiple of a page size from an aligned address keeps it aligned.
pub proof fn lemma_multiple_aligned_sub(a: u64, count: u64, size: u64)
    requires
        a & ((size - 1) as u64) == 0,
        size == SIZE_4KB || size == SIZE_2MB || size == SIZE_1GB,
        a >= count * size,
    ensures
        ((a - count * size) as u64) & ((size - 1) as u64) == 0,
{
    assert(count * size <= u64::MAX) by (nonlinear_arith)
        requires
            a >= count * size,
    ;
    let m = (count * size) as u64;
    lemma_mul_aligned(count, size);
    let b = (a - m) as u64;
    let k = (size - 1) as u64;
    assert(b & k == 0) by (bit_vector)
        requires
            a & k == 0,
            m & k == 0,
            b == a - m,
            k == 0xfffu64 || k == 0x1f_ffffu64 || k == 0x3fff_ffffu64,
    ;
}

/// A multiple of a page size has no bit set below the size.
proof fn lemma_mul_aligned(count: u64, size: u64)
    requires
        size == SIZE_4KB || size == SIZE_2MB || size == SIZE_1GB,
        count * size <= u64::MAX,
    ensures
        ((count * size) as u64) & ((size - 1) as u64) == 0,
{
    let m = (count * size) as u64;
    vstd::arithmetic::div_mod::lemma_mod_multiples_basic(count as int, size as int);
    assert(m % size == 0);
    let k = (size - 1) as u64;
    assert(m & k == 0) by (bit_vector)
        requires
            m % size == 0,
            k == size - 1,
            size == 0x1000u64 || size == 0x20_0000u64 || size == 0x4000_0000u64,
    ;
}

impl<S: NotGiantPageSize> Page<S> {
    /// The index into the level 2 table.
    pub fn p2_index(&self) -> (r: PageIndex)
        ensures
            r@ == (self.start() >> 21u64) & 0o777,
    {
        self.start_address.page2_index()
    }
}

impl Page<Page4KB> {
    /// The index into the level 1 table.
    pub fn p1_index(&self) -> (r: PageIndex)
        ensures
            r@ == (self.start() >> 12u64) & 0o777,
    {
        self.start_address.page1_index()
    }

    /// The 4 KiB page that the four table indices select.
    pub fn from_page_table_indices(
        p4_index: PageIndex,
        p3_index: PageIndex,
        p2_index: PageIndex,
        p1_index: PageIndex,
    ) -> (r: Self)
        ensures
            r.wf(),
            r.start() == sign_extend(
                (p4_index@ << 39u64) | (p3_index@ << 30u64) | (p2_index@ << 21u64) | (p1_index@
                    << 12u64),
            ),
    {
        let a = p4_index.as_u64();
        let b = p3_index.as_u64();
        let c = p2_index.as_u64();
        let d = p1_index.as_u64();
        let addr = (a << 39u64) | (b << 30u64) | (c << 21u64) | (d << 12u64);
        proof {
            lemma_indices_address(a, b, c, d);
        }
        let v = VirtAddr::new(addr);
        Page::include_address(v)
    }
}

impl Page<Page2MB> {
    /// The 2 MiB page that the three table indices select.
    pub fn from_page_table_indices_2mib(
        p4_index: PageIndex,
        p3_index: PageIndex,
        p2_index: PageIndex,
    ) -> (r: Self)
        ensures
            r.wf(),
            r.start() == sign_extend(
                (p4_index@ << 39u64) | (p3_index@ << 30u64) | (p2_index@ << 21u64),
            ),
    {
        let a = p4_index.as_u64();
        let b = p3_index.as_u64();
        let c = p2_index.as_u64();
        let addr = (a << 39u64) | (b << 30u64) | (c << 21u64);
        proof {
            lemma_indices_address(a, b, c, 0);
        }
        let v = VirtAddr::new(addr);
        Page::include_address(v)
    }
}

impl Page<Page1GB> {
    /// The 1 GiB page that the two table indices select.
    pub fn from_page_table_indices_1gib(p4_index: PageIndex, p3_index: PageIndex) -> (r: Self)
        ensures
            r.wf(),
            r.start() == sign_extend((p4_index@ << 39u64) | (p3_index@ << 30u64)),
    {
        let a = p4_index.as_u64();
        let b = p3_index.as_u64();
        let addr = (a << 39u64) | (b << 30u64);
        proof {
            lemma_indices_address(a, b, 0, 0);
        }
        let v = VirtAddr::new(addr);
        Page::include_address(v)
    }
}

/// The address that four table indices select is in the lower half of the address space
/// and aligned to the page size that the indices given leave room for.
pub proof fn lemma_indices_address(a: u64, b: u64, c: u64, d: u64)
    requires
        a < 512,
        b < 512,
        c < 512,
        d < 512,
    ensures
        ({
            let addr = (a << 39u64) | (b << 30u64) | (c << 21u64) | (d << 12u64);
            &&& addr >> 47u64 <= 1
            &&& sign_extend(addr) & 0xfff == 0
            &&& d == 0 ==> sign_extend(addr) & 0x1f_ffff == 0
            &&& c == 0 && d == 0 ==> sign_extend(addr) & 0x3fff_ffff == 0
            &&& d == 0 ==> addr == (a << 39u64) | (b << 30u64) | (c << 21u64)
            &&& c == 0 && d == 0 ==> addr == (a << 39u64) | (b << 30u64)
        }),
{
    assert({
        let addr = (a << 39u64) | (b << 30u64) | (c << 21u64) | (d << 12u64);
        &&& addr >> 47u64 <= 1
        &&& sign_extend(addr) & 0xfff == 0
        &&& d == 0 ==> sign_extend(addr) & 0x1f_ffff == 0
        &&& c == 0 && d == 0 ==> sign_extend(addr) & 0x3fff_ffff == 0
        &&& d == 0 ==> addr == (a << 39u64) | (b << 30u64) | (c << 21u64)
        &&& c == 0 && d == 0 ==> addr == (a << 39u64) | (b << 30u64)
    }) by (bit_vector)
        requires
            a < 512,
            b < 512,
            c < 512,
            d < 512,
    ;
}

/// The pages from `start` up to but excluding `end`.
pub struct PageRange<S: PageSize> {
    /// The first page of the range.
    pub start: Page<S>,
    /// The page after the last of the range.
    pub end: Page<S>,
}

impl<S: PageSize> PageRange<S> {
    /// Whether the range holds no page.
    pub fn is_empty(&self) -> (r: bool)
        ensures
            r == !(self.start.start() < self.end.start()),
    {
        !(self.start.start_address.as_u64() < self.end.start_address.as_u64())
    }

    /// The first page of the range, which is then dropped from it; `None` where the range
    /// is empty.
    pub fn next(&mut self) -> (r: Option<Page<S>>)
        requires
            old(self).start.wf(),
            old(self).end.wf(),
            old(self).start.start() < old(self).end.start() ==> is_canonical(
                (old(self).start.start() + S::spec_size()) as u64,
            ),
        ensures
            old(self).start.start() < old(self).end.start() ==> r == Some(old(self).start)
                && final(self).start.start() == old(self).start.start() + S::spec_size()
                && final(self).end == old(self).end && final(self).start.wf(),
            !(old(self).start.start() < old(self).end.start()) ==> r is None && *final(self)
                == *old(self),
    {
        if self.start.start_address.as_u64() < self.end.start_address.as_u64() {
            let page = self.start;
            proof {
                lemma_size_align::<S>();
                lemma_end_room::<S>(self.start.start(), self.end.start());
            }
            self.start = self.start.add_pages(1);
            Some(page)
        } else {
            None
        }
    }
}

/// The pages from `start` up to and including `end`.
pub struct PageRangeInclude<S: PageSize> {
    /// The first page of the range.
    pub start: Page<S>,
    /// The last page of the range.
    pub end: Page<S>,
}

impl<S: PageSize> PageRangeInclude<S> {
    /// Whether the range holds no page.
    pub fn is_empty(&self) -> (r: bool)
        ensures
            r == !(self.start.start() <= self.end.start()),
    {
        !(self.start.start_address.as_u64() <= self.end.start_address.as_u64())
    }

    /// The first page of the range, which is then dropped from it; `None` where the range
    /// is empty.
    pub fn next(&mut self) -> (r: Option<Page<S>>)
        requires
            old(self).start.wf(),
            old(self).start.start() <= old(self).end.start() ==> old(self).start.start()
                + S::spec_size() <= u64::MAX && is_canonical(
                (old(self).start.start() + S::spec_size()) as u64,
            ),
        ensures
            old(self).start.start() <= old(self).end.start() ==> r == Some(old(self).start)
                && final(self).start.start() == old(self).start.start() + S::spec_size()
                && final(self).end == old(self).end && final(self).start.wf(),
            !(old(self).start.start() <= old(self).end.start()) ==> r is None && *final(self)
                == *old(self),
    {
        if self.start.start_address.as_u64() <= self.end.start_address.as_u64() {
            let page = self.start;
            self.start = self.start.add_pages(1);
            Some(page)
        } else {
            None
        }
    }
}

/// Below an aligned end there is room for one more page after an aligned start.
proof fn lemma_end_room<S: PageSize>(start: u64, end: u64)
    requires
        start < end,
        start & ((S::spec_size() - 1) as u64) == 0,
        end & ((S::spec_size() - 1) as u64) == 0,
    ensures
        start + S::spec_size() <= end,
{
    S::lemma_size();
    let size = S::spec_size();
    let k = (size - 1) as u64;
    assert(start + size <= end) by (bit_vector)
        requires
            start < end,
            start & k == 0,
            end & k == 0,
            k == size - 1,
            size == 0x1000u64 || size == 0x20_0000u64 || size == 0x4000_0000u64,
    ;
}

} // verus!
