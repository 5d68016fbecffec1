//! Mapping pages to frames: through a recursive entry of the level 4 table, or through a
//! mapping of physical memory.
pub mod laws;
pub mod map_pt;
pub mod page;
pub mod store;

pub use map_pt::PhysicalToVirtual;
pub use page::{p1_page, p2_page, p3_page, recursive_index_of, RecursivePageTable, TablePages};
pub use store::TableStore;
use crate::bits::PageTableFlags;
use crate::ia_32e::addr::VirtAddr;
use crate::ia_32e::paging::allocator::{FrameAllocator, UnusedFrame};
use crate::ia_32e::paging::frame::Frame;
use crate::ia_32e::paging::page::{Page, Page4KB, PageSize};
use crate::ia_32e::paging::result::{
    FlagUpdateError, MapToError, TranslateError, TranslationResult, UnmapError,
};
use vstd::prelude::*;

verus! {

/// A page whose mapping has changed; its stale translation must leave the TLB before the
/// change is seen.
pub struct MapperFlush<S: PageSize>(Page<S>);

impl<S: PageSize> MapperFlush<S> {
    /// The page whose mapping changed.
    pub closed spec fn spec_page(&self) -> Page<S> {
        self.0
    }

    /// The flush of `page`.
    pub fn new(page: Page<S>) -> (r: Self)
        ensures
            r.spec_page() == page,
    {
        MapperFlush(page)
    }

    /// The page whose translation must be flushed.
    pub fn page(&self) -> (r: Page<S>)
        ensures
            r == self.spec_page(),
    {
        self.0
    }
}

/// Mapping pages of size `S` to frames.
pub trait Mapper<S: PageSize> {
    /// Whether the entries that mapping `page` walks through are each unused or present.
    spec fn map_ready(&self, page: Page<S>) -> bool;

    /// Maps `page` to `frame` with `flags`, making the tables on the way from frames of
    /// `allocator` where they are missing.
    fn map_to<A: FrameAllocator<Page4KB>>(
        &mut self,
        page: Page<S>,
        frame: UnusedFrame<S>,
        flags: PageTableFlags,
        allocator: &mut A,
    ) -> (r: Result<MapperFlush<S>, MapToError<S>>)
        requires
            old(self).map_ready(page),
    ;

    /// Removes the mapping of `page` and gives back the frame it mapped.
    fn unmap(&mut self, page: Page<S>) -> (r: Result<(Frame<S>, MapperFlush<S>), UnmapError>);

    /// Replaces the flags of the mapping of `page`.
    fn update_flags(&mut self, page: Page<S>, flags: PageTableFlags) -> (r: Result<
        MapperFlush<S>,
        FlagUpdateError,
    >);

    /// The frame that `page` is mapped to.
    fn translate_page(&mut self, page: Page<S>) -> (r: Result<Frame<S>, TranslateError>);
}

/// Translating addresses, whatever the size of the page that maps them.
pub trait MapAllSize {
    /// Whether translating `addr` meets no level 4 entry that maps a huge page.
    spec fn translatable(&self, addr: VirtAddr) -> bool;

    /// What `addr` translates to.
    fn translate(&self, addr: VirtAddr) -> (r: TranslationResult)
        requires
            self.translatable(addr),
    ;
}

} // verus!
