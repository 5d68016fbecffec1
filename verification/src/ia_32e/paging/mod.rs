//! Paging: pages, frames, page tables and the memory map.
pub mod page_ops;

pub use page_ops::{PageIndex, PageOffset};
pub mod page;

pub use page::{NotGiantPageSize, Page, Page1GB, Page2MB, Page4KB, PageRange, PageRangeInclude, PageSize};
pub mod frame;

pub use frame::{Frame, FrameRange, FrameRangeInclude};
pub mod page_table;

pub use page_table::{PageTable, PageTableEntry, ENTRY_COUNT};
pub mod area;

pub use area::{MemoryArea, MemoryAreaIter, MemorySpace, MemoryType};
pub mod allocator;

pub use allocator::{FrameAllocator, UnusedFrame};
pub mod result;
pub mod frame_allocator;
pub mod setup;

pub use setup::PagingArgs;
pub mod mapper;
pub mod bump;
