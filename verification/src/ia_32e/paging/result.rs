//! The errors of mapping, translating and walking page tables.
use crate::ia_32e::paging::allocator::UnusedFrame;
use crate::ia_32e::paging::frame::Frame;
use crate::ia_32e::paging::page::{Page1GB, Page2MB, Page4KB, PageSize};
use crate::ia_32e::PhysAddr;
use vstd::prelude::*;

verus! {

/// What a virtual address translates to.
pub enum TranslationResult {
    /// A 4 KiB frame and the offset in it.
    Frame4KB { frame: Frame<Page4KB>, offset: u64 },
    /// A 2 MiB frame and the offset in it.
    Frame2MB { frame: Frame<Page2MB>, offset: u64 },
    /// A 1 GiB frame and the offset in it.
    Frame1GB { frame: Frame<Page1GB>, offset: u64 },
    /// No page maps the address.
    PageNotMapped,
    /// The entry holds an address that is no frame's start.
    InvalidFrameAddress(PhysAddr),
}

/// A failure of the page table code.
#[derive(Clone, Copy, Debug, PartialEq, Eq, Structural)]
pub enum Error {
    CreatePageTableError,
    PageTableWalkError,
}

/// Why the table of the next level could not be made.
#[derive(Clone, Copy, Debug, PartialEq, Eq, Structural)]
pub enum CreatePageTableError {
    /// The entry maps a huge page.
    MappedToHugePage,
    /// No frame could be allocated for the table.
    FrameAllocateFailed,
}

/// Why a walk down the page tables stopped.
#[derive(Clone, Copy, Debug, PartialEq, Eq, Structural)]
pub enum PageTableWalkError {
    /// The entry is not present.
    NotMapped,
    /// The entry maps a huge page.
    MappedToHugePage,
}

/// Why a page could not be mapped.
pub enum MapToError<S: PageSize> {
    FrameAllocateFailed,
    ParentEntryHugePage,
    /// The page is mapped already; the frame that was to be mapped is given back.
    PageAlreadyMapped(UnusedFrame<S>),
}

/// Why the flags of a page could not be changed.
#[derive(Clone, Copy, Debug, PartialEq, Eq, Structural)]
pub enum FlagUpdateError {
    PageNotMapped,
    ParentEntryHugePage,
}

/// Why a page could not be translated.
#[derive(Clone, Copy, PartialEq, Eq, Structural)]
pub enum TranslateError {
    PageNotMapped,
    ParentEntryHugePage,
    InvalidFrameAddress(PhysAddr),
}

/// Why a page could not be unmapped.
#[derive(Clone, Copy, PartialEq, Eq, Structural)]
pub enum UnmapError {
    PageNotMapped,
    ParentEntryHugePage,
    InvalidFrameAddress(PhysAddr),
}

/// Why an entry gives no frame.
#[derive(Clone, Copy, Debug, PartialEq, Eq, Structural)]
pub enum FrameError {
    /// The entry maps a huge frame.
    HugeFrame,
    /// The entry is not present.
    FrameNotPresent,
}

/// The walk error of a frame error: a missing frame is an unmapped entry, a huge frame a
/// huge page.
pub open spec fn walk_error_of(e: FrameError) -> PageTableWalkError {
    match e {
        FrameError::FrameNotPresent => PageTableWalkError::NotMapped,
        FrameError::HugeFrame => PageTableWalkError::MappedToHugePage,
    }
}

impl From<FrameError> for PageTableWalkError {
    fn from(e: FrameError) -> (r: Self) {
        match e {
            FrameError::FrameNotPresent => PageTableWalkError::NotMapped,
            FrameError::HugeFrame => PageTableWalkError::MappedToHugePage,
        }
    }
}

impl vstd::std_specs::convert::FromSpecImpl<FrameError> for PageTableWalkError {
    open spec fn obeys_from_spec() -> bool {
        true
    }

    open spec fn from_spec(e: FrameError) -> PageTableWalkError {
        walk_error_of(e)
    }
}

/// The mapping error of a failure to make a table.
pub open spec fn map_error_of<S: PageSize>(err: CreatePageTableError) -> MapToError<S> {
    match err {
        CreatePageTableError::MappedToHugePage => MapToError::ParentEntryHugePage,
        CreatePageTableError::FrameAllocateFailed => MapToError::FrameAllocateFailed,
    }
}

impl<S: PageSize> From<CreatePageTableError> for MapToError<S> {
    fn from(err: CreatePageTableError) -> (r: Self) {
        match err {
            CreatePageTableError::MappedToHugePage => MapToError::ParentEntryHugePage,
            CreatePageTableError::FrameAllocateFailed => MapToError::FrameAllocateFailed,
        }
    }
}

impl<S: PageSize> vstd::std_specs::convert::FromSpecImpl<CreatePageTableError> for MapToError<S> {
    open spec fn obeys_from_spec() -> bool {
        true
    }

    open spec fn from_spec(err: CreatePageTableError) -> MapToError<S> {
        map_error_of(err)
    }
}

/// The unmapping error of a walk error.
pub open spec fn unmap_error_of(err: PageTableWalkError) -> UnmapError {
    match err {
        PageTableWalkError::MappedToHugePage => UnmapError::ParentEntryHugePage,
        PageTableWalkError::NotMapped => UnmapError::PageNotMapped,
    }
}

impl From<PageTableWalkError> for UnmapError {
    fn from(err: PageTableWalkError) -> (r: Self) {
        match err {
            PageTableWalkError::MappedToHugePage => UnmapError::ParentEntryHugePage,
            PageTableWalkError::NotMapped => UnmapError::PageNotMapped,
        }
    }
}

impl vstd::std_specs::convert::FromSpecImpl<PageTableWalkError> for UnmapError {
    open spec fn obeys_from_spec() -> bool {
        true
    }

    open spec fn from_spec(err: PageTableWalkError) -> UnmapError {
        unmap_error_of(err)
    }
}

/// The flag update error of a walk error.
pub open spec fn flag_error_of(err: PageTableWalkError) -> FlagUpdateError {
    match err {
        PageTableWalkError::MappedToHugePage => FlagUpdateError::ParentEntryHugePage,
        PageTableWalkError::NotMapped => FlagUpdateError::PageNotMapped,
    }
}

impl From<PageTableWalkError> for FlagUpdateError {
    fn from(err: PageTableWalkError) -> (r: Self) {
        match err {
            PageTableWalkError::MappedToHugePage => FlagUpdateError::ParentEntryHugePage,
            PageTableWalkError::NotMapped => FlagUpdateError::PageNotMapped,
        }
    }
}

impl vstd::std_specs::convert::FromSpecImpl<PageTableWalkError> for FlagUpdateError {
    open spec fn obeys_from_spec() -> bool {
        true
    }

    open spec fn from_spec(err: PageTableWalkError) -> FlagUpdateError {
        flag_error_of(err)
    }
}

/// The translation error of a walk error.
pub open spec fn translate_error_of(err: PageTableWalkError) -> TranslateError {
    match err {
        PageTableWalkError::MappedToHugePage => TranslateError::ParentEntryHugePage,
        PageTableWalkError::NotMapped => TranslateError::PageNotMapped,
    }
}

impl From<PageTableWalkError> for TranslateError {
    fn from(err: PageTableWalkError) -> (r: Self) {
        match err {
            PageTableWalkError::MappedToHugePage => TranslateError::ParentEntryHugePage,
            PageTableWalkError::NotMapped => TranslateError::PageNotMapped,
        }
    }
}

impl vstd::std_specs::convert::FromSpecImpl<PageTableWalkError> for TranslateError {
    open spec fn obeys_from_spec() -> bool {
        true
    }

    open spec fn from_spec(err: PageTableWalkError) -> TranslateError {
        translate_error_of(err)
    }
}

} // verus!
