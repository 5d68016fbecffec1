//! Physical frame allocators and the frames they hand out.
use crate::ia_32e::paging::frame::Frame;
use crate::ia_32e::paging::page::{Page4KB, PageSize};
use vstd::prelude::*;

verus! {

/// An allocator of physical frames of size `S`, implemented by its users.
pub trait FrameAllocator<S: PageSize> {
    /// A free frame, or `None` where there is none left.
    fn allocate(&mut self) -> Option<UnusedFrame<S>>;

    /// Gives `frame` back.
    fn dealloc(&mut self, frame: UnusedFrame<S>);
}

/// A frame that nothing uses.
pub struct UnusedFrame<S: PageSize>(Frame<S>);

impl<S: PageSize> UnusedFrame<S> {
    /// The frame that `frame` holds.
    pub closed spec fn spec_frame(&self) -> Frame<S> {
        self.0
    }

    /// Marks `frame` as unused; the caller vouches that nothing uses it.
    pub fn new(frame: Frame<S>) -> (r: Self)
        ensures
            r.spec_frame() == frame,
    {
        UnusedFrame(frame)
    }

    /// The frame.
    pub fn frame(&self) -> (r: Frame<S>)
        ensures
            r == self.spec_frame(),
    {
        self.0
    }
}

/// A 4 KiB frame that nothing uses.
pub type UnusedFrame4KB = UnusedFrame<Page4KB>;

} // verus!
