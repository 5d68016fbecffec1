//! Indices into page tables and offsets into pages.
use vstd::prelude::*;

verus! {

/// A 9-bit index into a page table of 512 entries.
#[derive(Clone, Copy, PartialEq, Eq, Structural, Debug)]
pub struct PageIndex(u16);

impl View for PageIndex {
    type V = u64;

    closed spec fn view(&self) -> u64 {
        self.0 as u64
    }
}

impl PageIndex {
    #[verifier::type_invariant]
    spec fn inv(self) -> bool {
        self.0 < 512
    }

    /// The index `index`, which must be below 512.
    pub fn new(index: u16) -> (r: Self)
        requires
            index < 512,
        ensures
            r@ == index,
    {
        PageIndex(index)
    }

    /// The index as a `u16`.
    pub fn as_u16(self) -> (r: u16)
        ensures
            r == self@,
            r < 512,
    {
        proof {
            use_type_invariant(self);
        }
        self.0
    }

    /// The index as a `u64`.
    pub fn as_u64(self) -> (r: u64)
        ensures
            r == self@,
            r < 512,
    {
        proof {
            use_type_invariant(self);
        }
        self.0 as u64
    }

    /// The index as a `usize`.
    pub fn as_usize(self) -> (r: usize)
        ensures
            r == self@,
            r < 512,
    {
        proof {
            use_type_invariant(self);
        }
        self.0 as usize
    }
}

/// A 12-bit offset into a 4 KiB page.
#[derive(Clone, Copy, PartialEq, Eq, Structural, Debug)]
pub struct PageOffset(u16);

impl View for PageOffset {
    type V = u64;

    closed spec fn view(&self) -> u64 {
        self.0 as u64
    }
}

impl PageOffset {
    #[verifier::type_invariant]
    spec fn inv(self) -> bool {
        self.0 < 4096
    }

    /// The offset `offset`, which must be below 4096.
    pub fn new(offset: u16) -> (r: Self)
        requires
            offset < 4096,
        ensures
            r@ == offset,
    {
        PageOffset(offset)
    }

    /// The offset as a `u64`.
    pub fn as_u64(self) -> (r: u64)
        ensures
            r == self@,
            r < 4096,
    {
        proof {
            use_type_invariant(self);
        }
        self.0 as u64
    }
}

} // verus!
