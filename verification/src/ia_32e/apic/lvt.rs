//! Entries of the local vector table.
use crate::bits::LVTEntryFlags;
use vstd::prelude::*;

verus! {

/// An entry of the local vector table.
#[derive(Clone, Copy, Debug, PartialEq, Eq, Structural)]
pub struct LocalVectorTableEntry {
    /// The raw entry.
    pub entry: u32,
}

impl LocalVectorTableEntry {
    /// The flags of the entry.
    pub fn flags(&self) -> (r: LVTEntryFlags)
        ensures
            r.bits == self.entry & LVTEntryFlags::ALL,
    {
        LVTEntryFlags::from_bits_truncate(self.entry)
    }
}

} // verus!
