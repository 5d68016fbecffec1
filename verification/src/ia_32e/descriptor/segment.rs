//! Segment selectors.
use crate::ia_32e::{level_of, level_value, PrivilegedLevel};
use vstd::prelude::*;

verus! {

/// A 16-bit segment selector: the descriptor index in bits 3 to 15, the table indicator in
/// bit 2 and the requested privilege level in bits 0 and 1.
#[derive(Clone, Copy, Debug, PartialEq, Eq, Structural)]
pub struct SegmentSelector(pub u16);

impl SegmentSelector {
    /// The selector of descriptor `index` with the requested privilege level `rpl`; the
    /// bits of `index` above bit 12 are shifted out.
    pub fn new(index: u16, rpl: PrivilegedLevel) -> (r: SegmentSelector)
        ensures
            r.0 == (index << 3u16) | level_value(rpl),
    {
        SegmentSelector((index << 3u16) | rpl.as_u16())
    }

    /// The descriptor index: bits 3 to 15.
    pub fn index(&self) -> (r: u16)
        ensures
            r == self.0 >> 3u16,
    {
        self.0 >> 3u16
    }

    /// The requested privilege level: bits 0 and 1.
    pub fn rpl(&self) -> (r: PrivilegedLevel)
        ensures
            r == level_of(self.0 & 3),
    {
        let raw = self.0;
        let level = raw & 3;
        assert(level <= 3) by (bit_vector)
            requires
                level == raw & 3,
        ;
        PrivilegedLevel::from_u16(level)
    }
}

/// A selector made of an index below 8192 and a privilege level gives both back.
pub proof fn law_selector_fields(index: u16, rpl: PrivilegedLevel)
    requires
        index < 8192,
    ensures
        ((index << 3u16) | level_value(rpl)) >> 3u16 == index,
        level_of(((index << 3u16) | level_value(rpl)) & 3) == rpl,
{
    let l = level_value(rpl);
    assert(((index << 3u16) | l) >> 3u16 == index && ((index << 3u16) | l) & 3 == l)
        by (bit_vector)
        requires
            index < 8192,
            l <= 3,
    ;
}

} // verus!
