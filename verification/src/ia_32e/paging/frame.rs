//! Physical memory frames of the three page sizes.
use crate::ia_32e::addr::{is_align_down, is_phys, PhysAddr};
use crate::ia_32e::paging::page::{lemma_size_align, PageSize, SIZE_1GB, SIZE_2MB, SIZE_4KB};
use crate::ia_32e::call_convention::{decimal, decimal_text, digit_char, digit_str};
use crate::result::{Error, MemErrorKind, Repr};
use core::marker::PhantomData;
use vstd::prelude::*;
use vstd::string::StringExecFns;

verus! {

/// The character of the hexadecimal digit `d`, in upper case.
pub open spec fn upper_hex_digit(d: nat) -> char {
    if d < 10 {
        digit_char(d)
    } else if d == 10 {
        'A'
    } else if d == 11 {
        'B'
    } else if d == 12 {
        'C'
    } else if d == 13 {
        'D'
    } else if d == 14 {
        'E'
    } else {
        'F'
    }
}

/// The upper-case hexadecimal digits of `n`, with no leading zeros, as `{:X}` writes them.
pub open spec fn upper_hex_text(n: nat) -> Seq<char>
    decreases n,
{
    if n < 16 {
        seq![upper_hex_digit(n)]
    } else {
        upper_hex_text(n / 16) + seq![upper_hex_digit(n % 16)]
    }
}

/// The message of the error for an address `addr` that is not aligned to `size`:
/// the address in hexadecimal with a `0x` prefix, and the size in decimal.
pub open spec fn not_aligned_text(addr: u64, size: u64) -> Seq<char> {
    "the address `0x"@ + upper_hex_text(addr as nat) + "` is not align by "@ + decimal_text(size as nat)
}

/// The text of the hexadecimal digit `d`, in upper case.
fn hex_digit_str(d: u64) -> (r: &'static str)
    requires
        d < 16,
    ensures
        r@ == seq![upper_hex_digit(d as nat)],
{
    if d < 10 {
        digit_str(d)
    } else if d == 10 {
        proof { reveal_strlit("A"); }
        "A"
    } else if d == 11 {
        proof { reveal_strlit("B"); }
        "B"
    } else if d == 12 {
        proof { reveal_strlit("C"); }
        "C"
    } else if d == 13 {
        proof { reveal_strlit("D"); }
        "D"
    } else if d == 14 {
        proof { reveal_strlit("E"); }
        "E"
    } else {
        proof { reveal_strlit("F"); }
        "F"
    }
}

/// The upper-case hexadecimal digits of `n`, as `{:X}` writes them.
fn upper_hex(n: u64) -> (r: String)
    ensures
        r@ == upper_hex_text(n as nat),
    decreases n,
{
    if n < 16 {
        String::from_str(hex_digit_str(n))
    } else {
        let mut s = upper_hex(n / 16);
        s.append(hex_digit_str(n % 16));
        s
    }
}

/// The message for an address that is not aligned to a frame size, as
/// `format!("the address `{:#X}` is not align by {}", addr, size)` writes it.
fn not_aligned_message(addr: u64, size: u64) -> (r: String)
    ensures
        r@ == not_aligned_text(addr, size),
{
    let mut s = String::from_str("the address `0x");
    s.append(upper_hex(addr).as_str());
    s.append("` is not align by ");
    s.append(decimal(size).as_str());
    s
}

/// A physical memory frame of size `S`.
pub struct Frame<S: PageSize> {
    start_addr: PhysAddr,
    size: PhantomData<S>,
}

impl<S: PageSize> Clone for Frame<S> {
    fn clone(&self) -> (r: Self)
        ensures
            r == *self,
    {
        Frame { start_addr: self.start_addr, size: PhantomData }
    }
}

impl<S: PageSize> Copy for Frame<S> {

}

impl<S: PageSize> Frame<S> {
    /// The start address of the frame.
    pub closed spec fn start(self) -> u64 {
        self.start_addr@
    }

    /// The frame's start address is aligned to its size.
    pub closed spec fn wf(self) -> bool {
        self.start() & ((S::spec_size() - 1) as u64) == 0
    }

    /// The frame that starts at `addr`; a `NotAligned` memory error where `addr` is not
    /// aligned to the frame size.
    pub fn from_start_addr(addr: PhysAddr) -> (r: Result<Self, Error>)
        ensures
            r is Ok <==> addr@ & ((S::spec_size() - 1) as u64) == 0,
            r matches Ok(f) ==> f.start() == addr@ && f.wf(),
            r matches Err(e) ==> e.repr() matches Repr::Memory(m) && m.kind()
                == MemErrorKind::NotAligned && m.msg() == not_aligned_text(addr@, S::spec_size()),
    {
        proof {
            lemma_size_align::<S>();
        }
        if !addr.is_aligned(S::size()) {
            let msg = not_aligned_message(addr.as_u64(), S::size());
            return Err(Error::new_memory(MemErrorKind::NotAligned, msg));
        }
        Ok(Self::include_address(addr))
    }

    /// The frame that contains `addr`.
    pub fn include_address(addr: PhysAddr) -> (r: Self)
        ensures
            is_align_down(addr@, S::spec_size(), r.start()),
            r.wf(),
    {
        proof {
            lemma_size_align::<S>();
        }
        Frame { start_addr: addr.align_down(S::size()), size: PhantomData }
    }

    /// The start address of the frame.
    pub fn start_address(&self) -> (r: PhysAddr)
        ensures
            r@ == self.start(),
    {
        self.start_addr
    }

    /// The frame size in bytes.
    pub fn size(&self) -> (r: u64)
        ensures
            r == S::spec_size(),
    {
        S::size()
    }

    /// The frames from `start` up to and including `end`.
    pub fn frame_range_include(start: Self, end: Self) -> (r: FrameRangeInclude<S>)
        ensures
            r.start == start,
            r.end == end,
    {
        FrameRangeInclude { start, end }
    }

    /// The frames from `start` up to but excluding `end`.
    pub fn frame_range(start: Self, end: Self) -> (r: FrameRange<S>)
        ensures
            r.start == start,
            r.end == end,
    {
        FrameRange { start, end }
    }

    /// The frame `count` frames further on.
    pub fn add_frames(self, count: u64) -> (r: Self)
        requires
            self.wf(),
            self.start() + count * S::spec_size() <= u64::MAX,
            is_phys((self.start() + count * S::spec_size()) as u64),
        ensures
            r.start() == self.start() + count * S::spec_size(),
            r.wf(),
    {
        proof {
            lemma_size_align::<S>();
            lemma_frame_step(self.start(), count, S::spec_size());
        }
        let next = self.start_addr.add_offset(count * S::size());
        Frame::include_address(next)
    }

    /// The frame `count` frames earlier.
    pub fn sub_frames(self, count: u64) -> (r: Self)
        requires
            self.wf(),
            self.start() >= count * S::spec_size(),
            is_phys((self.start() - count * S::spec_size()) as u64),
        ensures
            r.start() == self.start() - count * S::spec_size(),
            r.wf(),
    {
        proof {
            lemma_size_align::<S>();
            lemma_frame_step_back(self.start(), count, S::spec_size());
        }
        let prev = self.start_addr.sub_offset(count * S::size());
        Frame::include_address(prev)
    }

    /// The number of frames from `rhs` up to `self`.
    pub fn frames_between(self, rhs: Self) -> (r: u64)
        requires
            self.start() >= rhs.start(),
        ensures
            r == (self.start() - rhs.start()) / (S::spec_size() as int),
    {
        proof {
            lemma_size_align::<S>();
        }
        self.start_addr.distance(rhs.start_addr) / S::size()
    }
}

/// One step of `count` frames from an aligned address lands on an aligned address.
proof fn lemma_frame_step(a: u64, count: u64, size: u64)
    requires
        a & ((size - 1) as u64) == 0,
        size == SIZE_4KB || size == SIZE_2MB || size == SIZE_1GB,
        a + count * size <= u64::MAX,
    ensures
        count * size <= u64::MAX,
        ((a + count * size) as u64) & ((size - 1) as u64) == 0,
{
    crate::ia_32e::paging::page::lemma_multiple_aligned(a, count, size);
}

/// One step of `count` frames back from an aligned address lands on an aligned address.
proof fn lemma_frame_step_back(a: u64, count: u64, size: u64)
    requires
        a & ((size - 1) as u64) == 0,
        size == SIZE_4KB || size == SIZE_2MB || size == SIZE_1GB,
        a >= count * size,
    ensures
        count * size <= u64::MAX,
        ((a - count * size) as u64) & ((size - 1) as u64) == 0,
{
    assert(count * size <= u64::MAX) by (nonlinear_arith)
        requires
            a >= count * size,
    ;
    crate::ia_32e::paging::page::lemma_multiple_aligned_sub(a, count, size);
}

/// The frames from `start` up to and including `end`.
pub struct FrameRangeInclude<S: PageSize> {
    /// The first frame.
    pub start: Frame<S>,
    /// The last frame.
    pub end: Frame<S>,
}

impl<S: PageSize> FrameRangeInclude<S> {
    /// Whether the range holds no frame.
    pub fn is_empty(&self) -> (r: bool)
        ensures
            r == !(self.start.start() <= self.end.start()),
    {
        !(self.start.start_addr.as_u64() <= self.end.start_addr.as_u64())
    }

    /// The first frame of the range, which is then dropped from it; `None` where the range
    /// is empty.
    pub fn next(&mut self) -> (r: Option<Frame<S>>)
        requires
            old(self).start.wf(),
            old(self).start.start() <= old(self).end.start() ==> old(self).start.start()
                + S::spec_size() <= u64::MAX && is_phys(
                (old(self).start.start() + S::spec_size()) as u64,
            ),
        ensures
            old(self).start.start() <= old(self).end.start() ==> r == Some(old(self).start)
                && final(self).start.start() == old(self).start.start() + S::spec_size()
                && final(self).end == old(self).end && final(self).start.wf(),
            !(old(self).start.start() <= old(self).end.start()) ==> r is None && *final(self)
                == *old(self),
    {
        if self.start.start_addr.as_u64() <= self.end.start_addr.as_u64() {
            let frame = self.start;
            self.start = self.start.add_frames(1);
            Some(frame)
        } else {
            None
        }
    }
}

/// The frames from `start` up to but excluding `end`.
pub struct FrameRange<S: PageSize> {
    /// The first frame.
    pub start: Frame<S>,
    /// The frame after the last.
    pub end: Frame<S>,
}

impl<S: PageSize> FrameRange<S> {
    /// Whether the range holds no frame.
    pub fn is_empty(&self) -> (r: bool)
        ensures
            r == !(self.start.start() < self.end.start()),
    {
        !(self.start.start_addr.as_u64() < self.end.start_addr.as_u64())
    }

    /// The first frame of the range, which is then dropped from it; `None` where the range
    /// is empty.
    pub fn next(&mut self) -> (r: Option<Frame<S>>)
        requires
            old(self).start.wf(),
            old(self).start.start() < old(self).end.start() ==> old(self).start.start()
                + S::spec_size() <= u64::MAX && is_phys(
                (old(self).start.start() + S::spec_size()) as u64,
            ),
        ensures
            old(self).start.start() < old(self).end.start() ==> r == Some(old(self).start)
                && final(self).start.start() == old(self).start.start() + S::spec_size()
                && final(self).end == old(self).end && final(self).start.wf(),
            !(old(self).start.start() < old(self).end.start()) ==> r is None && *final(self)
                == *old(self),
    {
        if self.start.start_addr.as_u64() < self.end.start_addr.as_u64() {
            let frame = self.start;
            self.start = self.start.add_frames(1);
            Some(frame)
        } else {
            None
        }
    }
}

} // verus!
