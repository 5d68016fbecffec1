//! A frame allocator that keeps the runs of frames given back to it, merging runs that touch.
use crate::ia_32e::paging::allocator::{FrameAllocator, UnusedFrame};
use crate::ia_32e::paging::area::MemoryType;
use crate::ia_32e::paging::frame::Frame;
use crate::ia_32e::paging::page::Page4KB;
use vstd::prelude::*;

verus! {

/// Bytes in a frame.
pub const FRAME_SIZE: usize = 4096;

/// Something that keeps a memory map.
pub trait MemoryAreaManagement {
    /// Adds the area from `start_addr` to `end_addr` of kind `ty` and length `len`.
    fn add_area(&mut self, start_addr: u64, end_addr: u64, ty: MemoryType, len: u64);
}

/// The end of a run of `e.1` frames from address `e.0`.
pub open spec fn run_end(e: (usize, usize)) -> int {
    e.0 + e.1 * 4096
}

/// Whether the address `x` lies in the run `e`.
pub open spec fn run_contains(e: (usize, usize), x: int) -> bool {
    e.0 <= x < run_end(e)
}

/// Whether the run `e` holds a frame and ends within the address space.
pub open spec fn run_ok(e: (usize, usize)) -> bool {
    e.1 > 0 && run_end(e) <= usize::MAX
}

/// Whether the run `e` ends where `[a, end)` starts or starts where it ends.
pub open spec fn touches(e: (usize, usize), a: int, end: int) -> bool {
    run_end(e) == a || e.0 == end
}

/// Whether the run `e` lies within `[a, end)`.
pub open spec fn inside(e: (usize, usize), a: int, end: int) -> bool {
    a <= e.0 && run_end(e) <= end
}

/// Whether the run `e` shares no address with `[a, end)`.
pub open spec fn apart(e: (usize, usize), a: int, end: int) -> bool {
    run_end(e) <= a || end <= e.0
}

/// Whether two runs have a gap between them: they neither share an address nor touch.
pub open spec fn separated(e: (usize, usize), f: (usize, usize)) -> bool {
    run_end(e) < f.0 || run_end(f) < e.0
}

/// Whether the runs of `s` are well formed: each holds a frame and fits in the address space,
/// and any two have a gap between them.
pub open spec fn runs_wf(s: Seq<(usize, usize)>) -> bool {
    &&& forall|i: int| 0 <= i < s.len() ==> run_ok(#[trigger] s[i])
    &&& forall|i: int, j: int|
        0 <= i < s.len() && 0 <= j < s.len() && i != j ==> separated(#[trigger] s[i], #[trigger] s[j])
}

/// Whether some run of `s` holds the address `x`.
pub open spec fn covered(s: Seq<(usize, usize)>, x: int) -> bool {
    exists|i: int| 0 <= i < s.len() && run_contains(#[trigger] s[i], x)
}

/// The run `e` grown by the `c` frames from `a` that touch it.
pub open spec fn grown(e: (usize, usize), a: usize, c: usize) -> (usize, usize) {
    if a + c * 4096 == e.0 {
        (a, (e.1 + c) as usize)
    } else {
        (e.0, (e.1 + c) as usize)
    }
}

/// The number of runs of `s` that share no address with `[a, end)`.
pub open spec fn count_apart(s: Seq<(usize, usize)>, a: int, end: int) -> nat
    decreases s.len(),
{
    if s.len() == 0 {
        0
    } else {
        count_apart(s.drop_last(), a, end) + if apart(s.last(), a, end) {
            1nat
        } else {
            0nat
        }
    }
}

/// Where each run of `t` apart from `[a1, e1)` has its counterpart in `s` apart from
/// `[a, e)`, and run `i` is apart in `s` and not in `t`, `t` has fewer runs apart.
proof fn lemma_count_apart_less(
    s: Seq<(usize, usize)>,
    t: Seq<(usize, usize)>,
    a: int,
    e: int,
    a1: int,
    e1: int,
    i: int,
)
    requires
        s.len() == t.len(),
        0 <= i < s.len(),
        forall|m: int| 0 <= m < s.len() && apart(t[m], a1, e1) ==> apart(s[m], a, e),
        apart(s[i], a, e),
        !apart(t[i], a1, e1),
    ensures
        count_apart(t, a1, e1) < count_apart(s, a, e),
    decreases s.len(),
{
    lemma_count_apart_le(s.drop_last(), t.drop_last(), a, e, a1, e1);
    if i < s.len() - 1 {
        lemma_count_apart_less(s.drop_last(), t.drop_last(), a, e, a1, e1, i);
    }
}

/// Where each run of `t` apart from `[a1, e1)` has its counterpart in `s` apart from
/// `[a, e)`, `t` has no more runs apart.
proof fn lemma_count_apart_le(
    s: Seq<(usize, usize)>,
    t: Seq<(usize, usize)>,
    a: int,
    e: int,
    a1: int,
    e1: int,
)
    requires
        s.len() == t.len(),
        forall|m: int| 0 <= m < s.len() && apart(t[m], a1, e1) ==> apart(s[m], a, e),
    ensures
        count_apart(t, a1, e1) <= count_apart(s, a, e),
    decreases s.len(),
{
    if s.len() > 0 {
        lemma_count_apart_le(s.drop_last(), t.drop_last(), a, e, a1, e1);
    }
}

/// Growing run `i` of `s` by the frames `[a, a + c * 4096)` that touch it adds exactly those
/// addresses to the ones `s` covers.
proof fn lemma_covered_grown(s: Seq<(usize, usize)>, i: int, a: usize, c: usize)
    requires
        0 <= i < s.len(),
        touches(s[i], a as int, a + c * 4096),
        run_end(s[i]) <= usize::MAX,
        a + c * 4096 <= usize::MAX,
    ensures
        forall|x: int|
            covered(s.update(i, grown(s[i], a, c)), x) <==> (covered(s, x) || (a <= x < a + c
                * 4096)),
{
    let t = s.update(i, grown(s[i], a, c));
    assert forall|x: int| covered(t, x) <==> (covered(s, x) || (a <= x < a + c * 4096)) by {
        if covered(t, x) {
            let m = choose|m: int| 0 <= m < t.len() && run_contains(#[trigger] t[m], x);
            if m != i {
                assert(run_contains(s[m], x));
            }
        }
        if covered(s, x) {
            let m = choose|m: int| 0 <= m < s.len() && run_contains(#[trigger] s[m], x);
            if m != i {
                assert(run_contains(t[m], x));
            } else {
                assert(run_contains(t[i], x));
            }
        }
        if a <= x < a + c * 4096 {
            assert(run_contains(t[i], x));
        }
    }
}

/// Dropping run `i` of `s`, which lies within run `j`, leaves the covered addresses as they
/// were.
proof fn lemma_covered_remove_inside(s: Seq<(usize, usize)>, i: int, j: int)
    requires
        0 <= i < s.len(),
        0 <= j < s.len(),
        i != j,
        inside(s[i], s[j].0 as int, run_end(s[j])),
    ensures
        forall|x: int| covered(s.remove(i), x) <==> covered(s, x),
{
    let t = s.remove(i);
    assert forall|x: int| covered(t, x) <==> covered(s, x) by {
        if covered(t, x) {
            let m = choose|m: int| 0 <= m < t.len() && run_contains(#[trigger] t[m], x);
            if m < i {
                assert(run_contains(s[m], x));
            } else {
                assert(run_contains(s[m + 1], x));
            }
        }
        if covered(s, x) {
            let m = choose|m: int| 0 <= m < s.len() && run_contains(#[trigger] s[m], x);
            let n = if m == i { j } else { m };
            assert(run_contains(s[n], x));
            if n < i {
                assert(t[n] == s[n]);
                assert(run_contains(t[n], x));
            } else {
                assert(t[n - 1] == s[n]);
                assert(run_contains(t[n - 1], x));
            }
        }
    }
}

/// The number of frames in the runs of `s`.
pub open spec fn total_frames(s: Seq<(usize, usize)>) -> int
    decreases s.len(),
{
    if s.len() == 0 {
        0
    } else {
        total_frames(s.drop_last()) + s.last().1
    }
}

/// A frame allocator that hands out frames from `inner` and keeps the runs of frames given
/// back by `dealloc_size`, merging each with a run it touches.
pub struct AdaptationAllocator<F: FrameAllocator<Page4KB> + MemoryAreaManagement> {
    inner: F,
    free: Vec<(usize, usize)>,
}

impl<F: FrameAllocator<Page4KB> + MemoryAreaManagement> AdaptationAllocator<F> {
    /// The runs of frames given back: start address and number of frames.
    pub closed spec fn runs(&self) -> Seq<(usize, usize)> {
        self.free@
    }

    /// The allocator over `inner` with no run given back yet.
    pub fn new(inner: F) -> (r: Self)
        ensures
            r.runs() == Seq::<(usize, usize)>::empty(),
    {
        Self { inner, free: Vec::new() }
    }

    /// Merges the `count` frames from `address` into the first run that they touch, and then
    /// that grown run into the first run it touches in turn, dropping it where it was
    /// merged. `false`, with nothing changed, where no run touches them.
    #[verifier::spinoff_prover]
    fn merge(&mut self, address: usize, count: usize) -> (b: bool)
        requires
            forall|i: int| 0 <= i < old(self).free@.len() ==> run_ok(#[trigger] old(self).free@[i]),
            count > 0,
            address + count * 4096 <= usize::MAX,
            forall|i: int|
                0 <= i < old(self).free@.len() ==> inside(
                    #[trigger] old(self).free@[i],
                    address as int,
                    address + count * 4096,
                ) || apart(old(self).free@[i], address as int, address + count * 4096),
            forall|i: int, j: int|
                0 <= i < old(self).free@.len() && 0 <= j < old(self).free@.len() && i != j
                    && apart(#[trigger] old(self).free@[i], address as int, address + count * 4096)
                    && apart(#[trigger] old(self).free@[j], address as int, address + count * 4096)
                    ==> separated(old(self).free@[i], old(self).free@[j]),
        ensures
            b == exists|i: int|
                0 <= i < old(self).free@.len() && touches(
                    #[trigger] old(self).free@[i],
                    address as int,
                    address + count * 4096,
                ),
            !b ==> final(self).free@ == old(self).free@,
            b ==> forall|x: int|
                covered(final(self).free@, x) <==> (covered(old(self).free@, x) || (address <= x
                    < address + count * 4096)),
            b && (forall|i: int|
                0 <= i < old(self).free@.len() ==> run_end(#[trigger] old(self).free@[i])
                    != address) ==> exists|j: int|
                0 <= j < old(self).free@.len() && touches(
                    #[trigger] old(self).free@[j],
                    address as int,
                    address + count * 4096,
                ) && final(self).free@ == old(self).free@.update(
                    j,
                    grown(old(self).free@[j], address, count),
                ),
            b && (forall|i: int|
                0 <= i < old(self).free@.len() ==> (#[trigger] old(self).free@[i]).0 != address
                    + count * 4096) ==> exists|j: int|
                0 <= j < old(self).free@.len() && touches(
                    #[trigger] old(self).free@[j],
                    address as int,
                    address + count * 4096,
                ) && final(self).free@ == old(self).free@.update(
                    j,
                    grown(old(self).free@[j], address, count),
                ),
            b && runs_wf(old(self).free@) && (forall|i: int|
                0 <= i < old(self).free@.len() ==> apart(
                    #[trigger] old(self).free@[i],
                    address as int,
                    address + count * 4096,
                )) ==> runs_wf(final(self).free@),
        decreases count_apart(old(self).free@, address as int, address + count * 4096),
    {
        let ghost s = self.free@;
        let ghost end = address + count * 4096;
        let mut i: usize = 0;
        while i < self.free.len()
            invariant
                self.free@ == s,
                s == old(self).free@,
                end == address + count * 4096,
                i <= s.len(),
                forall|m: int| 0 <= m < i ==> !touches(#[trigger] s[m], address as int, end),
                count > 0,
                end <= usize::MAX,
                forall|m: int| 0 <= m < s.len() ==> run_ok(#[trigger] s[m]),
                forall|m: int|
                    0 <= m < s.len() ==> inside(#[trigger] s[m], address as int, end) || apart(
                        s[m],
                        address as int,
                        end,
                    ),
                forall|m: int, n: int|
                    0 <= m < s.len() && 0 <= n < s.len() && m != n && apart(
                        #[trigger] s[m],
                        address as int,
                        end,
                    ) && apart(#[trigger] s[n], address as int, end) ==> separated(s[m], s[n]),
            decreases s.len() - i,
        {
            let e = self.free[i];
            let changed = if address + count * FRAME_SIZE == e.0 {
                self.free.set(i, (address, e.1 + count));
                true
            } else if e.0 + e.1 * FRAME_SIZE == address {
                self.free.set(i, (e.0, e.1 + count));
                true
            } else {
                false
            };
            if changed {
                assert(self.free@ == s.update(i as int, grown(s[i as int], address, count)));
                let (address2, count2) = self.free[i];
                let ghost s1 = self.free@;
                let ghost end2 = address2 + count2 * 4096;
                assert(end2 == if run_end(e) == address { end } else { run_end(e) });
                proof {
                    assert forall|m: int| 0 <= m < s1.len() && apart(s1[m], address2 as int, end2)
                        implies apart(s[m], address as int, end) by {}
                    lemma_count_apart_less(s, s1, address as int, end, address2 as int, end2, i as int);
                }
                proof {
                    lemma_covered_grown(s, i as int, address, count);
                }
                let merged = self.merge(address2, count2);
                if merged {
                    let ghost s2 = self.free@;
                    let ghost mut j: int = 0;
                    proof {
                        if address + count * 4096 == e.0 {
                            assert forall|m: int| 0 <= m < s1.len() implies (#[trigger] s1[m]).0
                                != end2 by {
                                if m != i {
                                    assert(apart(s[m], address as int, end) || inside(s[m], address as int, end));
                                }
                            }
                        } else {
                            assert forall|m: int| 0 <= m < s1.len() implies run_end(#[trigger] s1[m])
                                != address2 by {
                                if m != i {
                                    assert(apart(s[m], address as int, end) || inside(s[m], address as int, end));
                                }
                            }
                        }
                        j = choose|j: int|
                            0 <= j < s1.len() && touches(#[trigger] s1[j], address2 as int, end2)
                                && s2 == s1.update(j, grown(s1[j], address2, count2));
                        assert(j != i);
                        lemma_covered_grown(s1, j, address2, count2);
                        lemma_covered_remove_inside(s2, i as int, j);
                    }
                    self.free.remove(i);
                    proof {
                        assert forall|x: int|
                            covered(self.free@, x) <==> (covered(s, x) || (address <= x < end)) by {
                            assert(covered(self.free@, x) <==> covered(s2, x));
                            assert(covered(s2, x) <==> (covered(s1, x) || (address2 <= x < end2)));
                            assert(covered(s1, x) <==> (covered(s, x) || (address <= x < end)));
                            if address2 <= x < end2 {
                                assert(run_contains(s1[i as int], x));
                            }
                        }
                    }
                }
                return true;
            }
            i = i + 1;
        }
        false
    }
    /// The number of frames in the runs given back.
    pub fn free_count(&self) -> (r: usize)
        requires
            total_frames(self.runs()) <= usize::MAX,
        ensures
            r == total_frames(self.runs()),
    {
        let mut size: usize = 0;
        let mut i: usize = 0;
        while i < self.free.len()
            invariant
                i <= self.free@.len(),
                size == total_frames(self.free@.take(i as int)),
                total_frames(self.free@) <= usize::MAX,
            decreases self.free@.len() - i,
        {
            proof {
                lemma_total_frames_prefix(self.free@, i + 1);
                lemma_total_frames_prefix_le(self.free@, i + 1);
            }
            size = size + self.free[i].1;
            i = i + 1;
        }
        proof {
            assert(self.free@.take(i as int) == self.free@);
        }
        size
    }

    /// Gives back the `count` frames from `frame`: they join the run they touch (and that run
    /// the one it then touches), or make a run of their own. The frames must not be given
    /// back already.
    pub fn dealloc_size(&mut self, frame: Frame<Page4KB>, count: usize)
        requires
            runs_wf(old(self).runs()),
            count > 0,
            frame.start() + count * 4096 <= usize::MAX,
            forall|x: int|
                frame.start() <= x < frame.start() + count * 4096 ==> !covered(old(self).runs(), x),
        ensures
            runs_wf(final(self).runs()),
            forall|x: int|
                covered(final(self).runs(), x) <==> (covered(old(self).runs(), x) || (frame.start()
                    <= x < frame.start() + count * 4096)),
    {
        let address = frame.start_address().as_u64() as usize;
        let ghost s = self.free@;
        let ghost end = address + count * 4096;
        proof {
            assert forall|m: int| 0 <= m < s.len() implies apart(#[trigger] s[m], address as int, end) by {
                if !apart(s[m], address as int, end) {
                    let x = if s[m].0 <= address { address as int } else { s[m].0 as int };
                    assert(run_contains(s[m], x));
                    assert(covered(s, x));
                }
            }
        }
        if !self.merge(address, count) {
            self.free.push((address, count));
            proof {
                assert forall|x: int|
                    covered(self.free@, x) <==> (covered(s, x) || (address <= x < end)) by {
                    if covered(self.free@, x) {
                        let m = choose|m: int| 0 <= m < self.free@.len() && run_contains(#[trigger] self.free@[m], x);
                        if m < s.len() {
                            assert(run_contains(s[m], x));
                        }
                    }
                    if covered(s, x) {
                        let m = choose|m: int| 0 <= m < s.len() && run_contains(#[trigger] s[m], x);
                        assert(run_contains(self.free@[m], x));
                    }
                    if address <= x < end {
                        assert(run_contains(self.free@[s.len() as int], x));
                    }
                }
            }
        }
    }
}

/// The frames of a prefix of runs grow by the next run's frames.
proof fn lemma_total_frames_prefix(s: Seq<(usize, usize)>, n: int)
    requires
        0 < n <= s.len(),
    ensures
        total_frames(s.take(n)) == total_frames(s.take(n - 1)) + s[n - 1].1,
{
    assert(s.take(n).drop_last() == s.take(n - 1));
}

/// A prefix of runs holds no more frames than all of them.
proof fn lemma_total_frames_prefix_le(s: Seq<(usize, usize)>, n: int)
    requires
        0 <= n <= s.len(),
    ensures
        total_frames(s.take(n)) <= total_frames(s),
    decreases s.len() - n,
{
    if n < s.len() {
        lemma_total_frames_prefix_le(s, n + 1);
        lemma_total_frames_prefix(s, n + 1);
    } else {
        assert(s.take(n) == s);
    }
}

impl<F: FrameAllocator<Page4KB> + MemoryAreaManagement> MemoryAreaManagement for AdaptationAllocator<F> {
    /// Hands the area to the inner allocator; the runs given back stay as they are.
    fn add_area(&mut self, start_addr: u64, end_addr: u64, ty: MemoryType, len: u64)
        ensures
            final(self).runs() == old(self).runs(),
    {
        self.inner.add_area(start_addr, end_addr, ty, len)
    }
}

impl<F: FrameAllocator<Page4KB> + MemoryAreaManagement> FrameAllocator<Page4KB> for AdaptationAllocator<F> {
    fn allocate(&mut self) -> Option<UnusedFrame<Page4KB>> {
        self.inner.allocate()
    }

    fn dealloc(&mut self, frame: UnusedFrame<Page4KB>) {
        self.inner.dealloc(frame)
    }
}

} // verus!
