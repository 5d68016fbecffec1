//! A frame allocator that hands out the frames of the memory map one after the other,
//! stepping over the kernel.
use crate::ia_32e::addr::PhysAddr;
use crate::ia_32e::paging::allocator::UnusedFrame;
use crate::ia_32e::paging::area::{MemoryArea, MemorySpace, MemoryType};
use crate::ia_32e::paging::frame::Frame;
use crate::ia_32e::paging::frame_allocator::MemoryAreaManagement;
use crate::ia_32e::paging::page::Page4KB;
use vstd::prelude::*;

verus! {

/// The start of the 4 KiB frame that holds the address `x`.
pub open spec fn frame_of(x: int) -> int {
    x - x % 4096
}

/// The frame from which an area no longer counts as ahead: the frame that holds the
/// address one past its last byte, plus one.
pub open spec fn area_limit(a: MemoryArea) -> int {
    frame_of(a.start_addr + a.length + 1)
}

/// The frame that holds the last byte of an area.
pub open spec fn area_last(a: MemoryArea) -> int {
    frame_of(a.start_addr + a.length - 1)
}

/// Whether an area can be handed out from: it holds a byte, and its end and the address
/// past it are physical addresses.
pub open spec fn area_ok(a: MemoryArea) -> bool {
    a.length >= 1 && a.start_addr + a.length + 1 < 0x10_0000_0000_0000
}

/// Among the first `n` areas, the first one of lowest start whose limit is not below
/// `next`.
pub open spec fn pick_upto(areas: Seq<MemoryArea>, next: int, n: int) -> Option<int>
    decreases n,
{
    if n <= 0 {
        None
    } else {
        let p = pick_upto(areas, next, n - 1);
        if area_limit(areas[n - 1]) >= next && (p is None || areas[n - 1].start_addr
            < areas[p->0].start_addr) {
            Some(n - 1)
        } else {
            p
        }
    }
}

/// The area that `find_next_area` makes current from `next`, and where the next frame goes:
/// the first area of lowest start among those whose limit is not below `next`, and the
/// next frame moved up to its first frame.
pub open spec fn find_next(areas: Seq<MemoryArea>, next: u64) -> (Option<MemoryArea>, u64) {
    match pick_upto(areas, next as int, areas.len() as int) {
        Some(k) => (
            Some(areas[k]),
            if next < frame_of(areas[k].start_addr as int) {
                frame_of(areas[k].start_addr as int) as u64
            } else {
                next
            },
        ),
        None => (None, next),
    }
}

/// Whether one round of `alloc_size` for `size * align` bytes runs without a fault from
/// the next frame `next` and the current area `cur`.
pub open spec fn step_safe(ke: u64, size: usize, align: usize, next: u64, cur: Option<MemoryArea>) -> bool {
    size > 0 && cur is Some ==> {
        &&& size * align <= usize::MAX
        &&& next + size * align < 0x10_0000_0000_0000
        &&& next + 4096 < 0x10_0000_0000_0000
        &&& ke + 4096 < 0x10_0000_0000_0000
        &&& area_ok(cur->0)
    }
}

/// One round of `alloc_size`: 0 where it gives up, 1 where it hands out the frame `next`,
/// 2 where it moves on and tries again; with the next frame and the current area after it.
pub open spec fn step(
    areas: Seq<MemoryArea>,
    ks: u64,
    ke: u64,
    size: usize,
    align: usize,
    next: u64,
    cur: Option<MemoryArea>,
) -> (int, u64, Option<MemoryArea>) {
    if size == 0 || cur is None {
        (0, next, cur)
    } else {
        let a = cur->0;
        let end = frame_of(next + size * align);
        if end > area_last(a) {
            let (c2, n2) = find_next(areas, next);
            (2, n2, c2)
        } else if (ks <= next && next <= ke) || (end >= ke && end <= ke) {
            (2, frame_of(ke + 4096) as u64, cur)
        } else {
            (1, frame_of(next + 4096) as u64, cur)
        }
    }
}

/// Whether `alloc_size` ends within `n` rounds without a fault.
pub open spec fn runs_ok(
    areas: Seq<MemoryArea>,
    ks: u64,
    ke: u64,
    size: usize,
    align: usize,
    next: u64,
    cur: Option<MemoryArea>,
    n: nat,
) -> bool
    decreases n,
{
    let (kind, n2, c2) = step(areas, ks, ke, size, align, next, cur);
    n > 0 && step_safe(ke, size, align, next, cur) && (kind == 2 ==> runs_ok(
        areas,
        ks,
        ke,
        size,
        align,
        n2,
        c2,
        (n - 1) as nat,
    ))
}

/// The next frame and the current area once `alloc_size` has ended, within `n` rounds.
pub open spec fn final_state(
    areas: Seq<MemoryArea>,
    ks: u64,
    ke: u64,
    size: usize,
    align: usize,
    next: u64,
    cur: Option<MemoryArea>,
    n: nat,
) -> (u64, Option<MemoryArea>)
    decreases n,
{
    let (kind, n2, c2) = step(areas, ks, ke, size, align, next, cur);
    if kind == 2 && n > 0 {
        final_state(areas, ks, ke, size, align, n2, c2, (n - 1) as nat)
    } else {
        (n2, c2)
    }
}

/// Whether the frame `f` counts: as free, a frame past the next frame outside the kernel;
/// as used, a frame of the kernel or one not past the next frame.
pub open spec fn frame_counts(f: int, ks: int, ke: int, next: int, free: bool) -> bool {
    let kernel = ks <= f && f <= ke;
    if free {
        !kernel && f > next
    } else {
        kernel || f <= next
    }
}

/// How frames count: a frame of the kernel (from its first frame to its last, both
/// included) is used and never free; any other frame is free where it lies past the next
/// frame and used otherwise.
pub proof fn law_frame_classes(f: int, ks: int, ke: int, next: int)
    ensures
        ks <= f <= ke ==> frame_counts(f, ks, ke, next, false) && !frame_counts(f, ks, ke, next, true),
        !(ks <= f <= ke) && f > next ==> frame_counts(f, ks, ke, next, true) && !frame_counts(f, ks, ke, next, false),
        !(ks <= f <= ke) && f <= next ==> frame_counts(f, ks, ke, next, false) && !frame_counts(f, ks, ke, next, true),
{
}

/// How many of the `k` frames from `first` count.
pub open spec fn count_frames(first: int, k: nat, ks: int, ke: int, next: int, free: bool) -> nat
    decreases k,
{
    if k == 0 {
        0
    } else {
        count_frames(first, (k - 1) as nat, ks, ke, next, free) + if frame_counts(
            first + 4096 * (k - 1),
            ks,
            ke,
            next,
            free,
        ) {
            1nat
        } else {
            0nat
        }
    }
}

/// The number of frames of an area: from the one that holds its first byte to the one that
/// holds its last.
pub open spec fn area_frames(a: MemoryArea) -> nat {
    ((area_last(a) - frame_of(a.start_addr as int)) / 4096 + 1) as nat
}

/// How many frames of the first `n` areas count.
pub open spec fn count_areas(areas: Seq<MemoryArea>, n: int, ks: int, ke: int, next: int, free: bool) -> nat
    decreases n,
{
    if n <= 0 {
        0
    } else {
        count_areas(areas, n - 1, ks, ke, next, free) + count_frames(
            frame_of(areas[n - 1].start_addr as int),
            area_frames(areas[n - 1]),
            ks,
            ke,
            next,
            free,
        )
    }
}

/// Counting fewer frames counts no more.
proof fn lemma_count_frames_mono(first: int, j: nat, k: nat, ks: int, ke: int, next: int, free: bool)
    requires
        j <= k,
    ensures
        count_frames(first, j, ks, ke, next, free) <= count_frames(first, k, ks, ke, next, free),
    decreases k - j,
{
    if j < k {
        lemma_count_frames_mono(first, j, (k - 1) as nat, ks, ke, next, free);
    }
}

/// Counting fewer areas counts no more.
proof fn lemma_count_areas_mono(areas: Seq<MemoryArea>, j: int, k: int, ks: int, ke: int, next: int, free: bool)
    requires
        0 <= j <= k,
    ensures
        count_areas(areas, j, ks, ke, next, free) <= count_areas(areas, k, ks, ke, next, free),
    decreases k - j,
{
    if j < k {
        lemma_count_areas_mono(areas, j, k - 1, ks, ke, next, free);
    }
}

/// A frame allocator that hands out the frames of the memory map from low to high,
/// skipping the frames of the kernel.
pub struct BumpAllocator {
    next_frame: Frame<Page4KB>,
    current_area: Option<MemoryArea>,
    areas: MemorySpace,
    kernel_start: Frame<Page4KB>,
    kernel_end: Frame<Page4KB>,
}

/// The frame that holds `addr`, a physical address.
fn frame_at(addr: u64) -> (r: Frame<Page4KB>)
    requires
        addr < 0x10_0000_0000_0000,
    ensures
        r.start() == frame_of(addr as int),
{
    assert(addr >> 52u64 == 0) by (bit_vector)
        requires
            addr < 0x10_0000_0000_0000,
    ;
    let f = Frame::<Page4KB>::include_address(PhysAddr::new(addr));
    proof {
        let s = f.start();
        assert(s == addr - addr % 4096) by (bit_vector)
            requires
                s & 0xfff == 0,
                s <= addr,
                addr - s < 4096,
        ;
    }
    f
}

impl BumpAllocator {
    /// The start of the next frame to hand out.
    pub closed spec fn next(&self) -> u64 {
        self.next_frame.start()
    }

    /// The area frames are handed out from.
    pub closed spec fn current(&self) -> Option<MemoryArea> {
        self.current_area
    }

    /// The memory map.
    pub closed spec fn memory(&self) -> Seq<MemoryArea> {
        self.areas.areas()
    }

    /// The first frame of the kernel.
    pub closed spec fn kernel_first(&self) -> u64 {
        self.kernel_start.start()
    }

    /// The last frame of the kernel.
    pub closed spec fn kernel_last(&self) -> u64 {
        self.kernel_end.start()
    }

    /// Every area of the map can be handed out from, and the frame past the kernel is a
    /// physical address.
    pub open spec fn wf(&self) -> bool {
        &&& forall|i: int| 0 <= i < self.memory().len() ==> area_ok(#[trigger] self.memory()[i])
        &&& self.next() < 0x10_0000_0000_0000
    }

    /// The allocator for a kernel from `kernel_start` to `kernel_end`, with an empty memory
    /// map: no area is current and the next frame is frame 0.
    pub fn new(kernel_start: u64, kernel_end: u64) -> (r: Self)
        requires
            kernel_start < 0x10_0000_0000_0000,
            kernel_end < 0x10_0000_0000_0000,
        ensures
            r.wf(),
            r.next() == 0,
            r.current() is None,
            r.memory() == Seq::<MemoryArea>::empty(),
            r.kernel_first() == frame_of(kernel_start as int),
            r.kernel_last() == frame_of(kernel_end as int),
    {
        let mut allocator = Self {
            next_frame: frame_at(0),
            current_area: None,
            areas: MemorySpace::new(),
            kernel_start: frame_at(kernel_start),
            kernel_end: frame_at(kernel_end),
        };
        allocator.find_next_area();
        allocator
    }

    /// The area that `find_next_area` makes current from the frame `next`, and where the
    /// next frame goes.
    fn next_area(&self, next: u64) -> (r: (Option<MemoryArea>, u64))
        requires
            self.wf(),
            next < 0x10_0000_0000_0000,
        ensures
            (r.0, r.1) == find_next(self.memory(), next),
            r.1 < 0x10_0000_0000_0000,
            r.0 matches Some(a) ==> area_ok(a),
    {
        let areas = self.areas.iter();
        let mut best: Option<usize> = None;
        let mut i: usize = 0;
        assert(areas@ == self.memory());
        assert forall|j: int| 0 <= j < areas@.len() implies area_ok(#[trigger] areas@[j]) by {
            assert(area_ok(self.memory()[j]));
        }
        while i < areas.len()
            invariant
                i <= areas@.len(),
                areas@ == self.memory(),
                forall|j: int| 0 <= j < areas@.len() ==> area_ok(#[trigger] areas@[j]),
                best matches Some(b) ==> b < i,
                match best {
                    Some(b) => pick_upto(areas@, next as int, i as int) == Some(b as int),
                    None => pick_upto(areas@, next as int, i as int) is None,
                },
            decreases areas@.len() - i,
        {
            let area = areas[i];
            let limit = frame_at(area.start_address() + area.size() + 1);
            if limit.start_address().as_u64() >= next {
                match best {
                    Some(b) => {
                        if area.start_address() < areas[b].start_address() {
                            best = Some(i);
                        }
                    },
                    None => {
                        best = Some(i);
                    },
                }
            }
            i = i + 1;
        }
        match best {
            Some(b) => {
                let area = areas[b];
                let start_frame = frame_at(area.start_address());
                if next < start_frame.start_address().as_u64() {
                    (Some(area), start_frame.start_address().as_u64())
                } else {
                    (Some(area), next)
                }
            },
            None => (None, next),
        }
    }

    /// Makes current the first area of lowest start whose limit is not below the next
    /// frame, and moves the next frame up to that area's first frame.
    fn find_next_area(&mut self)
        requires
            old(self).wf(),
        ensures
            final(self).wf(),
            (final(self).current(), final(self).next()) == find_next(old(self).memory(), old(self).next()),
            final(self).memory() == old(self).memory(),
            final(self).kernel_first() == old(self).kernel_first(),
            final(self).kernel_last() == old(self).kernel_last(),
    {
        let next = self.next_frame.start_address().as_u64();
        let (area, frame) = self.next_area(next);
        self.current_area = area;
        if frame != next {
            self.next_frame = frame_at(frame);
        }
    }

    /// One round of `alloc_size` from the frame `next` and the area `cur`, without a change
    /// to the allocator: `None` where the round would fault, otherwise what `step` gives,
    /// with the kind as a number.
    fn round(&self, size: usize, align: usize, next: u64, cur: Option<MemoryArea>) -> (r: Option<(u8, u64, Option<MemoryArea>)>)
        requires
            self.wf(),
            next < 0x10_0000_0000_0000,
        ensures
            r is None <==> !step_safe(self.kernel_last(), size, align, next, cur),
            r matches Some(t) ==> (t.0 as int, t.1, t.2) == step(self.memory(), self.kernel_first(), self.kernel_last(), size, align, next, cur)
                && t.1 < 0x10_0000_0000_0000,
    {
        if size == 0 {
            return Some((0, next, cur));
        }
        match cur {
            Some(area) => {
                let ke = self.kernel_end.start_address().as_u64();
                let ks = self.kernel_start.start_address().as_u64();
                let bytes = match size.checked_mul(align) {
                    Some(b) => b,
                    None => return None,
                };
                let limit: u64 = 0x10_0000_0000_0000;
                if bytes as u64 >= limit - next || next + 4096 >= limit || ke >= limit - 4096
                    || area.size() < 1 || area.start_address() >= limit - 1
                    || area.size() >= limit - 1 - area.start_address() {
                    return None;
                }
                let end = frame_at(next + bytes as u64).start_address().as_u64();
                let last = frame_at(area.start_address() + area.size() - 1).start_address().as_u64();
                if end > last {
                    let (c2, n2) = self.next_area(next);
                    Some((2, n2, c2))
                } else if (ks <= next && next <= ke) || (end >= ke && end <= ke) {
                    Some((2, frame_at(ke + 4096).start_address().as_u64(), cur))
                } else {
                    Some((1, frame_at(next + 4096).start_address().as_u64(), cur))
                }
            },
            None => Some((0, next, cur)),
        }
    }

    /// Whether a request of `size * align` bytes ends within `rounds` rounds without a
    /// fault (`runs_ok`); the allocator is not changed.
    pub fn alloc_size_ends(&self, size: usize, align: usize, rounds: usize) -> (r: bool)
        requires
            self.wf(),
        ensures
            r == runs_ok(self.memory(), self.kernel_first(), self.kernel_last(), size, align, self.next(), self.current(), rounds as nat),
    {
        let mut next = self.next_frame.start_address().as_u64();
        let mut cur = self.current_area;
        let mut left = rounds;
        while left > 0
            invariant
                self.wf(),
                next < 0x10_0000_0000_0000,
                left <= rounds,
                runs_ok(self.memory(), self.kernel_first(), self.kernel_last(), size, align, self.next(), self.current(), rounds as nat)
                    == runs_ok(self.memory(), self.kernel_first(), self.kernel_last(), size, align, next, cur, left as nat),
            decreases left,
        {
            match self.round(size, align, next, cur) {
                None => return false,
                Some((kind, n2, c2)) => {
                    if kind != 2 {
                        return true;
                    }
                    next = n2;
                    cur = c2;
                    left = left - 1;
                },
            }
        }
        false
    }

    /// One request of `size * align` bytes: the next frame where it and the frame holding
    /// the byte `size * align` past it lie in the current area and outside the kernel;
    /// otherwise the allocator moves on (to the next area, or past the kernel), tries again
    /// and, whatever that attempt gives, gives `None`.
    fn alloc_size_rounds(&mut self, size: usize, align: usize, Ghost(n): Ghost<nat>) -> (r: Option<UnusedFrame<Page4KB>>)
        requires
            old(self).wf(),
            runs_ok(
                old(self).memory(),
                old(self).kernel_first(),
                old(self).kernel_last(),
                size,
                align,
                old(self).next(),
                old(self).current(),
                n,
            ),
        ensures
            final(self).wf(),
            final(self).memory() == old(self).memory(),
            final(self).kernel_first() == old(self).kernel_first(),
            final(self).kernel_last() == old(self).kernel_last(),
            (final(self).next(), final(self).current()) == final_state(
                old(self).memory(),
                old(self).kernel_first(),
                old(self).kernel_last(),
                size,
                align,
                old(self).next(),
                old(self).current(),
                n,
            ),
            match r {
                Some(f) => step(
                    old(self).memory(),
                    old(self).kernel_first(),
                    old(self).kernel_last(),
                    size,
                    align,
                    old(self).next(),
                    old(self).current(),
                ).0 == 1 && f.spec_frame().start() == old(self).next(),
                None => step(
                    old(self).memory(),
                    old(self).kernel_first(),
                    old(self).kernel_last(),
                    size,
                    align,
                    old(self).next(),
                    old(self).current(),
                ).0 != 1,
            },
        decreases n,
    {
        if size == 0 {
            return None;
        }
        match self.current_area {
            Some(area) => {
                let next = self.next_frame.start_address().as_u64();
                let bytes = (size * align) as u64;
                let end_frame = frame_at(next + bytes);
                let area_last_frame = frame_at(area.start_address() + area.size() - 1);
                let ks = self.kernel_start.start_address().as_u64();
                let ke = self.kernel_end.start_address().as_u64();
                if end_frame.start_address().as_u64() > area_last_frame.start_address().as_u64() {
                    self.find_next_area();
                } else if (ks <= next && next <= ke) || (end_frame.start_address().as_u64() >= ke
                    && end_frame.start_address().as_u64() <= ke) {
                    self.next_frame = frame_at(ke + 4096);
                } else {
                    let start_frame = self.next_frame;
                    self.next_frame = frame_at(next + 4096);
                    return Some(UnusedFrame::new(start_frame));
                }
                self.alloc_size_rounds(size, align, Ghost((n - 1) as nat));
                None
            },
            None => None,
        }
    }

    /// A request of `size * align` bytes, for a state from which the rounds of the request
    /// end: see `alloc_size_rounds`.
    pub fn alloc_size(&mut self, size: usize, align: usize) -> (r: Option<UnusedFrame<Page4KB>>)
        requires
            old(self).wf(),
            exists|n: nat|
                runs_ok(
                    old(self).memory(),
                    old(self).kernel_first(),
                    old(self).kernel_last(),
                    size,
                    align,
                    old(self).next(),
                    old(self).current(),
                    n,
                ),
        ensures
            final(self).wf(),
            final(self).memory() == old(self).memory(),
            (final(self).next(), final(self).current()) == final_state(
                old(self).memory(),
                old(self).kernel_first(),
                old(self).kernel_last(),
                size,
                align,
                old(self).next(),
                old(self).current(),
                choose|n: nat|
                    runs_ok(
                        old(self).memory(),
                        old(self).kernel_first(),
                        old(self).kernel_last(),
                        size,
                        align,
                        old(self).next(),
                        old(self).current(),
                        n,
                    ),
            ),
            match r {
                Some(f) => step(
                    old(self).memory(),
                    old(self).kernel_first(),
                    old(self).kernel_last(),
                    size,
                    align,
                    old(self).next(),
                    old(self).current(),
                ).0 == 1 && f.spec_frame().start() == old(self).next(),
                None => step(
                    old(self).memory(),
                    old(self).kernel_first(),
                    old(self).kernel_last(),
                    size,
                    align,
                    old(self).next(),
                    old(self).current(),
                ).0 != 1,
            },
    {
        let ghost n = choose|n: nat|
            runs_ok(
                self.memory(),
                self.kernel_first(),
                self.kernel_last(),
                size,
                align,
                self.next(),
                self.current(),
                n,
            );
        self.alloc_size_rounds(size, align, Ghost(n))
    }

    /// A request of `size * align` bytes where it ends within `rounds` rounds without a
    /// fault: `Some` of what `alloc_size` gives; otherwise `None`, and the allocator is not
    /// changed.
    pub fn try_alloc_size(&mut self, size: usize, align: usize, rounds: usize) -> (r: Option<Option<UnusedFrame<Page4KB>>>)
        requires
            old(self).wf(),
        ensures
            final(self).wf(),
            r is Some <==> runs_ok(old(self).memory(), old(self).kernel_first(), old(self).kernel_last(), size, align, old(self).next(), old(self).current(), rounds as nat),
            r is None ==> *final(self) == *old(self),
            r is Some ==> (final(self).next(), final(self).current()) == final_state(
                old(self).memory(),
                old(self).kernel_first(),
                old(self).kernel_last(),
                size,
                align,
                old(self).next(),
                old(self).current(),
                rounds as nat,
            ),
            final(self).memory() == old(self).memory(),
            match r {
                Some(Some(f)) => step(
                    old(self).memory(),
                    old(self).kernel_first(),
                    old(self).kernel_last(),
                    size,
                    align,
                    old(self).next(),
                    old(self).current(),
                ).0 == 1 && f.spec_frame().start() == old(self).next(),
                Some(None) => step(
                    old(self).memory(),
                    old(self).kernel_first(),
                    old(self).kernel_last(),
                    size,
                    align,
                    old(self).next(),
                    old(self).current(),
                ).0 != 1,
                None => true,
            },
    {
        if self.alloc_size_ends(size, align, rounds) {
            Some(self.alloc_size_rounds(size, align, Ghost(rounds as nat)))
        } else {
            None
        }
    }
    /// How many frames of the memory map count as free (`free`) or used: see
    /// `frame_counts`.
    fn count(&self, free: bool) -> (r: usize)
        requires
            self.wf(),
            count_areas(self.memory(), self.memory().len() as int, self.kernel_first() as int, self.kernel_last() as int, self.next() as int, free) <= usize::MAX,
        ensures
            r == count_areas(self.memory(), self.memory().len() as int, self.kernel_first() as int, self.kernel_last() as int, self.next() as int, free),
    {
        let areas = self.areas.iter();
        let ks = self.kernel_start.start_address().as_u64();
        let ke = self.kernel_end.start_address().as_u64();
        let next = self.next_frame.start_address().as_u64();
        let ghost total = count_areas(areas@, areas@.len() as int, ks as int, ke as int, next as int, free);
        let mut count: usize = 0;
        let mut i: usize = 0;
        assert(areas@ == self.memory());
        assert forall|j: int| 0 <= j < areas@.len() implies area_ok(#[trigger] areas@[j]) by {
            assert(area_ok(self.memory()[j]));
        }
        while i < areas.len()
            invariant
                i <= areas@.len(),
                forall|j: int| 0 <= j < areas@.len() ==> area_ok(#[trigger] areas@[j]),
                count == count_areas(areas@, i as int, ks as int, ke as int, next as int, free),
                total == count_areas(areas@, areas@.len() as int, ks as int, ke as int, next as int, free),
                total <= usize::MAX,
            decreases areas@.len() - i,
        {
            let area = areas[i];
            let start_frame = frame_at(area.start_address());
            let end_frame = frame_at(area.start_address() + area.size() - 1);
            let first = start_frame.start_address().as_u64();
            let last = end_frame.start_address().as_u64();
            let ghost nf = area_frames(area);
            proof {
                lemma_count_areas_mono(areas@, i + 1, areas@.len() as int, ks as int, ke as int, next as int, free);
            }
            let mut f = first;
            let ghost mut k: nat = 0;
            while f <= last
                invariant
                    first <= f,
                    f == first + 4096 * k,
                    first % 4096 == 0,
                    last % 4096 == 0,
                    first <= last,
                    last < 0x10_0000_0000_0000,
                    k <= nf,
                    nf == (last - first) / 4096 + 1,
                    count == count_areas(areas@, i as int, ks as int, ke as int, next as int, free) + count_frames(first as int, k, ks as int, ke as int, next as int, free),
                    count_areas(areas@, i as int, ks as int, ke as int, next as int, free) + count_frames(first as int, nf, ks as int, ke as int, next as int, free) <= total,
                    total <= usize::MAX,
                decreases last + 4096 - f,
            {
                proof {
                    lemma_count_frames_mono(first as int, k + 1, nf, ks as int, ke as int, next as int, free);
                }
                let kernel = ks <= f && f <= ke;
                let counts = if free {
                    !kernel && f > next
                } else {
                    kernel || f <= next
                };
                if counts {
                    count = count + 1;
                }
                f = f + 4096;
                proof {
                    k = k + 1;
                }
            }
            i = i + 1;
        }
        count
    }

    /// The frames of the memory map past the next frame and outside the kernel.
    pub fn free_frames(&self) -> (r: usize)
        requires
            self.wf(),
            count_areas(self.memory(), self.memory().len() as int, self.kernel_first() as int, self.kernel_last() as int, self.next() as int, true) <= usize::MAX,
        ensures
            r == count_areas(self.memory(), self.memory().len() as int, self.kernel_first() as int, self.kernel_last() as int, self.next() as int, true),
    {
        self.count(true)
    }

    /// The frames of the memory map that the kernel holds or that were handed out.
    pub fn used_frames(&self) -> (r: usize)
        requires
            self.wf(),
            count_areas(self.memory(), self.memory().len() as int, self.kernel_first() as int, self.kernel_last() as int, self.next() as int, false) <= usize::MAX,
        ensures
            r == count_areas(self.memory(), self.memory().len() as int, self.kernel_first() as int, self.kernel_last() as int, self.next() as int, false),
    {
        self.count(false)
    }
}

impl MemoryAreaManagement for BumpAllocator {
    fn add_area(&mut self, start_addr: u64, end_addr: u64, ty: MemoryType, len: u64)
        ensures
            final(self).memory() == old(self).memory().push(
                MemoryArea { start_addr, end_addr, length: len, ty, acpi: 0 },
            ),
            final(self).next() == old(self).next(),
            final(self).current() == old(self).current(),
            final(self).kernel_first() == old(self).kernel_first(),
            final(self).kernel_last() == old(self).kernel_last(),
    {
        self.areas.add_area(start_addr, end_addr, ty, len)
    }
}

} // verus!
