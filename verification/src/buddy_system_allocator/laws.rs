//! What holds of the heap across its operations.
use crate::buddy_system_allocator::blocks::{block_len, in_block, placed};
use crate::buddy_system_allocator::pow::{ceil_log2, is_ceil_log2, lemma_ceil_log2_of_pow2};
use crate::buddy_system_allocator::{alloc_class, is_power_of_two, lemma_free_bytes_nonneg, Heap, ORDER};
use vstd::arithmetic::power2::{lemma_pow2_adds, lemma_pow2_pos, lemma_pow2_unfold, pow2};
use vstd::prelude::*;

verus! {

/// Every natural number has a ceiling base-2 logarithm.
pub proof fn lemma_ceil_log2_exists(x: nat)
    ensures
        is_ceil_log2(x, ceil_log2(x)),
    decreases x,
{
    if x <= 1 {
        assert(is_ceil_log2(x, 0)) by {
            vstd::arithmetic::power2::lemma2_to64();
        }
    } else {
        let y: nat = ((x + 1) / 2) as nat;
        lemma_ceil_log2_exists(y);
        let e = ceil_log2(y);
        lemma_pow2_unfold(e + 1);
        if e > 0 {
            lemma_pow2_unfold(e);
        } else {
            vstd::arithmetic::power2::lemma2_to64();
        }
        assert(is_ceil_log2(x, e + 1));
    }
}

/// The block that serves a request of `size` bytes aligned to `align` (a power of two)
/// holds at least `size` bytes, at least a word, and every block of its class that is
/// placed (aligned to its size) is aligned to `align`.
pub proof fn law_block_fits_request(size: nat, align: nat, p: int)
    requires
        is_power_of_two(align),
        placed(p, alloc_class(size, align) as int),
    ensures
        block_len(alloc_class(size, align) as int) >= size,
        block_len(alloc_class(size, align) as int) >= align,
        block_len(alloc_class(size, align) as int) >= 8,
        p % (align as int) == 0,
{
    let c = alloc_class(size, align);
    let b = choose|e: nat| pow2(e) == align;
    lemma_ceil_log2_of_pow2(b);
    lemma_ceil_log2_exists(size);
    assert(ceil_log2(align) == b);
    assert(c >= ceil_log2(size) && c >= b && c >= 3);
    lemma_pow2_adds(b, (c - b) as nat);
    lemma_pow2_adds(ceil_log2(size), (c - ceil_log2(size)) as nat);
    lemma_pow2_adds(3, (c - 3) as nat);
    lemma_pow2_pos((c - b) as nat);
    lemma_pow2_pos((c - ceil_log2(size)) as nat);
    lemma_pow2_pos((c - 3) as nat);
    lemma_pow2_pos(b);
    vstd::arithmetic::power2::lemma2_to64();
    let k = pow2((c - b) as nat) as int;
    assert(pow2(c) == align * k);
    assert(pow2(c) >= align) by (nonlinear_arith)
        requires
            pow2(c) == align * k,
            k >= 1,
    ;
    assert(pow2(c) >= size) by (nonlinear_arith)
        requires
            pow2(c) == pow2(ceil_log2(size)) * pow2((c - ceil_log2(size)) as nat),
            pow2((c - ceil_log2(size)) as nat) >= 1,
            pow2(ceil_log2(size)) >= size,
    ;
    assert(pow2(c) >= 8) by (nonlinear_arith)
        requires
            pow2(c) == pow2(3) * pow2((c - 3) as nat),
            pow2((c - 3) as nat) >= 1,
            pow2(3) == 8,
    ;
    let q = p / (pow2(c) as int);
    assert(p == pow2(c) * q) by {
        vstd::arithmetic::div_mod::lemma_fundamental_div_mod(p, pow2(c) as int);
    }
    assert(p == (align as int) * (k * q)) by (nonlinear_arith)
        requires
            p == pow2(c) * q,
            pow2(c) == align * k,
    ;
    vstd::arithmetic::div_mod::lemma_mod_multiples_basic(k * q, align as int);
}

/// A block that `allocate` handed out meets what `dealloc` asks of it (but for the buddy
/// of its top-class block being free, which `dealloc` cannot merge beyond the last class):
/// it is placed, its bytes are not free and the counters cover its request.
pub proof fn law_allocated_block_can_be_freed(h0: Heap, h1: Heap, p: usize, size: usize, align: usize)
    requires
        alloc_class(size as nat, align as nat) < ORDER,
        placed(p as int, alloc_class(size as nat, align as nat) as int),
        forall|a: int|
            h1.is_free(a) <==> (h0.is_free(a) && !in_block(
                p as int,
                alloc_class(size as nat, align as nat) as int,
                a,
            )),
        h1.user_bytes() == h0.user_bytes() + size,
        h1.allocated_bytes() == h0.allocated_bytes() + block_len(
            alloc_class(size as nat, align as nat) as int,
        ),
    ensures
        forall|a: int|
            in_block(p as int, alloc_class(size as nat, align as nat) as int, a) ==> !h1.is_free(
                a,
            ),
        h1.user_bytes() >= size,
        h1.allocated_bytes() >= block_len(alloc_class(size as nat, align as nat) as int),
{
}

/// Giving back a block that `allocate` handed out, with the same request, restores the
/// free bytes and the counters of the heap before the allocation.
pub proof fn law_allocate_dealloc_roundtrip(
    h0: Heap,
    h1: Heap,
    h2: Heap,
    p: usize,
    size: usize,
    align: usize,
)
    requires
        forall|a: int|
            in_block(p as int, alloc_class(size as nat, align as nat) as int, a) ==> h0.is_free(
                a,
            ),
        forall|a: int|
            h1.is_free(a) <==> (h0.is_free(a) && !in_block(
                p as int,
                alloc_class(size as nat, align as nat) as int,
                a,
            )),
        h1.user_bytes() == h0.user_bytes() + size,
        h1.allocated_bytes() == h0.allocated_bytes() + block_len(
            alloc_class(size as nat, align as nat) as int,
        ),
        h1.total_bytes() == h0.total_bytes(),
        forall|a: int|
            h2.is_free(a) <==> (h1.is_free(a) || in_block(
                p as int,
                alloc_class(size as nat, align as nat) as int,
                a,
            )),
        h2.user_bytes() == h1.user_bytes() - size,
        h2.allocated_bytes() == h1.allocated_bytes() - block_len(
            alloc_class(size as nat, align as nat) as int,
        ),
        h2.total_bytes() == h1.total_bytes(),
    ensures
        forall|a: int| h2.is_free(a) <==> h0.is_free(a),
        h2.user_bytes() == h0.user_bytes(),
        h2.allocated_bytes() == h0.allocated_bytes(),
        h2.total_bytes() == h0.total_bytes(),
{
}

/// Two blocks handed out one after the other (the second taken from bytes free after the
/// first was handed out) have no common byte.
pub proof fn law_allocations_disjoint(
    h0: Heap,
    h1: Heap,
    p: usize,
    c: int,
    p2: usize,
    c2: int,
)
    requires
        forall|a: int| h1.is_free(a) <==> (h0.is_free(a) && !in_block(p as int, c, a)),
        forall|a: int| in_block(p2 as int, c2, a) ==> h1.is_free(a),
    ensures
        forall|a: int| !(in_block(p as int, c, a) && in_block(p2 as int, c2, a)),
{
    assert forall|a: int| !(in_block(p as int, c, a) && in_block(p2 as int, c2, a)) by {
        if in_block(p2 as int, c2, a) {
            assert(h1.is_free(a));
        }
    }
}

/// The bytes requested by the live allocations `live`, each a request size and the class of
/// the block that serves it.
pub open spec fn live_requested(live: Seq<(nat, int)>) -> int
    decreases live.len(),
{
    if live.len() == 0 {
        0
    } else {
        live_requested(live.drop_last()) + live.last().0
    }
}

/// The bytes of the blocks that serve the live allocations `live`.
pub open spec fn live_blocks(live: Seq<(nat, int)>) -> int
    decreases live.len(),
{
    if live.len() == 0 {
        0
    } else {
        live_blocks(live.drop_last()) + block_len(live.last().1)
    }
}

/// Whether the counters of `h` are those of the live allocations `live`: the requested
/// bytes are the sum of their sizes, the allocated bytes the sum of their blocks.
pub open spec fn counts_live(h: Heap, live: Seq<(nat, int)>) -> bool {
    &&& h.user_bytes() == live_requested(live)
    &&& h.allocated_bytes() == live_blocks(live)
}

/// Taking out entry `k` of the live allocations takes its size and its block off the sums.
proof fn lemma_live_remove(live: Seq<(nat, int)>, k: int)
    requires
        0 <= k < live.len(),
    ensures
        live_requested(live) == live_requested(live.remove(k)) + live[k].0,
        live_blocks(live) == live_blocks(live.remove(k)) + block_len(live[k].1),
    decreases live.len(),
{
    if k < live.len() - 1 {
        let s = live.drop_last();
        lemma_live_remove(s, k);
        assert(live.remove(k).drop_last() =~= s.remove(k));
        assert(live.remove(k).last() == live.last());
    } else {
        assert(live.remove(k) =~= live.drop_last());
    }
}

/// A new heap counts no live allocation.
pub proof fn law_new_counts_nothing(h: Heap)
    requires
        h.user_bytes() == 0,
        h.allocated_bytes() == 0,
    ensures
        counts_live(h, Seq::<(nat, int)>::empty()),
{
}

/// An allocation that moves the counters as `allocate` does on success adds its request
/// to the live allocations that the counters count.
pub proof fn law_allocate_counts(h0: Heap, h1: Heap, live: Seq<(nat, int)>, size: nat, c: int)
    requires
        counts_live(h0, live),
        h1.user_bytes() == h0.user_bytes() + size,
        h1.allocated_bytes() == h0.allocated_bytes() + block_len(c),
    ensures
        counts_live(h1, live.push((size, c))),
{
    assert(live.push((size, c)).drop_last() =~= live);
}

/// Giving back the live allocation `k`, which moves the counters as `dealloc` does, takes
/// it out of the live allocations that the counters count.
pub proof fn law_dealloc_counts(h0: Heap, h1: Heap, live: Seq<(nat, int)>, k: int)
    requires
        counts_live(h0, live),
        0 <= k < live.len(),
        h1.user_bytes() == h0.user_bytes() - live[k].0,
        h1.allocated_bytes() == h0.allocated_bytes() - block_len(live[k].1),
    ensures
        counts_live(h1, live.remove(k)),
{
    lemma_live_remove(live, k);
}

/// Where each live allocation's block holds its request, the requested bytes are at most
/// the allocated bytes; and in a balanced heap the allocated bytes are at most the total.
pub proof fn law_counters_ordered(h: Heap, live: Seq<(nat, int)>)
    requires
        counts_live(h, live),
        h.balanced(),
        forall|k: int| 0 <= k < live.len() ==> #[trigger] live[k].0 <= block_len(live[k].1),
    ensures
        h.user_bytes() <= h.allocated_bytes(),
        h.allocated_bytes() <= h.total_bytes(),
{
    lemma_live_sums_ordered(live);
    lemma_free_bytes_nonneg(h);
}

/// The sizes of the live allocations sum to no more than their blocks, where each block
/// holds its request.
proof fn lemma_live_sums_ordered(live: Seq<(nat, int)>)
    requires
        forall|k: int| 0 <= k < live.len() ==> #[trigger] live[k].0 <= block_len(live[k].1),
    ensures
        live_requested(live) <= live_blocks(live),
    decreases live.len(),
{
    if live.len() > 0 {
        let s = live.drop_last();
        assert forall|k: int| 0 <= k < s.len() implies #[trigger] s[k].0 <= block_len(s[k].1) by {
            assert(s[k] == live[k]);
        }
        lemma_live_sums_ordered(s);
        assert(live[live.len() - 1] == live.last());
    }
}

/// Whether `h1` follows `h0` by one operation, as the counters and the live allocations see
/// it: adding `added` bytes of memory (the live allocations stay), a successful allocation
/// of a request of `size` bytes served by a block of class `c` (pushed on the live ones), or
/// giving back live allocation `k` (taken out of them). Only adding memory changes the total.
pub open spec fn heap_step(h0: Heap, h1: Heap, l0: Seq<(nat, int)>, l1: Seq<(nat, int)>, added: nat) -> bool {
    ||| {
        &&& h1.user_bytes() == h0.user_bytes()
        &&& h1.allocated_bytes() == h0.allocated_bytes()
        &&& h1.total_bytes() == h0.total_bytes() + added
        &&& l1 == l0
    }
    ||| exists|size: nat, c: int|
        {
            &&& h1.user_bytes() == h0.user_bytes() + size
            &&& h1.allocated_bytes() == h0.allocated_bytes() + block_len(c)
            &&& h1.total_bytes() == h0.total_bytes()
            &&& added == 0
            &&& #[trigger] l0.push((size, c)) == l1
        }
    ||| exists|k: int|
        {
            &&& 0 <= k < l0.len()
            &&& h1.user_bytes() == h0.user_bytes() - l0[k].0
            &&& h1.allocated_bytes() == h0.allocated_bytes() - block_len(l0[k].1)
            &&& h1.total_bytes() == h0.total_bytes()
            &&& added == 0
            &&& #[trigger] l0.remove(k) == l1
        }
}

/// The sum of the first `n` entries of `s`.
pub open spec fn sum_upto(s: Seq<nat>, n: int) -> int
    decreases n,
{
    if n <= 0 {
        0
    } else {
        sum_upto(s, n - 1) + s[n - 1]
    }
}

/// Over a history of heaps `hs` from a new heap, each following the one before by an
/// operation (`heap_step`) with the live allocations `lives` and the bytes `added`: the
/// requested bytes are the sum of the live requests, the allocated bytes the sum of their
/// blocks, and the total the sum of the bytes added.
pub proof fn law_counters_over_history(hs: Seq<Heap>, lives: Seq<Seq<(nat, int)>>, added: Seq<nat>)
    requires
        hs.len() >= 1,
        lives.len() == hs.len(),
        added.len() + 1 == hs.len(),
        hs[0].user_bytes() == 0,
        hs[0].allocated_bytes() == 0,
        hs[0].total_bytes() == 0,
        lives[0] == Seq::<(nat, int)>::empty(),
        forall|i: int| 0 <= i < added.len() ==> #[trigger] heap_step(hs[i], hs[i + 1], lives[i], lives[i + 1], added[i]),
    ensures
        counts_live(hs.last(), lives.last()),
        hs.last().total_bytes() == sum_upto(added, added.len() as int),
    decreases hs.len(),
{
    if hs.len() > 1 {
        let n = hs.len() - 1;
        let hs0 = hs.drop_last();
        let lives0 = lives.drop_last();
        let added0 = added.drop_last();
        assert forall|i: int| 0 <= i < added0.len() implies #[trigger] heap_step(hs0[i], hs0[i + 1], lives0[i], lives0[i + 1], added0[i]) by {
            assert(heap_step(hs[i], hs[i + 1], lives[i], lives[i + 1], added[i]));
        }
        law_counters_over_history(hs0, lives0, added0);
        assert(sum_upto(added0, added0.len() as int) == sum_upto(added, added0.len() as int)) by {
            lemma_sum_prefix(added0, added, added0.len() as int);
        }
        let h0 = hs[n - 1];
        let h1 = hs[n];
        let l0 = lives[n - 1];
        let l1 = lives[n];
        assert(heap_step(h0, h1, l0, l1, added[n - 1]));
        if h1.user_bytes() == h0.user_bytes() && h1.allocated_bytes() == h0.allocated_bytes()
            && h1.total_bytes() == h0.total_bytes() + added[n - 1] && l1 == l0 {
        } else if exists|size: nat, c: int|
            {
                &&& h1.user_bytes() == h0.user_bytes() + size
                &&& h1.allocated_bytes() == h0.allocated_bytes() + block_len(c)
                &&& h1.total_bytes() == h0.total_bytes()
                &&& added[n - 1] == 0
                &&& #[trigger] l0.push((size, c)) == l1
            } {
            let (size, c) = choose|size: nat, c: int|
                {
                    &&& h1.user_bytes() == h0.user_bytes() + size
                    &&& h1.allocated_bytes() == h0.allocated_bytes() + block_len(c)
                    &&& h1.total_bytes() == h0.total_bytes()
                    &&& added[n - 1] == 0
                    &&& #[trigger] l0.push((size, c)) == l1
                };
            law_allocate_counts(h0, h1, l0, size, c);
        } else {
            let k = choose|k: int|
                {
                    &&& 0 <= k < l0.len()
                    &&& h1.user_bytes() == h0.user_bytes() - l0[k].0
                    &&& h1.allocated_bytes() == h0.allocated_bytes() - block_len(l0[k].1)
                    &&& h1.total_bytes() == h0.total_bytes()
                    &&& added[n - 1] == 0
                    &&& #[trigger] l0.remove(k) == l1
                };
            law_dealloc_counts(h0, h1, l0, k);
        }
    }
}

/// Sums of the first `n` entries agree for sequences that agree there.
proof fn lemma_sum_prefix(a: Seq<nat>, b: Seq<nat>, n: int)
    requires
        0 <= n <= a.len(),
        n <= b.len(),
        forall|i: int| 0 <= i < n ==> a[i] == b[i],
    ensures
        sum_upto(a, n) == sum_upto(b, n),
    decreases n,
{
    if n > 0 {
        lemma_sum_prefix(a, b, n - 1);
    }
}

} // verus!
