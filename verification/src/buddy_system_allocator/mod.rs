//! A heap that hands out memory in power-of-two blocks and merges freed buddies.
//!
//! The heap keeps one list of free blocks per size class: list `c` holds the start
//! addresses of free blocks of `2^c` bytes. Its model is the set of free bytes
//! (`Heap::is_free`) together with three counters.
pub mod blocks;
pub mod laws;
pub mod pow;

use self::blocks::{
    all_placed, apart, block_len, free_at, in_block, lemma_push, lemma_remove, pairwise_apart,
    placed,
};
use self::pow::{
    ceil_log2, ceil_log2_exec, floor_log2_exec, is_floor_log2, lemma_aligned_smaller,
    lemma_buddy, lemma_ceil_log2_of_pow2, lemma_pow2_small, pow2_usize,
};
use vstd::arithmetic::power2::{lemma2_to64, lemma_pow2_pos, lemma_pow2_unfold, pow2};
use vstd::prelude::*;

verus! {

/// Number of size classes: blocks hold at most `2^31` bytes.
pub const ORDER: usize = 32;

/// The smallest block the heap hands out: the size of a machine word.
pub const WORD: usize = 8;

/// The heap could not satisfy a request.
#[derive(Clone, Copy, Debug, PartialEq, Eq, Structural)]
pub struct AllocErr;

/// The size class that serves a request of `size` bytes aligned to `align`: the exponent of
/// `max(size.next_power_of_two(), align, WORD)`.
pub open spec fn alloc_class(size: nat, align: nat) -> nat {
    let a = ceil_log2(size);
    let b = ceil_log2(align);
    let m = if a >= b {
        a
    } else {
        b
    };
    if m >= 3 {
        m
    } else {
        3
    }
}

/// Whether `align` is a power of two.
pub open spec fn is_power_of_two(align: nat) -> bool {
    exists|e: nat| pow2(e) == align
}

/// `x` rounded up to a multiple of `WORD`.
pub open spec fn word_align_up(x: int) -> int {
    x + (8 - x % 8) % 8
}

/// `x` rounded down to a multiple of `WORD`.
pub open spec fn word_align_down(x: int) -> int {
    x - x % 8
}

/// The buddy of the block of class `e` at `x`: the other half of the block of class `e + 1`
/// that holds it.
pub open spec fn buddy_of(x: int, e: nat) -> int {
    if (x / (pow2(e) as int)) % 2 == 0 {
        x + pow2(e)
    } else {
        x - pow2(e)
    }
}

/// The bytes held by the blocks of the first `n` lists: list `c` holds blocks of `2^c`
/// bytes.
pub open spec fn bytes_upto(lists: Seq<Seq<usize>>, n: int) -> int
    decreases n,
{
    if n <= 0 {
        0
    } else {
        bytes_upto(lists, n - 1) + lists[n - 1].len() * block_len(n - 1)
    }
}

/// Replacing list `c` by `s` changes the bytes of the first `n` lists by what `s` holds
/// more than list `c` did, where `c < n`.
proof fn lemma_bytes_update(lists: Seq<Seq<usize>>, c: int, s: Seq<usize>, n: int)
    requires
        0 <= c < lists.len(),
        n <= lists.len(),
    ensures
        bytes_upto(lists.update(c, s), n) == bytes_upto(lists, n) + if c < n {
            (s.len() - lists[c].len()) * block_len(c)
        } else {
            0
        },
    decreases n,
{
    if n > 0 {
        lemma_bytes_update(lists, c, s, n - 1);
        if c == n - 1 {
            let p = block_len(c);
            assert(s.len() * p == lists[c].len() * p + (s.len() - lists[c].len()) * p) by (nonlinear_arith);
        }
    }
}

/// Lists that are all empty hold no bytes.
proof fn lemma_bytes_empty(lists: Seq<Seq<usize>>, n: int)
    requires
        n <= lists.len(),
        forall|c: int| 0 <= c < lists.len() ==> #[trigger] lists[c].len() == 0,
    ensures
        bytes_upto(lists, n) == 0,
    decreases n,
{
    if n > 0 {
        lemma_bytes_empty(lists, n - 1);
    }
}

/// The position of the first entry of `s` from position `k` on that equals `x`; `s.len()`
/// where there is none.
pub open spec fn first_at(s: Seq<usize>, x: int, k: int) -> int
    decreases s.len() - k,
{
    if k < 0 || k >= s.len() {
        s.len() as int
    } else if s[k] as int == x {
        k
    } else {
        first_at(s, x, k + 1)
    }
}

/// Where no entry before `k` equals `x`, the first `x` from the start is the first from `k`.
proof fn lemma_first_at(s: Seq<usize>, x: int, k: int)
    requires
        0 <= k <= s.len(),
        forall|j: int| 0 <= j < k ==> s[j] as int != x,
    ensures
        first_at(s, x, 0) == first_at(s, x, k),
    decreases k,
{
    if k > 0 {
        lemma_first_at(s, x, k - 1);
    }
}

/// The lists once the block at `p` of class `c`, the last entry of list `c`, has been merged
/// with its buddy class by class: while the buddy is in the list of the current class and
/// that class is not the last, its first entry there and the block (the last entry) leave
/// the list, and the block of the next class that holds both goes on the end of the next
/// list.
pub open spec fn merge_from(lists: Seq<Seq<usize>>, p: int, c: int) -> Seq<Seq<usize>>
    decreases ORDER - c,
{
    if c < 0 || c >= ORDER {
        lists
    } else {
        let b = buddy_of(p, c as nat);
        let l = lists[c];
        let k = first_at(l, b, 0);
        if k < l.len() && c + 1 < ORDER {
            let q = if p < b {
                p
            } else {
                b
            };
            let l2 = lists.update(c, l.remove(k).drop_last());
            merge_from(l2.update(c + 1, l2[c + 1].push(q as usize)), q, c + 1)
        } else {
            lists
        }
    }
}

/// The first class from `c` on whose list holds a block; `ORDER` where there is none.
pub open spec fn first_nonempty_from(lists: Seq<Seq<usize>>, c: int) -> int
    decreases ORDER - c,
{
    if c < 0 || c >= ORDER {
        ORDER as int
    } else if lists[c].len() > 0 {
        c
    } else {
        first_nonempty_from(lists, c + 1)
    }
}

/// Where the lists of the classes from `c` to below `i` are empty and list `i` is not, `i`
/// is the first class from `c` on with a block.
proof fn lemma_first_nonempty(lists: Seq<Seq<usize>>, c: int, i: int)
    requires
        0 <= c <= i < ORDER,
        lists[i].len() > 0,
        forall|j: int| c <= j < i ==> #[trigger] lists[j].len() == 0,
    ensures
        first_nonempty_from(lists, c) == i,
    decreases i - c,
{
    if c < i {
        lemma_first_nonempty(lists, c + 1, i);
    }
}

/// The lists while the last block `b` of list `i` is split down: its halves have been
/// split off down to class `j`, the upper half of each class below `i` and from `j` up
/// pushed on its list, and `b` itself is the last entry of list `j`.
pub open spec fn split_upto(lists: Seq<Seq<usize>>, i: int, j: int, b: usize) -> Seq<Seq<usize>> {
    Seq::new(
        lists.len(),
        |x: int|
            if j < i && x == i {
                lists[i].drop_last()
            } else if j < x < i {
                lists[x].push((b + block_len(x)) as usize)
            } else if j < i && x == j {
                lists[j].push((b + block_len(j)) as usize).push(b)
            } else {
                lists[x]
            },
    )
}

/// The lists once a block of class `c` has been taken from the last block of list `i`:
/// that block leaves list `i`, and for each class from `c` to below `i` the upper half
/// split off at that class goes on the end of its list.
pub open spec fn split_lists(lists: Seq<Seq<usize>>, i: int, c: int) -> Seq<Seq<usize>> {
    let b = lists[i].last();
    Seq::new(
        lists.len(),
        |x: int|
            if x == i {
                lists[i].drop_last()
            } else if c <= x < i {
                lists[x].push((b + block_len(x)) as usize)
            } else {
                lists[x]
            },
    )
}

/// The lists once the block at `p` of class `c` has been given back: pushed on list `c`,
/// then merged with its free buddies.
pub open spec fn merged(lists: Seq<Seq<usize>>, p: int, c: int) -> Seq<Seq<usize>> {
    merge_from(lists.update(c, lists[c].push(p as usize)), p, c)
}

/// Whether some list of class `c` or above holds a block.
pub open spec fn lists_have_from(lists: Seq<Seq<usize>>, c: int) -> bool {
    exists|i: int| c <= i < ORDER && #[trigger] lists[i].len() > 0
}

/// A quotient by `d` of a multiple of `2 * d` is even.
proof fn lemma_even_quotient(x: int, d: int)
    requires
        d > 0,
        x >= 0,
        x % (2 * d) == 0,
    ensures
        (x / d) % 2 == 0,
{
    let m = x / (2 * d);
    vstd::arithmetic::div_mod::lemma_fundamental_div_mod(x, 2 * d);
    assert(x == d * (2 * m)) by (nonlinear_arith)
        requires
            x == 2 * d * m + 0,
    ;
    vstd::arithmetic::div_mod::lemma_div_multiples_vanish(2 * m, d);
}

/// Where some list from class `c` on holds a block, the first such class is below `ORDER`,
/// its list holds a block and the lists between are empty.
proof fn lemma_first_nonempty_found(lists: Seq<Seq<usize>>, c: int)
    requires
        0 <= c,
        lists_have_from(lists, c),
    ensures
        c <= first_nonempty_from(lists, c) < ORDER,
        lists[first_nonempty_from(lists, c)].len() > 0,
        forall|j: int| c <= j < first_nonempty_from(lists, c) ==> #[trigger] lists[j].len() == 0,
    decreases ORDER - c,
{
    let i = choose|i: int| c <= i < ORDER && #[trigger] lists[i].len() > 0;
    if lists[c].len() == 0 {
        assert(lists_have_from(lists, c + 1)) by {
            assert(lists[i].len() > 0 && i != c);
        }
        lemma_first_nonempty_found(lists, c + 1);
    }
}

/// Merging never empties a class range: every range from some class on that held a block
/// still holds one.
proof fn lemma_merge_keeps_blocks(lists: Seq<Seq<usize>>, p: int, c: int)
    requires
        lists.len() == ORDER,
    ensures
        forall|d: int| 0 <= d && lists_have_from(lists, d) ==> #[trigger] lists_have_from(merge_from(lists, p, c), d),
    decreases ORDER - c,
{
    if 0 <= c < ORDER {
        let b = buddy_of(p, c as nat);
        let l = lists[c];
        let k = first_at(l, b, 0);
        if k < l.len() && c + 1 < ORDER {
            let q = if p < b {
                p
            } else {
                b
            };
            let l2 = lists.update(c, l.remove(k).drop_last());
            let l3 = l2.update(c + 1, l2[c + 1].push(q as usize));
            lemma_merge_keeps_blocks(l3, q, c + 1);
            assert(merge_from(lists, p, c) == merge_from(l3, q, c + 1));
            assert forall|d: int| 0 <= d && lists_have_from(lists, d) implies #[trigger] lists_have_from(merge_from(lists, p, c), d) by {
                let i = choose|i: int| d <= i < ORDER && #[trigger] lists[i].len() > 0;
                if i == c || i == c + 1 {
                    assert(l3[c + 1].len() > 0);
                } else {
                    assert(l3[i] == lists[i]);
                }
                assert(lists_have_from(l3, d));
            }
        } else {
            assert(merge_from(lists, p, c) == lists);
        }
    }
}

/// Merging the last block `b` of list `i` back while its split-off upper halves (from class
/// `j` up) are still on their lists gives what merging `b` from class `i` gives.
proof fn lemma_split_merge(lists: Seq<Seq<usize>>, i: int, j: int, b: usize)
    requires
        lists.len() == ORDER,
        pairwise_apart(lists),
        all_placed(lists),
        0 <= j <= i < ORDER,
        lists[i].len() > 0,
        b == lists[i].last(),
    ensures
        merge_from(split_upto(lists, i, j, b), b as int, j) == merge_from(lists, b as int, i),
    decreases i - j,
{
    if j == i {
        assert(split_upto(lists, i, j, b) =~~= lists);
    } else {
        let s = split_upto(lists, i, j, b);
        let n = lists[i].len() - 1;
        assert(placed(lists[i][n] as int, i));
        let hb = block_len(j);
        let up = b + hb;
        lemma_pow2_unfold((j + 1) as nat);
        lemma_pow2_pos(j as nat);
        vstd::arithmetic::power2::lemma_pow2_strictly_increases(j as nat, i as nat);
        lemma_aligned_smaller(b as int, i as nat, (j + 1) as nat);
        lemma_even_quotient(b as int, hb);
        assert(buddy_of(b as int, j as nat) == up);
        let l = s[j];
        assert(l == lists[j].push(up as usize).push(b));
        reveal(pairwise_apart);
        assert forall|x: int| 0 <= x < lists[j].len() implies l[x] as int != up by {
            assert(apart(lists[j][x] as int, j, lists[i][n] as int, i));
        }
        lemma_first_at(l, up, lists[j].len() as int);
        assert(first_at(l, up, 0) == lists[j].len());
        let l2 = s.update(j, l.remove(lists[j].len() as int).drop_last());
        assert(l.remove(lists[j].len() as int).drop_last() =~= lists[j]);
        let l3 = l2.update(j + 1, l2[j + 1].push(b));
        if j + 1 == i {
            assert(lists[i].drop_last().push(b) =~= lists[i]);
        }
        assert(l3 =~~= split_upto(lists, i, j + 1, b));
        lemma_split_merge(lists, i, j + 1, b);
    }
}

/// Whether class `c` is that of the largest block that starts at `start` and fits in `len`
/// bytes while aligned to its size: `2^c` fits in `len` and divides `start`, and `2^(c + 1)`
/// does not do both. It is the smaller of the lowest set bit of `start` and the largest power
/// of two not above `len`.
pub open spec fn is_largest_block(start: int, len: int, c: nat) -> bool {
    &&& pow2(c) <= len
    &&& start % (pow2(c) as int) == 0
    &&& (2 * pow2(c) > len || start % (2 * pow2(c) as int) != 0)
}

/// The class of the largest block that starts at `start` and fits in `len` bytes.
pub open spec fn largest_class(start: int, len: int) -> nat {
    choose|c: nat| is_largest_block(start, len, c)
}

/// At most one class is that of the largest block.
proof fn lemma_largest_unique(start: int, len: int, c1: nat, c2: nat)
    requires
        start >= 0,
        is_largest_block(start, len, c1),
        is_largest_block(start, len, c2),
    ensures
        c1 == c2,
{
    if c1 < c2 {
        lemma_pow2_unfold(c1 + 1);
        if c1 + 1 < c2 {
            vstd::arithmetic::power2::lemma_pow2_strictly_increases(c1 + 1, c2);
        }
        lemma_aligned_smaller(start, c2, c1 + 1);
    } else if c2 < c1 {
        lemma_pow2_unfold(c2 + 1);
        if c2 + 1 < c1 {
            vstd::arithmetic::power2::lemma_pow2_strictly_increases(c2 + 1, c1);
        }
        lemma_aligned_smaller(start, c1, c2 + 1);
    }
}

/// The lists once the range from `cur` to `end` has been cut, from `cur` on, into the
/// largest blocks aligned to their size, each pushed on the list of its class.
pub open spec fn cut(lists: Seq<Seq<usize>>, cur: int, end: int) -> Seq<Seq<usize>>
    decreases end - cur,
{
    let c = largest_class(cur, end - cur);
    if cur + 8 <= end && is_largest_block(cur, end - cur, c) && c < ORDER && 0 < pow2(c) {
        cut(lists.update(c as int, lists[c as int].push(cur as usize)), cur + pow2(c), end)
    } else {
        lists
    }
}

/// Cutting a range only adds blocks: every list is at least as long as before.
proof fn lemma_cut_keeps(lists: Seq<Seq<usize>>, cur: int, end: int)
    requires
        lists.len() == ORDER,
    ensures
        cut(lists, cur, end).len() == ORDER,
        forall|x: int| 0 <= x < ORDER ==> #[trigger] cut(lists, cur, end)[x].len() >= lists[x].len(),
    decreases end - cur,
{
    let c = largest_class(cur, end - cur);
    if cur + 8 <= end && is_largest_block(cur, end - cur, c) && c < ORDER && 0 < pow2(c) {
        let l1 = lists.update(c as int, lists[c as int].push(cur as usize));
        lemma_cut_keeps(l1, cur + pow2(c), end);
        assert forall|x: int| 0 <= x < ORDER implies #[trigger] cut(lists, cur, end)[x].len() >= lists[x].len() by {
            assert(cut(lists, cur, end) == cut(l1, cur + pow2(c), end));
            assert(l1[x].len() >= lists[x].len());
        }
    }
}

/// A heap holds a block of class `c` or above once a range whose first block has class `c`
/// (the largest block aligned to its size at the start of the range) has been added: so a
/// request of that class or below can be served.
pub proof fn law_added_range_has_block(h0: Heap, h1: Heap, start: int, end: int, c: nat)
    requires
        h0.wf(),
        h1.lists() == cut(h0.lists(), start, end),
        0 < start,
        start + 8 <= end,
        is_largest_block(start, end - start, c),
        c < ORDER,
    ensures
        h1.has_block_from(c as int),
{
    lemma_pow2_pos(c);
    let l0 = h0.lists();
    let l1 = l0.update(c as int, l0[c as int].push(start as usize));
    assert(l0.len() == ORDER);
    lemma_largest_unique(start, end - start, c, largest_class(start, end - start));
    assert(h1.lists() == cut(l1, start + pow2(c), end));
    lemma_cut_keeps(l1, start + pow2(c), end);
    assert(h1.lists()[c as int].len() > 0);
}

/// A heap that uses the buddy system.
pub struct Heap {
    free_list: Vec<Vec<usize>>,
    user: usize,
    allocated: usize,
    total: usize,
}

impl Heap {
    /// The free lists as sequences of block start addresses.
    pub closed spec fn lists(&self) -> Seq<Seq<usize>> {
        self.free_list@.map_values(|v: Vec<usize>| v@)
    }

    /// The heap's invariant: one list per class, blocks aligned to their size, inside the
    /// address space, above zero, and pairwise without a common byte.
    pub closed spec fn wf(&self) -> bool {
        &&& self.free_list@.len() == ORDER
        &&& pairwise_apart(self.lists())
        &&& all_placed(self.lists())
    }

    /// Whether the byte at address `a` is free in the heap.
    pub closed spec fn is_free(&self, a: int) -> bool {
        free_at(self.lists(), a)
    }

    /// Whether some list of class `c` or above holds a block.
    pub closed spec fn has_block_from(&self, c: int) -> bool {
        exists|i: int| c <= i < ORDER && #[trigger] self.lists()[i].len() > 0
    }

    /// Whether list `ORDER - 1` holds the buddy of the top-class block that holds `ptr`:
    /// merging a freed block up to that class would then need a class beyond the last.
    pub closed spec fn top_buddy_free(&self, ptr: int) -> bool {
        exists|q: int, k: int|
            #![trigger self.lists()[ORDER - 1][k], buddy_of(q, (ORDER - 1) as nat)]
            q % (pow2((ORDER - 1) as nat) as int) == 0 && q <= ptr < q + pow2((ORDER - 1) as nat)
                && 0 <= k < self.lists()[ORDER - 1].len() && self.lists()[ORDER - 1][k] as int
                == buddy_of(q, (ORDER - 1) as nat)
    }

    /// Bytes that users requested and did not give back.
    pub closed spec fn user_bytes(&self) -> nat {
        self.user as nat
    }

    /// Bytes held by blocks that were handed out and not given back.
    pub closed spec fn allocated_bytes(&self) -> nat {
        self.allocated as nat
    }

    /// Bytes that were added to the heap.
    pub closed spec fn total_bytes(&self) -> nat {
        self.total as nat
    }

    /// Bytes held by the free blocks.
    pub closed spec fn free_bytes(&self) -> int {
        bytes_upto(self.lists(), ORDER as int)
    }

    /// Whether the bytes added to the heap are those handed out plus those free.
    pub open spec fn balanced(&self) -> bool {
        self.total_bytes() == self.allocated_bytes() + self.free_bytes()
    }

    /// Create an empty heap.
    pub fn new() -> (r: Self)
        ensures
            r.wf(),
            forall|a: int| !r.is_free(a),
            forall|c: int| 0 <= c ==> !r.has_block_from(c),
            r.user_bytes() == 0,
            r.allocated_bytes() == 0,
            r.total_bytes() == 0,
            r.free_bytes() == 0,
            r.balanced(),
    {
        let mut free_list: Vec<Vec<usize>> = Vec::new();
        let mut i: usize = 0;
        while i < ORDER
            invariant
                i <= ORDER,
                free_list@.len() == i,
                forall|j: int| 0 <= j < i ==> #[trigger] free_list@[j]@.len() == 0,
            decreases ORDER - i,
        {
            free_list.push(Vec::new());
            i = i + 1;
        }
        let r = Heap { free_list, user: 0, allocated: 0, total: 0 };
        reveal(free_at);
        reveal(pairwise_apart);
        assert forall|c: int| 0 <= c < r.lists().len() implies #[trigger] r.lists()[c].len()
            == 0 by {
            assert(r.lists()[c] == r.free_list@[c]@);
        }
        proof {
            lemma_bytes_empty(r.lists(), ORDER as int);
        }
        r
    }

    /// Create an empty heap.
    pub fn empty() -> (r: Self)
        ensures
            r.wf(),
            forall|a: int| !r.is_free(a),
            forall|c: int| 0 <= c ==> !r.has_block_from(c),
            r.user_bytes() == 0,
            r.allocated_bytes() == 0,
            r.total_bytes() == 0,
            r.free_bytes() == 0,
            r.balanced(),
    {
        Self::new()
    }

    /// Whether the last list holds the buddy of the top-class block that holds `ptr` (see
    /// `top_buddy_free`): where it does, `dealloc` cannot take a block at `ptr`.
    #[verifier::loop_isolation(false)]
    pub fn top_buddy_is_free(&self, ptr: usize) -> (r: bool)
        requires
            self.wf(),
        ensures
            r == self.top_buddy_free(ptr as int),
    {
        let t: usize = 0x8000_0000;
        proof {
            lemma2_to64();
        }
        let q = (ptr / t) * t;
        let buddy: Option<usize> = if (q / t) % 2 == 0 {
            q.checked_add(t)
        } else {
            Some(q - t)
        };
        let ghost gq = q as int;
        proof {
            let p = ptr as int;
            assert(gq % 0x8000_0000 == 0 && gq <= p < gq + 0x8000_0000) by (nonlinear_arith)
                requires
                    gq == (p / 0x8000_0000) * 0x8000_0000,
                    p >= 0,
            ;
            assert forall|q2: int|
                #![trigger buddy_of(q2, (ORDER - 1) as nat)]
                q2 % (pow2((ORDER - 1) as nat) as int) == 0 && q2 <= ptr < q2 + pow2(
                    (ORDER - 1) as nat,
                ) implies q2 == gq by {
                assert(q2 == gq) by (nonlinear_arith)
                    requires
                        q2 % 0x8000_0000 == 0,
                        q2 <= p < q2 + 0x8000_0000,
                        gq % 0x8000_0000 == 0,
                        gq <= p < gq + 0x8000_0000,
                ;
            }
        }
        match buddy {
            None => {
                proof {
                    assert forall|k: int|
                        0 <= k < self.lists()[ORDER - 1].len() implies #[trigger] self.lists()[ORDER
                        - 1][k] as int != buddy_of(gq, (ORDER - 1) as nat) by {}
                }
                false
            },
            Some(b) => {
                let list = &self.free_list[ORDER - 1];
                proof {
                    assert(self.lists()[ORDER - 1] == list@);
                }
                let mut k: usize = 0;
                while k < list.len()
                    invariant
                        k <= list@.len(),
                        b as int == buddy_of(gq, (ORDER - 1) as nat),
                        forall|j: int| 0 <= j < k ==> list@[j] != b,
                    decreases list@.len() - k,
                {
                    if list[k] == b {
                        assert(self.lists()[ORDER - 1][k as int] as int == buddy_of(
                            gq,
                            (ORDER - 1) as nat,
                        ));
                        return true;
                    }
                    k = k + 1;
                }
                false
            },
        }
    }

    /// Return the number of bytes that user requests.
    pub fn stats_alloc_user(&self) -> (r: usize)
        ensures
            r == self.user_bytes(),
    {
        self.user
    }

    /// Return the number of bytes that are actually allocated.
    pub fn stats_alloc_actual(&self) -> (r: usize)
        ensures
            r == self.allocated_bytes(),
    {
        self.allocated
    }

    /// Return the total number of bytes in the heap.
    pub fn stats_total_bytes(&self) -> (r: usize)
        ensures
            r == self.total_bytes(),
    {
        self.total
    }

    /// Push block `b` of class `c`, whose bytes are not free, onto its list.
    fn push_block(&mut self, c: usize, b: usize)
        requires
            old(self).wf(),
            c < ORDER,
            placed(b as int, c as int),
            forall|a: int| in_block(b as int, c as int, a) ==> !old(self).is_free(a),
        ensures
            final(self).wf(),
            forall|a: int|
                final(self).is_free(a) <==> (old(self).is_free(a) || in_block(
                    b as int,
                    c as int,
                    a,
                )),
            final(self).lists() == old(self).lists().update(
                c as int,
                old(self).lists()[c as int].push(b),
            ),
            final(self).free_bytes() == old(self).free_bytes() + block_len(c as int),
            final(self).user == old(self).user,
            final(self).allocated == old(self).allocated,
            final(self).total == old(self).total,
    {
        let ghost l = self.lists();
        self.free_list[c].push(b);
        proof {
            assert(self.lists() =~= l.update(c as int, l[c as int].push(b)));
            lemma_push(l, c as int, b);
            lemma_bytes_update(l, c as int, l[c as int].push(b), ORDER as int);
            let d = l[c as int].push(b).len() - l[c as int].len();
            let p = block_len(c as int);
            assert(d * p == p) by (nonlinear_arith)
                requires
                    d == 1,
            ;
        }
    }

    /// Pop the last block of list `c`.
    fn pop_block(&mut self, c: usize) -> (r: usize)
        requires
            old(self).wf(),
            c < ORDER,
            old(self).lists()[c as int].len() > 0,
        ensures
            final(self).wf(),
            r == old(self).lists()[c as int].last(),
            placed(r as int, c as int),
            forall|a: int| in_block(r as int, c as int, a) ==> old(self).is_free(a),
            forall|a: int|
                final(self).is_free(a) <==> (old(self).is_free(a) && !in_block(
                    r as int,
                    c as int,
                    a,
                )),
            final(self).lists() == old(self).lists().update(
                c as int,
                old(self).lists()[c as int].drop_last(),
            ),
            final(self).free_bytes() == old(self).free_bytes() - block_len(c as int),
            final(self).user == old(self).user,
            final(self).allocated == old(self).allocated,
            final(self).total == old(self).total,
    {
        let ghost l = self.lists();
        let ghost n = l[c as int].len() as int;
        proof {
            assert(l[c as int] == self.free_list@[c as int]@);
        }
        let r = match self.free_list[c].pop() {
            Some(b) => b,
            None => 0,
        };
        proof {
            assert(l[c as int].drop_last() =~= l[c as int].remove(n - 1));
            assert(self.lists() =~= l.update(c as int, l[c as int].drop_last()));
            lemma_remove(l, c as int, n - 1);
            lemma_bytes_update(l, c as int, l[c as int].drop_last(), ORDER as int);
            let d = l[c as int].drop_last().len() - l[c as int].len();
            let p = block_len(c as int);
            assert(d * p == -p) by (nonlinear_arith)
                requires
                    d == -1,
            ;
            assert(placed(l[c as int][n - 1] as int, c as int));
            assert forall|a: int| in_block(r as int, c as int, a) implies old(self).is_free(a) by {
                reveal(free_at);
                assert(in_block(l[c as int][n - 1] as int, c as int, a));
            }
        }
        r
    }

    /// Add a range of memory [start, end) to the heap.
    ///
    /// Both ends are first moved inwards to multiples of the word size; the range in
    /// between is then cut into the largest aligned blocks that fit.
    #[verifier::spinoff_prover]
    pub fn add_to_heap(&mut self, start: usize, end: usize)
        requires
            old(self).wf(),
            start <= usize::MAX - 7,
            word_align_up(start as int) <= word_align_down(end as int),
            word_align_down(end as int) + 8 <= usize::MAX,
            !holds_oversized_block(word_align_up(start as int), word_align_down(end as int)),
            word_align_up(start as int) < word_align_down(end as int) ==> 0 < word_align_up(
                start as int,
            ),
            forall|a: int|
                word_align_up(start as int) <= a < word_align_down(end as int) ==> !old(
                    self,
                ).is_free(a),
            old(self).total_bytes() + word_align_down(end as int) - word_align_up(start as int)
                <= usize::MAX,
        ensures
            final(self).wf(),
            forall|a: int|
                final(self).is_free(a) <==> (old(self).is_free(a) || (word_align_up(start as int)
                    <= a < word_align_down(end as int))),
            final(self).total_bytes() == old(self).total_bytes() + word_align_down(end as int)
                - word_align_up(start as int),
            final(self).free_bytes() == old(self).free_bytes() + word_align_down(end as int)
                - word_align_up(start as int),
            final(self).user_bytes() == old(self).user_bytes(),
            final(self).allocated_bytes() == old(self).allocated_bytes(),
            old(self).balanced() ==> final(self).balanced(),
            final(self).lists() == cut(
                old(self).lists(),
                word_align_up(start as int),
                word_align_down(end as int),
            ),
    {
        let up: usize = start + 7;
        let start_aligned = up & !7usize;
        let end_aligned = end & !7usize;
        proof {
            assert(up & !7usize == up - up % 8) by (bit_vector);
            assert(end & !7usize == end - end % 8) by (bit_vector);
            assert(start_aligned as int == word_align_up(start as int));
            assert(end_aligned as int == word_align_down(end as int));
        }
        let start = start_aligned;
        let end = end_aligned;
        let mut total: usize = 0;
        let mut current_start = start;
        proof {
            lemma2_to64();
        }
        while current_start + WORD <= end
            invariant
                self.wf(),
                start <= current_start <= end,
                current_start % 8 == 0,
                end % 8 == 0,
                end + 8 <= usize::MAX,
                !holds_oversized_block(start as int, end as int),
                start < end ==> 0 < start,
                total == current_start - start,
                self.free_bytes() == old(self).free_bytes() + total,
                cut(self.lists(), current_start as int, end as int) == cut(old(self).lists(), start as int, end as int),
                forall|a: int| start <= a < end ==> !old(self).is_free(a),
                forall|a: int|
                    self.is_free(a) <==> (old(self).is_free(a) || (start <= a < current_start)),
                self.user == old(self).user,
                self.allocated == old(self).allocated,
                self.total == old(self).total,
            decreases end - current_start,
        {
            assert((current_start as int) % 0x1_0000_0000 != 0 || end - current_start < 0x1_0000_0000);
            let (class, size) = largest_block(current_start, end - current_start);
            let ghost before = self.lists();
            proof {
                assert(is_largest_block(current_start as int, (end - current_start) as int, class as nat));
                let c = largest_class(current_start as int, (end - current_start) as int);
                assert(is_largest_block(current_start as int, (end - current_start) as int, c));
                lemma_largest_unique(current_start as int, (end - current_start) as int, c, class as nat);
                lemma_pow2_pos(c);
            }
            proof {
                assert forall|a: int| in_block(current_start as int, class as int, a) implies !self.is_free(a) by {}
            }
            total = total + size;
            self.push_block(class, current_start);
            proof {
                assert(cut(before, current_start as int, end as int) == cut(self.lists(), current_start + size, end as int));
            }
            current_start = current_start + size;
        }
        assert(current_start == end);
        assert(cut(self.lists(), current_start as int, end as int) == self.lists());
        self.set_stats(self.user, self.allocated, self.total + total);
    }

    /// Alloc a range of memory from the heap satisfying a request of `size` bytes aligned to
    /// `align`.
    ///
    /// The request is served by a block of `2^alloc_class(size, align)` bytes: the smallest
    /// free block of that class or above is split in halves until it has that size.
    pub fn allocate(&mut self, size: usize, align: usize) -> (r: Result<usize, AllocErr>)
        requires
            old(self).wf(),
            is_power_of_two(align as nat),
            size <= usize::MAX / 2 + 1,
            align <= usize::MAX / 2 + 1,
            alloc_class(size as nat, align as nat) < ORDER ==> old(self).user_bytes() + size
                <= usize::MAX && old(self).allocated_bytes() + block_len(
                alloc_class(size as nat, align as nat) as int,
            ) <= usize::MAX,
        ensures
            final(self).wf(),
            r is Ok <==> (alloc_class(size as nat, align as nat) < ORDER && old(
                self,
            ).has_block_from(alloc_class(size as nat, align as nat) as int)),
            r is Err ==> *final(self) == *old(self),
            r matches Ok(p) ==> {
                let c = alloc_class(size as nat, align as nat) as int;
                &&& placed(p as int, c)
                &&& forall|a: int| in_block(p as int, c, a) ==> old(self).is_free(a)
                &&& forall|a: int|
                    final(self).is_free(a) <==> (old(self).is_free(a) && !in_block(
                        p as int,
                        c,
                        a,
                    ))
                &&& final(self).user_bytes() == old(self).user_bytes() + size
                &&& final(self).allocated_bytes() == old(self).allocated_bytes() + block_len(c)
                &&& final(self).total_bytes() == old(self).total_bytes()
                &&& final(self).free_bytes() == old(self).free_bytes() - block_len(c)
                &&& p == old(self).lists()[first_nonempty_from(old(self).lists(), c)].last()
                &&& final(self).lists() == split_lists(
                    old(self).lists(),
                    first_nonempty_from(old(self).lists(), c),
                    c,
                )
            },
            old(self).balanced() ==> final(self).balanced(),
    {
        let class = size_class(size, align);
        let mut i = class;
        while i < ORDER
            invariant
                *self == *old(self),
                self.wf(),
                class == alloc_class(size as nat, align as nat),
                class < ORDER ==> old(self).user_bytes() + size <= usize::MAX && old(
                    self,
                ).allocated_bytes() + block_len(class as int) <= usize::MAX,
                class <= i,
                forall|j: int| class <= j < i ==> #[trigger] old(self).lists()[j].len() == 0,
            decreases ORDER - i,
        {
            proof {
                assert(self.lists()[i as int] == self.free_list@[i as int]@);
            }
            if self.free_list[i].len() > 0 {
                let ghost b0 = self.lists()[i as int].last();
                proof {
                    reveal(free_at);
                    let n = self.lists()[i as int].len() - 1;
                    assert(placed(self.lists()[i as int][n] as int, i as int));
                    assert forall|a: int| in_block(b0 as int, i as int, a) implies old(
                        self,
                    ).is_free(a) by {
                        assert(in_block(self.lists()[i as int][n] as int, i as int, a));
                    }
                    assert(old(self).lists()[i as int].len() > 0);
                    lemma_first_nonempty(old(self).lists(), class as int, i as int);
                    assert(self.lists() =~~= split_upto(old(self).lists(), i as int, i as int, b0));
                }
                let mut j = i;
                while j > class
                    invariant
                        self.wf(),
                        class <= j <= i < ORDER,
                        self.lists()[j as int].len() > 0,
                        self.lists()[j as int].last() == b0,
                        placed(b0 as int, i as int),
                        forall|a: int| self.is_free(a) <==> old(self).is_free(a),
                        self.free_bytes() == old(self).free_bytes(),
                        self.lists() == split_upto(old(self).lists(), i as int, j as int, b0),
                        b0 == old(self).lists()[i as int].last(),
                        forall|a: int| in_block(b0 as int, j as int, a) ==> old(self).is_free(a),
                        self.user == old(self).user,
                        self.allocated == old(self).allocated,
                        self.total == old(self).total,
                    decreases j,
                {
                    let block = self.pop_block(j);
                    let half = pow2_usize(j - 1);
                    proof {
                        lemma_pow2_unfold(j as nat);
                        lemma_pow2_pos((j - 1) as nat);
                        lemma_aligned_smaller(block as int, j as nat, (j - 1) as nat);
                        assert((block + half) % (half as int) == 0) by {
                            vstd::arithmetic::div_mod::lemma_mod_adds(block as int, half as int, half as int);
                            vstd::arithmetic::div_mod::lemma_mod_self_0(half as int);
                        }
                    }
                    self.push_block(j - 1, block + half);
                    self.push_block(j - 1, block);
                    proof {
                        assert(self.lists()[(j - 1) as int].last() == block);
                        assert(self.lists() =~~= split_upto(old(self).lists(), i as int, (j - 1) as int, b0));
                    }
                    j = j - 1;
                }
                let result = self.pop_block(class);
                proof {
                    assert(self.lists() =~~= split_lists(old(self).lists(), i as int, class as int));
                }
                let s = pow2_usize(class);
                self.set_stats(self.user + size, self.allocated + s, self.total);
                return Ok(result);
            }
            i = i + 1;
        }
        Err(AllocErr)
    }

    /// Dealloc a range of memory from the heap: the block of `2^alloc_class(size, align)`
    /// bytes at `ptr` goes back to its list and is merged with its free buddy, class by class.
    pub fn dealloc(&mut self, ptr: usize, size: usize, align: usize)
        requires
            old(self).wf(),
            is_power_of_two(align as nat),
            size <= usize::MAX / 2 + 1,
            align <= usize::MAX / 2 + 1,
            alloc_class(size as nat, align as nat) < ORDER,
            placed(ptr as int, alloc_class(size as nat, align as nat) as int),
            forall|a: int|
                in_block(ptr as int, alloc_class(size as nat, align as nat) as int, a) ==> !old(
                    self,
                ).is_free(a),
            !old(self).top_buddy_free(ptr as int),
            old(self).user_bytes() >= size,
            old(self).allocated_bytes() >= block_len(alloc_class(size as nat, align as nat) as int),
        ensures
            final(self).wf(),
            forall|a: int|
                final(self).is_free(a) <==> (old(self).is_free(a) || in_block(
                    ptr as int,
                    alloc_class(size as nat, align as nat) as int,
                    a,
                )),
            final(self).user_bytes() == old(self).user_bytes() - size,
            final(self).allocated_bytes() == old(self).allocated_bytes() - block_len(
                alloc_class(size as nat, align as nat) as int,
            ),
            final(self).total_bytes() == old(self).total_bytes(),
            final(self).free_bytes() == old(self).free_bytes() + block_len(
                alloc_class(size as nat, align as nat) as int,
            ),
            old(self).balanced() ==> final(self).balanced(),
            final(self).lists() == merged(
                old(self).lists(),
                ptr as int,
                alloc_class(size as nat, align as nat) as int,
            ),
            final(self).has_block_from(alloc_class(size as nat, align as nat) as int),
            forall|c: int| 0 <= c && old(self).has_block_from(c) ==> #[trigger] final(self).has_block_from(c),
    {
        let class = size_class(size, align);
        let ghost top = (ORDER - 1) as int;
        // Put back into free list
        self.push_block(class, ptr);
        let ghost target = merged(old(self).lists(), ptr as int, class as int);
        proof {
            lemma_pow2_pos(class as nat);
            assert(self.lists()[class as int].len() > 0);
            assert forall|c: int| 0 <= c && old(self).has_block_from(c) implies #[trigger] self.has_block_from(c) by {
                let i = choose|i: int| c <= i < ORDER && #[trigger] old(self).lists()[i].len() > 0;
                assert(self.lists()[i].len() > 0);
            }
        }
        // Merge free buddy lists
        let mut current_ptr = ptr;
        let mut current_class = class;
        let mut merging = true;
        while merging && current_class < ORDER
            invariant
                self.wf(),
                class <= current_class < ORDER,
                top == ORDER - 1,
                class == alloc_class(size as nat, align as nat),
                self.lists()[current_class as int].len() > 0,
                self.lists()[current_class as int].last() == current_ptr,
                placed(current_ptr as int, current_class as int),
                in_block(current_ptr as int, current_class as int, ptr as int),
                current_class < top ==> self.lists()[top] == old(self).lists()[top],
                current_class == top ==> self.lists()[top] == old(self).lists()[top].push(
                    current_ptr,
                ),
                !old(self).top_buddy_free(ptr as int),
                forall|a: int|
                    self.is_free(a) <==> (old(self).is_free(a) || in_block(
                        ptr as int,
                        class as int,
                        a,
                    )),
                self.user == old(self).user,
                self.allocated == old(self).allocated,
                self.total == old(self).total,
                self.free_bytes() == old(self).free_bytes() + block_len(class as int),
                merging ==> merge_from(self.lists(), current_ptr as int, current_class as int) == target,
                !merging ==> self.lists() == target,
                forall|c: int| 0 <= c && old(self).has_block_from(c) ==> #[trigger] self.has_block_from(c),
                self.has_block_from(class as int),
            decreases ORDER - current_class, if merging {
                1int
            } else {
                0int
            },
        {
            let ghost lists0 = self.lists();
            let ghost head = *self;
            let unit = pow2_usize(current_class);
            proof {
                lemma_buddy(current_ptr as int, current_class as nat);
                vstd::bits::lemma_usize_shr_is_div(current_ptr, current_class);
                let v = current_ptr >> current_class;
                assert(v & 1 == v % 2) by (bit_vector);
            }
            // The buddy is `current_ptr ^ unit`: the address with the class bit flipped.
            let buddy = if (current_ptr >> current_class) & 1 == 0 {
                current_ptr + unit
            } else {
                current_ptr - unit
            };
            assert(buddy as int == buddy_of(current_ptr as int, current_class as nat));
            let len = self.free_list[current_class].len();
            proof {
                assert(self.lists()[current_class as int] == self.free_list@[current_class as int]@);
            }
            let mut k: usize = 0;
            let mut found = false;
            while k < len && !found
                invariant
                    len == self.lists()[current_class as int].len(),
                    current_class < ORDER,
                    self.free_list@.len() == ORDER,
                    self.lists()[current_class as int] == self.free_list@[current_class as int]@,
                    k <= len,
                    found ==> k < len && self.lists()[current_class as int][k as int] == buddy,
                    forall|j: int|
                        0 <= j < k ==> #[trigger] self.lists()[current_class as int][j] != buddy,
                decreases len - k, if found {
                    0int
                } else {
                    1int
                },
            {
                if self.free_list[current_class][k] == buddy {
                    found = true;
                } else {
                    k = k + 1;
                }
            }
            proof {
                if found {
                    lemma_first_at(lists0[current_class as int], buddy as int, k as int);
                } else {
                    lemma_first_at(lists0[current_class as int], buddy as int, len as int);
                }
            }
            if found {
                proof {
                    assert(buddy != current_ptr) by {
                        lemma_pow2_pos(current_class as nat);
                    }
                    assert(k < len - 1);
                    if current_class == top {
                        assert(old(self).lists()[top][k as int] == buddy);
                        let q = current_ptr as int;
                        assert(current_class as nat == (ORDER - 1) as nat);
                        assert(buddy_of(q, current_class as nat) == buddy_of(q, (ORDER - 1) as nat));
                        assert(old(self).lists()[top][k as int] as int == buddy_of(
                            q,
                            (ORDER - 1) as nat,
                        ));
                        assert(old(self).top_buddy_free(ptr as int));
                    }
                }
                let ghost before = self.lists()[current_class as int];
                let b = self.remove_block(current_class, k);
                proof {
                    assert(self.lists()[current_class as int] == before.remove(k as int));
                    assert(self.lists()[current_class as int].last() == current_ptr);
                }
                let c = self.pop_block(current_class);
                proof {
                    lemma_buddy(current_ptr as int, current_class as nat);
                    lemma_pow2_unfold((current_class + 1) as nat);
                }
                current_ptr = if current_ptr < buddy {
                    current_ptr
                } else {
                    buddy
                };
                let ghost q = current_ptr;
                current_class = current_class + 1;
                proof {
                    lemma_pow2_pos((current_class - 1) as nat);
                    assert forall|a: int| in_block(current_ptr as int, current_class as int, a) implies !self.is_free(a) by {
                        assert(in_block(b as int, (current_class - 1) as int, a) || in_block(
                            c as int,
                            (current_class - 1) as int,
                            a,
                        ));
                    }
                }
                self.push_block(current_class, current_ptr);
                proof {
                    let cc = current_class - 1;
                    let l2 = lists0.update(cc, lists0[cc].remove(k as int).drop_last());
                    assert(self.lists() =~= l2.update(cc + 1, l2[cc + 1].push(q)));
                    assert forall|c: int| 0 <= c && old(self).has_block_from(c) implies #[trigger] self.has_block_from(c) by {
                        assert(head.has_block_from(c));
                        let i = choose|i: int| c <= i < ORDER && #[trigger] lists0[i].len() > 0;
                        if i == cc || i == cc + 1 {
                            assert(self.lists()[cc + 1].len() > 0);
                        } else {
                            assert(self.lists()[i] == lists0[i]);
                            assert(self.lists()[i].len() > 0);
                        }
                    }
                    assert(self.lists()[cc + 1].len() > 0);
                }
            } else {
                merging = false;
            }
        }
        let unit = pow2_usize(class);
        let ghost merged_heap = *self;
        self.set_stats(self.user - size, self.allocated - unit, self.total);
        proof {
            assert forall|c: int| 0 <= c && old(self).has_block_from(c) implies #[trigger] self.has_block_from(c) by {
                assert(merged_heap.has_block_from(c));
                let i = choose|i: int| c <= i < ORDER && #[trigger] merged_heap.lists()[i].len() > 0;
                assert(self.lists()[i].len() > 0);
            }
            let i = choose|i: int| class <= i < ORDER && #[trigger] merged_heap.lists()[i].len() > 0;
            assert(self.lists()[i].len() > 0);
        }
    }

    /// Remove the entry at `k` of list `c`.
    fn remove_block(&mut self, c: usize, k: usize) -> (r: usize)
        requires
            old(self).wf(),
            c < ORDER,
            k < old(self).lists()[c as int].len(),
        ensures
            final(self).wf(),
            r == old(self).lists()[c as int][k as int],
            placed(r as int, c as int),
            forall|a: int| in_block(r as int, c as int, a) ==> old(self).is_free(a),
            forall|a: int|
                final(self).is_free(a) <==> (old(self).is_free(a) && !in_block(
                    r as int,
                    c as int,
                    a,
                )),
            final(self).lists() == old(self).lists().update(
                c as int,
                old(self).lists()[c as int].remove(k as int),
            ),
            final(self).free_bytes() == old(self).free_bytes() - block_len(c as int),
            final(self).user == old(self).user,
            final(self).allocated == old(self).allocated,
            final(self).total == old(self).total,
    {
        let ghost l = self.lists();
        proof {
            assert(l[c as int] == self.free_list@[c as int]@);
        }
        let r = self.free_list[c].remove(k);
        proof {
            assert(self.lists() =~= l.update(c as int, l[c as int].remove(k as int)));
            lemma_remove(l, c as int, k as int);
            lemma_bytes_update(l, c as int, l[c as int].remove(k as int), ORDER as int);
            let d = l[c as int].remove(k as int).len() - l[c as int].len();
            let p = block_len(c as int);
            assert(d * p == -p) by (nonlinear_arith)
                requires
                    d == -1,
            ;
            assert(placed(l[c as int][k as int] as int, c as int));
            assert forall|a: int| in_block(r as int, c as int, a) implies old(self).is_free(a) by {
                reveal(free_at);
                assert(in_block(l[c as int][k as int] as int, c as int, a));
            }
        }
        r
    }

    /// Replace the three counters, leaving the free lists as they are.
    fn set_stats(&mut self, user: usize, allocated: usize, total: usize)
        requires
            old(self).wf(),
        ensures
            final(self).wf(),
            final(self).lists() == old(self).lists(),
            forall|a: int| final(self).is_free(a) == old(self).is_free(a),
            final(self).user == user,
            final(self).allocated == allocated,
            final(self).total == total,
    {
        let ghost prev = *self;
        self.user = user;
        self.allocated = allocated;
        self.total = total;
        assert(self.lists() == prev.lists());
    }

    /// Add a range of memory [start, start + size) to the heap.
    pub fn init(&mut self, start: usize, size: usize)
        requires
            old(self).wf(),
            start + size <= usize::MAX,
            start <= usize::MAX - 7,
            word_align_up(start as int) <= word_align_down(start + size),
            word_align_down(start + size) + 8 <= usize::MAX,
            !holds_oversized_block(word_align_up(start as int), word_align_down(start + size)),
            word_align_up(start as int) < word_align_down(start + size) ==> 0 < word_align_up(
                start as int,
            ),
            forall|a: int|
                word_align_up(start as int) <= a < word_align_down(start + size) ==> !old(
                    self,
                ).is_free(a),
            old(self).total_bytes() + word_align_down(start + size) - word_align_up(start as int)
                <= usize::MAX,
        ensures
            final(self).wf(),
            forall|a: int|
                final(self).is_free(a) <==> (old(self).is_free(a) || (word_align_up(start as int)
                    <= a < word_align_down(start + size))),
            final(self).total_bytes() == old(self).total_bytes() + word_align_down(start + size)
                - word_align_up(start as int),
            final(self).free_bytes() == old(self).free_bytes() + word_align_down(start + size)
                - word_align_up(start as int),
            final(self).user_bytes() == old(self).user_bytes(),
            final(self).allocated_bytes() == old(self).allocated_bytes(),
            old(self).balanced() ==> final(self).balanced(),
            final(self).lists() == cut(
                old(self).lists(),
                word_align_up(start as int),
                word_align_down(start + size),
            ),
    {
        self.add_to_heap(start, start + size);
    }
}

/// Giving back a block that `allocate` took, with the same request of class `c`, leaves the
/// lists those before the allocation with the taken block merged with its free buddies from
/// the class it was taken at; so every range of classes that held a block before still does,
/// and a request that could be served before can be served again.
pub proof fn law_allocate_dealloc_blocks(h0: Heap, h1: Heap, h2: Heap, p: usize, c: int)
    requires
        h0.wf(),
        0 <= c < ORDER,
        h0.has_block_from(c),
        p == h0.lists()[first_nonempty_from(h0.lists(), c)].last(),
        h1.lists() == split_lists(h0.lists(), first_nonempty_from(h0.lists(), c), c),
        h2.lists() == merged(h1.lists(), p as int, c),
    ensures
        h2.lists() == merge_from(h0.lists(), p as int, first_nonempty_from(h0.lists(), c)),
        forall|d: int| 0 <= d && h0.has_block_from(d) ==> #[trigger] h2.has_block_from(d),
{
    let l0 = h0.lists();
    assert(l0.len() == ORDER);
    assert(lists_have_from(l0, c));
    lemma_first_nonempty_found(l0, c);
    let i = first_nonempty_from(l0, c);
    let pushed = h1.lists().update(c, h1.lists()[c].push(p));
    if c == i {
        assert(l0[i].drop_last().push(p) =~= l0[i]);
        assert(pushed =~~= l0);
        assert(split_upto(l0, i, i, p) =~~= l0);
    } else {
        assert(pushed =~~= split_upto(l0, i, c, p));
    }
    lemma_split_merge(l0, i, c, p);
    lemma_merge_keeps_blocks(l0, p as int, i);
    assert forall|d: int| 0 <= d && h0.has_block_from(d) implies #[trigger] h2.has_block_from(d) by {
        assert(lists_have_from(l0, d));
        assert(lists_have_from(h2.lists(), d));
        let j = choose|j: int| d <= j < ORDER && #[trigger] h2.lists()[j].len() > 0;
    }
}

/// The bytes of the first `n` lists are never negative.
proof fn lemma_bytes_nonneg(lists: Seq<Seq<usize>>, n: int)
    ensures
        bytes_upto(lists, n) >= 0,
    decreases n,
{
    if n > 0 {
        lemma_bytes_nonneg(lists, n - 1);
        lemma_pow2_pos((n - 1) as nat);
        let a = lists[n - 1].len() as int;
        let p = block_len(n - 1);
        assert(a * p >= 0) by (nonlinear_arith)
            requires
                a >= 0,
                p > 0,
        ;
    }
}

/// A heap holds no negative number of free bytes.
pub proof fn lemma_free_bytes_nonneg(h: Heap)
    ensures
        h.free_bytes() >= 0,
{
    lemma_bytes_nonneg(h.lists(), ORDER as int);
}

/// Whether `[start, end)` holds a block of `2^32` bytes aligned to its size. Cut into the
/// largest aligned blocks, such a range gives a block above the largest size class.
pub open spec fn holds_oversized_block(start: int, end: int) -> bool {
    exists|m: int| start <= m && m + 0x1_0000_0000 <= end && #[trigger] (m % 0x1_0000_0000) == 0
}

/// Whether the word-aligned range `[start, end)` can be added to a heap: it holds no block
/// of `2^32` bytes aligned to its size.
pub fn fits_size_classes(start: usize, end: usize) -> (r: bool)
    requires
        start <= end,
    ensures
        r == !holds_oversized_block(start as int, end as int),
{
    let s = start as u128;
    let e = end as u128;
    let rem = s % 0x1_0000_0000;
    let first = if rem == 0 {
        s
    } else {
        s - rem + 0x1_0000_0000
    };
    let r = first + 0x1_0000_0000 > e;
    proof {
        assert(first % 0x1_0000_0000 == 0);
        if !r {
            assert(start as int <= first && first + 0x1_0000_0000 <= end as int && (first as int) % 0x1_0000_0000 == 0);
        } else {
            assert forall|m: int| start <= m && m + 0x1_0000_0000 <= end implies #[trigger] (m % 0x1_0000_0000) != 0 by {
                if m % 0x1_0000_0000 == 0 {
                    assert(first <= m);
                }
            }
        }
    }
    r
}

/// The size class that serves a request of `size` bytes aligned to `align`.
fn size_class(size: usize, align: usize) -> (c: usize)
    requires
        size <= usize::MAX / 2 + 1,
        align <= usize::MAX / 2 + 1,
    ensures
        c == alloc_class(size as nat, align as nat),
{
    let (a, _) = ceil_log2_exec(size);
    let (b, _) = ceil_log2_exec(align);
    let m = if a >= b {
        a
    } else {
        b
    };
    if m >= 3 {
        m
    } else {
        3
    }
}

/// The largest block that starts at `start` (a multiple of `WORD`), fits in `len` bytes and
/// is aligned to its own size: the smaller of the lowest set bit of `start` and the largest
/// power of two not above `len`. Returns its class and size.
fn largest_block(start: usize, len: usize) -> (r: (usize, usize))
    requires
        start % 8 == 0,
        8 <= len,
        (start as int) % 0x1_0000_0000 != 0 || len < 0x1_0000_0000,
    ensures
        r.0 < ORDER,
        r.1 == pow2(r.0 as nat),
        8 <= r.1 <= len,
        start % r.1 == 0,
        r.1 % 8 == 0,
        is_largest_block(start as int, len as int, r.0 as nat),
{
    let (mut class, mut size) = floor_log2_exec(len);
    proof {
        lemma2_to64();
        if class < 3 {
            if class < 2 {
                vstd::arithmetic::power2::lemma_pow2_strictly_increases(class as nat, 2);
            }
        }
        if class > 3 {
            vstd::arithmetic::power2::lemma_pow2_strictly_increases(3, class as nat);
        }
    }
    while start % size != 0
        invariant
            size == pow2(class as nat),
            8 <= size <= len,
            start % 8 == 0,
            2 * size > len || (start as int) % (2 * size) != 0,
        decreases size,
    {
        proof {
            lemma2_to64();
            if class < 4 {
                if class < 3 {
                    vstd::arithmetic::power2::lemma_pow2_strictly_increases(class as nat, 3);
                }
            }
            assert(class >= 4);
            lemma_pow2_unfold(class as nat);
            if class > 4 {
                vstd::arithmetic::power2::lemma_pow2_strictly_increases(3, (class - 1) as nat);
            }
        }
        size = size / 2;
        class = class - 1;
    }
    proof {
        lemma2_to64();
        if class >= 32 {
            lemma_aligned_smaller(start as int, class as nat, 32);
            if class > 32 {
                vstd::arithmetic::power2::lemma_pow2_strictly_increases(32, class as nat);
            }
        }
        if class < 3 {
            vstd::arithmetic::power2::lemma_pow2_strictly_increases(class as nat, 3);
        }
        lemma_aligned_smaller(size as int, class as nat, 3);
    }
    (class, size)
}

} // verus!
