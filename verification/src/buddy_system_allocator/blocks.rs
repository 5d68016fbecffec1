//! Free blocks of the buddy heap, described as size classes of block start addresses.
//!
//! A block of class `c` starting at `b` covers the bytes `[b, b + 2^c)`.
use vstd::arithmetic::power2::{lemma_pow2_pos, pow2};
use vstd::prelude::*;

verus! {

/// Number of bytes in a block of class `c`.
pub open spec fn block_len(c: int) -> int {
    pow2(c as nat) as int
}

/// Whether the byte `a` lies in the block of class `c` that starts at `b`.
pub open spec fn in_block(b: int, c: int, a: int) -> bool {
    b <= a && a < b + block_len(c)
}

/// Whether two blocks share no byte.
pub open spec fn apart(b1: int, c1: int, b2: int, c2: int) -> bool {
    b1 + block_len(c1) <= b2 || b2 + block_len(c2) <= b1
}

/// Whether the block of class `c` at `b` is aligned to its size, starts above zero and
/// ends within the address space.
pub open spec fn placed(b: int, c: int) -> bool {
    &&& 0 < b
    &&& b % block_len(c) == 0
    &&& b + block_len(c) <= usize::MAX + 1
}

/// Whether the byte `a` lies in some block of the lists `l` (list `c` holds blocks of class `c`).
#[verifier::opaque]
pub open spec fn free_at(l: Seq<Seq<usize>>, a: int) -> bool {
    exists|c: int, k: int|
        0 <= c < l.len() && 0 <= k < l[c].len() && #[trigger] in_block(l[c][k] as int, c, a)
}

/// Whether any two distinct entries of the lists are blocks that share no byte.
#[verifier::opaque]
pub open spec fn pairwise_apart(l: Seq<Seq<usize>>) -> bool {
    forall|c1: int, k1: int, c2: int, k2: int|
        0 <= c1 < l.len() && 0 <= k1 < l[c1].len() && 0 <= c2 < l.len() && 0 <= k2 < l[c2].len()
            && (c1 != c2 || k1 != k2) ==> #[trigger] apart(
            l[c1][k1] as int,
            c1,
            l[c2][k2] as int,
            c2,
        )
}

/// Whether every block of the lists is placed.
pub open spec fn all_placed(l: Seq<Seq<usize>>) -> bool {
    forall|c: int, k: int|
        0 <= c < l.len() && 0 <= k < l[c].len() ==> #[trigger] placed(l[c][k] as int, c)
}

/// Two blocks that are apart hold no common byte.
pub proof fn lemma_apart_no_common(b1: int, c1: int, b2: int, c2: int, a: int)
    requires
        apart(b1, c1, b2, c2),
        in_block(b1, c1, a),
    ensures
        !in_block(b2, c2, a),
{
}

/// Two blocks that are not apart share a byte.
pub proof fn lemma_overlap_common(b1: int, c1: int, b2: int, c2: int)
    requires
        !apart(b1, c1, b2, c2),
        c1 >= 0,
        c2 >= 0,
    ensures
        in_block(b1, c1, if b1 <= b2 { b2 } else { b1 }),
        in_block(b2, c2, if b1 <= b2 { b2 } else { b1 }),
{
    lemma_pow2_pos(c1 as nat);
    lemma_pow2_pos(c2 as nat);
}

/// Pushing a block whose bytes are not free onto list `c` adds exactly its bytes and
/// keeps the blocks apart.
pub proof fn lemma_push(l: Seq<Seq<usize>>, c: int, x: usize)
    requires
        0 <= c < l.len(),
        pairwise_apart(l),
        forall|a: int| in_block(x as int, c, a) ==> !free_at(l, a),
    ensures
        pairwise_apart(l.update(c, l[c].push(x))),
        forall|a: int|
            free_at(l.update(c, l[c].push(x)), a) <==> (free_at(l, a) || in_block(
                x as int,
                c,
                a,
            )),
        all_placed(l) && placed(x as int, c) ==> all_placed(l.update(c, l[c].push(x))),
{
    reveal(free_at);
    reveal(pairwise_apart);
    let l2 = l.update(c, l[c].push(x));
    let n = l[c].len() as int;
    assert forall|a: int| free_at(l2, a) <==> (free_at(l, a) || in_block(x as int, c, a)) by {
        if free_at(l2, a) {
            let (c1, k1) = choose|c1: int, k1: int|
                0 <= c1 < l2.len() && 0 <= k1 < l2[c1].len() && #[trigger] in_block(
                    l2[c1][k1] as int,
                    c1,
                    a,
                );
            if c1 == c && k1 == n {
            } else {
                assert(l[c1][k1] == l2[c1][k1]);
                assert(in_block(l[c1][k1] as int, c1, a));
            }
        }
        if free_at(l, a) {
            let (c1, k1) = choose|c1: int, k1: int|
                0 <= c1 < l.len() && 0 <= k1 < l[c1].len() && #[trigger] in_block(
                    l[c1][k1] as int,
                    c1,
                    a,
                );
            assert(l2[c1][k1] == l[c1][k1]);
            assert(in_block(l2[c1][k1] as int, c1, a));
        }
        if in_block(x as int, c, a) {
            assert(l2[c][n] == x);
            assert(in_block(l2[c][n] as int, c, a));
        }
    }
    assert forall|c1: int, k1: int, c2: int, k2: int|
        0 <= c1 < l2.len() && 0 <= k1 < l2[c1].len() && 0 <= c2 < l2.len() && 0 <= k2
            < l2[c2].len() && (c1 != c2 || k1 != k2) implies #[trigger] apart(
        l2[c1][k1] as int,
        c1,
        l2[c2][k2] as int,
        c2,
    ) by {
        let new1 = c1 == c && k1 == n;
        let new2 = c2 == c && k2 == n;
        if !new1 && !new2 {
            assert(l2[c1][k1] == l[c1][k1]);
            assert(l2[c2][k2] == l[c2][k2]);
            assert(apart(l[c1][k1] as int, c1, l[c2][k2] as int, c2));
        } else if new1 {
            let b2 = l2[c2][k2] as int;
            assert(l2[c2][k2] == l[c2][k2]);
            if !apart(x as int, c, b2, c2) {
                lemma_overlap_common(x as int, c, b2, c2);
                let a = if x <= b2 {
                    b2
                } else {
                    x as int
                };
                assert(in_block(l[c2][k2] as int, c2, a));
                assert(free_at(l, a));
            }
        } else {
            let b1 = l2[c1][k1] as int;
            assert(l2[c1][k1] == l[c1][k1]);
            if !apart(b1, c1, x as int, c) {
                lemma_overlap_common(b1, c1, x as int, c);
                let a = if b1 <= x {
                    x as int
                } else {
                    b1
                };
                assert(in_block(l[c1][k1] as int, c1, a));
                assert(free_at(l, a));
            }
        }
    }
    if all_placed(l) && placed(x as int, c) {
        assert forall|c1: int, k1: int|
            0 <= c1 < l2.len() && 0 <= k1 < l2[c1].len() implies #[trigger] placed(
            l2[c1][k1] as int,
            c1,
        ) by {
            if c1 == c && k1 == n {
            } else {
                assert(l2[c1][k1] == l[c1][k1]);
            }
        }
    }
}

/// Removing an entry from list `c` takes exactly its bytes away and keeps the blocks apart.
pub proof fn lemma_remove(l: Seq<Seq<usize>>, c: int, k: int)
    requires
        0 <= c < l.len(),
        0 <= k < l[c].len(),
        pairwise_apart(l),
    ensures
        pairwise_apart(l.update(c, l[c].remove(k))),
        forall|a: int|
            free_at(l.update(c, l[c].remove(k)), a) <==> (free_at(l, a) && !in_block(
                l[c][k] as int,
                c,
                a,
            )),
        all_placed(l) ==> all_placed(l.update(c, l[c].remove(k))),
{
    reveal(free_at);
    reveal(pairwise_apart);
    let l2 = l.update(c, l[c].remove(k));
    let r = l[c][k] as int;
    assert forall|c1: int, k1: int|
        0 <= c1 < l2.len() && 0 <= k1 < l2[c1].len() implies l2[c1][k1] == l[c1][
        if c1 == c && k1 >= k {
            k1 + 1
        } else {
            k1
        }
    ] by {}
    assert forall|a: int| free_at(l2, a) <==> (free_at(l, a) && !in_block(r, c, a)) by {
        if free_at(l2, a) {
            let (c1, k1) = choose|c1: int, k1: int|
                0 <= c1 < l2.len() && 0 <= k1 < l2[c1].len() && #[trigger] in_block(
                    l2[c1][k1] as int,
                    c1,
                    a,
                );
            let j = if c1 == c && k1 >= k {
                k1 + 1
            } else {
                k1
            };
            assert(l2[c1][k1] == l[c1][j]);
            assert(in_block(l[c1][j] as int, c1, a));
            assert(apart(l[c1][j] as int, c1, l[c][k] as int, c));
            lemma_apart_no_common(l[c1][j] as int, c1, r, c, a);
        }
        if free_at(l, a) && !in_block(r, c, a) {
            let (c1, k1) = choose|c1: int, k1: int|
                0 <= c1 < l.len() && 0 <= k1 < l[c1].len() && #[trigger] in_block(
                    l[c1][k1] as int,
                    c1,
                    a,
                );
            assert(c1 != c || k1 != k);
            let j = if c1 == c && k1 > k {
                k1 - 1
            } else {
                k1
            };
            assert(l2[c1][j] == l[c1][k1]);
            assert(in_block(l2[c1][j] as int, c1, a));
        }
    }
    assert forall|c1: int, k1: int, c2: int, k2: int|
        0 <= c1 < l2.len() && 0 <= k1 < l2[c1].len() && 0 <= c2 < l2.len() && 0 <= k2
            < l2[c2].len() && (c1 != c2 || k1 != k2) implies #[trigger] apart(
        l2[c1][k1] as int,
        c1,
        l2[c2][k2] as int,
        c2,
    ) by {
        let j1 = if c1 == c && k1 >= k {
            k1 + 1
        } else {
            k1
        };
        let j2 = if c2 == c && k2 >= k {
            k2 + 1
        } else {
            k2
        };
        assert(l2[c1][k1] == l[c1][j1]);
        assert(l2[c2][k2] == l[c2][j2]);
        assert(apart(l[c1][j1] as int, c1, l[c2][j2] as int, c2));
    }
    if all_placed(l) {
        assert forall|c1: int, k1: int|
            0 <= c1 < l2.len() && 0 <= k1 < l2[c1].len() implies #[trigger] placed(
            l2[c1][k1] as int,
            c1,
        ) by {
            let j = if c1 == c && k1 >= k {
                k1 + 1
            } else {
                k1
            };
            assert(l2[c1][k1] == l[c1][j]);
        }
    }
}

} // verus!
