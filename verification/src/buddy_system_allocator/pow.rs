//! Powers of two and base-2 logarithms used to size heap blocks.
use vstd::arithmetic::power2::{
    lemma2_to64, lemma_pow2_adds, lemma_pow2_pos, lemma_pow2_strictly_increases,
    lemma_pow2_unfold, pow2,
};
use vstd::prelude::*;

verus! {

/// Whether `e` is the smallest exponent with `x <= 2^e`.
pub open spec fn is_ceil_log2(x: nat, e: nat) -> bool {
    &&& x <= pow2(e)
    &&& (e == 0 || pow2((e - 1) as nat) < x)
}

/// The smallest exponent `e` with `x <= 2^e`.
pub open spec fn ceil_log2(x: nat) -> nat {
    choose|e: nat| is_ceil_log2(x, e)
}

/// Whether `e` is the exponent of the largest power of two that is at most `x`.
pub open spec fn is_floor_log2(x: nat, e: nat) -> bool {
    pow2(e) <= x < 2 * pow2(e)
}

/// If `e1 < e2` then `2^(e2 - 1) >= 2^e1`.
pub proof fn lemma_pow2_le_pred(e1: nat, e2: nat)
    requires
        e1 < e2,
    ensures
        pow2(e1) <= pow2((e2 - 1) as nat),
{
    if e1 < e2 - 1 {
        lemma_pow2_strictly_increases(e1, (e2 - 1) as nat);
    }
}

/// The smallest exponent with `x <= 2^e` is unique.
pub proof fn lemma_ceil_log2_unique(x: nat, e1: nat, e2: nat)
    requires
        is_ceil_log2(x, e1),
        is_ceil_log2(x, e2),
    ensures
        e1 == e2,
{
    if e1 < e2 {
        lemma_pow2_le_pred(e1, e2);
    } else if e2 < e1 {
        lemma_pow2_le_pred(e2, e1);
    }
}

/// An exponent that meets the definition is the one `ceil_log2` picks.
pub proof fn lemma_ceil_log2_is(x: nat, e: nat)
    requires
        is_ceil_log2(x, e),
    ensures
        ceil_log2(x) == e,
{
    lemma_ceil_log2_unique(x, ceil_log2(x), e);
}

/// The exponent of a power of two is its ceiling logarithm.
pub proof fn lemma_ceil_log2_of_pow2(e: nat)
    ensures
        ceil_log2(pow2(e)) == e,
{
    if e > 0 {
        lemma_pow2_strictly_increases((e - 1) as nat, e);
    }
    lemma_ceil_log2_is(pow2(e), e);
}

/// A value aligned to `2^i` is aligned to every smaller power of two.
pub proof fn lemma_aligned_smaller(b: int, i: nat, j: nat)
    requires
        j <= i,
        b % (pow2(i) as int) == 0,
    ensures
        b % (pow2(j) as int) == 0,
{
    lemma_pow2_adds(j, (i - j) as nat);
    assert(pow2(i) == pow2(j) * pow2((i - j) as nat));
    lemma_pow2_pos(j);
    lemma_pow2_pos((i - j) as nat);
    let pj = pow2(j) as int;
    let pk = pow2((i - j) as nat) as int;
    assert(b % (pj * pk) == 0);
    vstd::arithmetic::div_mod::lemma_mod_mod(b, pj, pk);
    assert((b % (pj * pk)) % pj == b % pj);
}

/// Exponents below 32 give powers of two that fit in `usize`, and shifting one left by
/// them yields those powers.
pub proof fn lemma_pow2_small(e: nat)
    requires
        e < 32,
    ensures
        pow2(e) <= 0x8000_0000,
        pow2(e) < usize::MAX,
{
    lemma2_to64();
    if e < 31 {
        lemma_pow2_strictly_increases(e, 31);
    }
}

/// The address space size `usize::MAX + 1` is a multiple of `2^e` for `e <= 32`.
pub proof fn lemma_space_aligned(e: nat)
    requires
        e <= 32,
    ensures
        (usize::MAX + 1) % (pow2(e) as int) == 0,
{
    lemma2_to64();
    assert(usize::MAX == 0xffff_ffff || usize::MAX == 0xffff_ffff_ffff_ffff);
    assert((usize::MAX + 1) % 0x1_0000_0000 == 0);
    lemma_aligned_smaller(usize::MAX + 1, 32, e);
}

/// A block of class `e` at `x` is the lower half of a block of class `e + 1` when `x / 2^e`
/// is even, and its upper half otherwise.
pub proof fn lemma_buddy(x: int, e: nat)
    requires
        x >= 0,
        e < 32,
        x % (pow2(e) as int) == 0,
        x + pow2(e) <= usize::MAX + 1,
    ensures
        pow2(e + 1) == 2 * pow2(e),
        (x / (pow2(e) as int)) % 2 == 0 ==> x % (2 * pow2(e) as int) == 0 && x + 2 * pow2(e)
            <= usize::MAX + 1,
        (x / (pow2(e) as int)) % 2 != 0 ==> x >= pow2(e) && (x - pow2(e)) % (2 * pow2(e) as int)
            == 0,
{
    let d = pow2(e) as int;
    lemma_pow2_unfold(e + 1);
    lemma_pow2_pos(e);
    lemma_space_aligned(e + 1);
    let m = usize::MAX + 1;
    let k = x / d;
    vstd::arithmetic::div_mod::lemma_fundamental_div_mod(x, d);
    assert(x == d * k);
    vstd::arithmetic::div_mod::lemma_fundamental_div_mod(m, 2 * d);
    let t = m / (2 * d);
    assert(m == 2 * d * t);
    if k % 2 == 0 {
        let j = k / 2;
        assert(x == (2 * d) * j) by (nonlinear_arith)
            requires
                x == d * k,
                k == 2 * j,
        ;
        vstd::arithmetic::div_mod::lemma_mod_multiples_basic(j, 2 * d);
        assert(j * (2 * d) == (2 * d) * j) by (nonlinear_arith);
        assert(x + 2 * d <= m) by (nonlinear_arith)
            requires
                x == (2 * d) * j,
                m == 2 * d * t,
                x + d <= m,
                d > 0,
        {
            if j >= t {
                assert((2 * d) * j >= (2 * d) * t) by (nonlinear_arith)
                    requires
                        j >= t,
                        d > 0,
                ;
            }
        }
    } else {
        let j = k / 2;
        assert(x - d == (2 * d) * j) by (nonlinear_arith)
            requires
                x == d * k,
                k == 2 * j + 1,
        ;
        assert(j >= 0) by (nonlinear_arith)
            requires
                x == d * k,
                x >= 0,
                d > 0,
                k == 2 * j + 1,
        {
            if k < 0 {
                assert(d * k < 0) by (nonlinear_arith)
                    requires
                        d > 0,
                        k < 0,
                ;
            }
        }
        vstd::arithmetic::div_mod::lemma_mod_multiples_basic(j, 2 * d);
        assert(j * (2 * d) == (2 * d) * j) by (nonlinear_arith);
        assert(x >= d) by (nonlinear_arith)
            requires
                x - d == (2 * d) * j,
                j >= 0,
                d > 0,
        ;
    }
}

/// `2^e` computed as a `usize` by shifting one left.
pub fn pow2_usize(e: usize) -> (r: usize)
    requires
        e < 32,
    ensures
        r == pow2(e as nat),
{
    proof {
        lemma_pow2_small(e as nat);
        vstd::bits::lemma_usize_shl_is_mul(1, e);
    }
    1usize << e
}

/// The smallest `e` (with its power `2^e`) such that `x <= 2^e`.
pub fn ceil_log2_exec(x: usize) -> (r: (usize, usize))
    requires
        x <= usize::MAX / 2 + 1,
    ensures
        r.1 == pow2(r.0 as nat),
        is_ceil_log2(x as nat, r.0 as nat),
        r.0 == ceil_log2(x as nat),
{
    let mut e: usize = 0;
    let mut p: usize = 1;
    proof {
        lemma2_to64();
    }
    while p < x
        invariant
            x <= usize::MAX / 2 + 1,
            p == pow2(e as nat),
            e == 0 || pow2((e - 1) as nat) < x,
            e <= p,
            p >= 1,
        decreases usize::MAX - p,
    {
        proof {
            lemma_pow2_unfold((e + 1) as nat);
        }
        p = p * 2;
        e = e + 1;
    }
    proof {
        lemma_ceil_log2_is(x as nat, e as nat);
    }
    (e, p)
}

/// The exponent `e` and power `2^e` of the largest power of two that is at most `x`.
pub fn floor_log2_exec(x: usize) -> (r: (usize, usize))
    requires
        x > 0,
    ensures
        r.1 == pow2(r.0 as nat),
        is_floor_log2(x as nat, r.0 as nat),
{
    let mut e: usize = 0;
    let mut p: usize = 1;
    proof {
        lemma2_to64();
    }
    while p <= x / 2
        invariant
            x > 0,
            p == pow2(e as nat),
            p <= x,
            e <= p,
            p >= 1,
        decreases x - p,
    {
        proof {
            lemma_pow2_unfold((e + 1) as nat);
        }
        p = p * 2;
        e = e + 1;
    }
    (e, p)
}

/// The largest power of two that is at most `num`.
pub fn prev_power_of_two(num: usize) -> (r: usize)
    requires
        num > 0,
    ensures
        exists|e: nat| r == pow2(e) && #[trigger] is_floor_log2(num as nat, e),
{
    let (e, p) = floor_log2_exec(num);
    assert(is_floor_log2(num as nat, e as nat));
    p
}

} // verus!
