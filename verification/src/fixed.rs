//! Fixed-point arithmetic: six decimal places in an `i64`.

use vstd::prelude::*;

verus! {

/// The fixed-point representation of 1.
pub const UNIT: i64 = 1_000_000;

/// `v` brought into the range of an `i64`.
pub open spec fn saturated(v: int) -> int {
    if v < i64::MIN {
        i64::MIN as int
    } else if v > i64::MAX {
        i64::MAX as int
    } else {
        v
    }
}

/// `v` brought into `[lo, hi]`; the lower bound is tested first.
pub open spec fn clamped(v: int, lo: int, hi: int) -> int {
    if v < lo {
        lo
    } else if v > hi {
        hi
    } else {
        v
    }
}

/// The distance of `v` from zero.
pub open spec fn magnitude(v: int) -> int {
    if v < 0 {
        -v
    } else {
        v
    }
}

/// `a / b` rounded toward zero, for a positive divisor.
pub open spec fn quotient(a: int, b: int) -> int {
    if a >= 0 {
        a / b
    } else {
        -((-a) / b)
    }
}

/// `a / b` rounded away from zero, for a positive divisor: nothing but zero
/// becomes zero.
pub open spec fn quotient_away(a: int, b: int) -> int {
    if a >= 0 {
        (a + b - 1) / b
    } else {
        -((-a + b - 1) / b)
    }
}

/// A quotient rounded away from zero is no further from zero than the
/// dividend, and has its sign.
pub proof fn lemma_quotient_away_bounds(a: int, b: int)
    requires
        b >= 1,
    ensures
        a > 0 ==> 1 <= quotient_away(a, b) <= a,
        a == 0 ==> quotient_away(a, b) == 0,
        a < 0 ==> a <= quotient_away(a, b) <= -1,
{
    assert(a > 0 ==> 1 <= (a + b - 1) / b <= a) by (nonlinear_arith)
        requires
            b >= 1,
    ;
    assert(a < 0 ==> 1 <= (-a + b - 1) / b <= -a) by (nonlinear_arith)
        requires
            b >= 1,
    ;
    assert(a == 0 ==> (a + b - 1) / b == 0) by (nonlinear_arith)
        requires
            b >= 1,
    ;
}

/// A quotient rounded away from zero grows with the dividend, and by at
/// least one for every whole divisor that the dividend grows by.
pub proof fn lemma_quotient_away_monotonic(a: int, c: int, b: int)
    requires
        b >= 1,
        0 <= a <= c,
    ensures
        quotient_away(a, b) <= quotient_away(c, b),
        a + b <= c ==> quotient_away(a, b) < quotient_away(c, b),
{
    assert((a + b - 1) / b <= (c + b - 1) / b) by (nonlinear_arith)
        requires
            b >= 1,
            0 <= a <= c,
    ;
    assert(a + b <= c ==> (a + b - 1) / b < (c + b - 1) / b) by (nonlinear_arith)
        requires
            b >= 1,
            0 <= a <= c,
    ;
}

/// `r` is the integer part of the square root of `n`.
pub open spec fn is_floor_sqrt(n: int, r: int) -> bool {
    0 <= r && r * r <= n < (r + 1) * (r + 1)
}

/// The integer part of the square root of `n` (meaningful for `n >= 0`).
pub open spec fn floor_sqrt(n: int) -> int {
    choose|r: int| is_floor_sqrt(n, r)
}

/// The integer square root is unique, so any witness is `floor_sqrt(n)`.
pub proof fn lemma_floor_sqrt_unique(n: int, r: int)
    requires
        is_floor_sqrt(n, r),
    ensures
        floor_sqrt(n) == r,
{
    let s = floor_sqrt(n);
    assert(is_floor_sqrt(n, s));
    assert(s == r) by (nonlinear_arith)
        requires
            0 <= r,
            0 <= s,
            r * r <= n < (r + 1) * (r + 1),
            s * s <= n < (s + 1) * (s + 1),
    ;
}

/// The integer square root grows with its argument.
pub proof fn lemma_floor_sqrt_monotonic(m: int, n: int)
    requires
        0 <= m <= n,
    ensures
        0 <= floor_sqrt(m) <= floor_sqrt(n),
{
    lemma_floor_sqrt_exists(m);
    lemma_floor_sqrt_exists(n);
    let r = floor_sqrt(m);
    let s = floor_sqrt(n);
    assert(r <= s) by (nonlinear_arith)
        requires
            0 <= r,
            0 <= s,
            r * r <= m,
            m <= n,
            n < (s + 1) * (s + 1),
    ;
}

/// Every natural number has an integer square root.
pub proof fn lemma_floor_sqrt_exists(n: int)
    requires
        0 <= n,
    ensures
        is_floor_sqrt(n, floor_sqrt(n)),
    decreases n,
{
    if n == 0 {
        assert(is_floor_sqrt(0, 0));
    } else {
        lemma_floor_sqrt_exists(n - 1);
        let r = floor_sqrt(n - 1);
        if (r + 1) * (r + 1) <= n {
            assert((r + 1) * (r + 1) == n);
            assert(n < (r + 2) * (r + 2)) by (nonlinear_arith)
                requires
                    0 <= r,
                    (r + 1) * (r + 1) == n,
            ;
            assert(is_floor_sqrt(n, r + 1));
        } else {
            assert(is_floor_sqrt(n, r));
        }
    }
}

/// A number that holds the square of `r` has a square root of at least `r`.
pub proof fn lemma_floor_sqrt_at_least(n: int, r: int)
    requires
        0 <= r,
        r * r <= n,
    ensures
        floor_sqrt(n) >= r,
{
    assert(0 <= r * r) by (nonlinear_arith);
    lemma_floor_sqrt_monotonic(r * r, n);
    lemma_floor_sqrt_of_square(r);
}

/// The square root of a perfect square.
pub proof fn lemma_floor_sqrt_of_square(r: int)
    requires
        0 <= r,
    ensures
        floor_sqrt(r * r) == r,
{
    assert(r * r < (r + 1) * (r + 1)) by (nonlinear_arith)
        requires
            0 <= r,
    ;
    lemma_floor_sqrt_unique(r * r, r);
}

/// Brings a wide intermediate result back into an `i64`.
pub fn saturate(v: i128) -> (r: i64)
    ensures
        r == saturated(v as int),
{
    if v < i64::MIN as i128 {
        i64::MIN
    } else if v > i64::MAX as i128 {
        i64::MAX
    } else {
        v as i64
    }
}

/// Brings a wide intermediate result into `[lo, hi]`.
pub fn clamp(v: i128, lo: i64, hi: i64) -> (r: i64)
    ensures
        r == clamped(v as int, lo as int, hi as int),
{
    if v < lo as i128 {
        lo
    } else if v > hi as i128 {
        hi
    } else {
        v as i64
    }
}

/// The exact product of two `i64` values.
pub fn product(a: i64, b: i64) -> (p: i128)
    ensures
        p == a * b,
{
    assert(-0x4000_0000_0000_0000_0000_0000_0000_0000 <= a * b
        <= 0x4000_0000_0000_0000_0000_0000_0000_0000) by (nonlinear_arith)
        requires
            -0x8000_0000_0000_0000 <= a <= 0x8000_0000_0000_0000,
            -0x8000_0000_0000_0000 <= b <= 0x8000_0000_0000_0000,
    ;
    (a as i128) * (b as i128)
}

/// The integer part of the square root of `n`.
pub fn isqrt(n: u64) -> (r: u64)
    ensures
        is_floor_sqrt(n as int, r as int),
        r == floor_sqrt(n as int),
        r < 0x1_0000_0000,
{
    let mut lo: u64 = 0;
    let mut hi: u64 = 0x1_0000_0000;
    assert(0x1_0000_0000 * 0x1_0000_0000 > n) by (nonlinear_arith)
        requires
            n <= 0xffff_ffff_ffff_ffff,
    ;
    while hi - lo > 1
        invariant
            lo < hi <= 0x1_0000_0000,
            lo * lo <= n < hi * hi,
        decreases hi - lo,
    {
        let mid: u64 = lo + (hi - lo) / 2;
        assert(mid * mid <= 0xffff_ffff_ffff_ffff) by (nonlinear_arith)
            requires
                0 <= mid < 0x1_0000_0000,
        ;
        if mid * mid <= n {
            lo = mid;
        } else {
            hi = mid;
        }
    }
    proof {
        assert(hi == lo + 1);
        lemma_floor_sqrt_unique(n as int, lo as int);
    }
    lo
}

} // verus!
