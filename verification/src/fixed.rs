//! Fixed-point arithmetic shared by the controller.
//!
//! Every fractional quantity of the controller (angles in radians, lengths,
//! speeds, multipliers, seconds, pointer counts) is held as a whole number of
//! millionths. This module has the constant that fixes that scale and the few
//! operations that are not plain integer arithmetic: saturation into 64 bits,
//! division rounded toward zero, and the integer square root.

use vstd::arithmetic::div_mod::{lemma_fundamental_div_mod, lemma_mod_bound};
use vstd::prelude::*;

verus! {

/// The number that stands for one whole: a quantity `q` is stored as `q * UNIT`.
pub const UNIT: i64 = 1_000_000;

/// `x` brought into the range of `i64`: out-of-range values stick to the nearest bound.
pub open spec fn saturate(x: int) -> int {
    if x < i64::MIN as int {
        i64::MIN as int
    } else if x > i64::MAX as int {
        i64::MAX as int
    } else {
        x
    }
}

/// The quotient of `n` by a positive `d`, rounded toward zero.
pub open spec fn toward_zero(n: int, d: int) -> int
    recommends
        d > 0,
{
    if n >= 0 {
        n / d
    } else {
        -((-n) / d)
    }
}

/// `x` brought into `[lo, hi]`.
pub open spec fn clamp_between(x: int, lo: int, hi: int) -> int
    recommends
        lo <= hi,
{
    if x < lo {
        lo
    } else if x > hi {
        hi
    } else {
        x
    }
}

/// `r` is the square root of `n`, rounded down.
pub open spec fn is_floor_sqrt(r: nat, n: nat) -> bool {
    r * r <= n < (r + 1) * (r + 1)
}

/// The square root of `n`, rounded down.
pub open spec fn floor_sqrt(n: nat) -> nat {
    choose|r: nat| is_floor_sqrt(r, n)
}

/// Squaring keeps the order of natural numbers.
pub proof fn lemma_square_monotonic(a: nat, b: nat)
    requires
        a <= b,
    ensures
        a * a <= b * b,
{
    assert(a * a <= b * b) by (nonlinear_arith)
        requires
            a <= b,
    ;
}

/// At most one number is the rounded-down square root of `n`, so whoever
/// exhibits one has found `floor_sqrt(n)`.
pub proof fn lemma_floor_sqrt_unique(r: nat, n: nat)
    requires
        is_floor_sqrt(r, n),
    ensures
        floor_sqrt(n) == r,
{
    let s = floor_sqrt(n);
    if s < r {
        lemma_square_monotonic(s + 1, r);
    } else if r < s {
        lemma_square_monotonic(r + 1, s);
    }
}

/// Every natural number has a rounded-down square root.
pub proof fn lemma_floor_sqrt_exists(n: nat)
    ensures
        is_floor_sqrt(floor_sqrt(n), n),
    decreases n,
{
    if n == 0 {
        assert(is_floor_sqrt(0, 0)) by (nonlinear_arith);
    } else {
        lemma_floor_sqrt_exists((n - 1) as nat);
        let r = floor_sqrt((n - 1) as nat);
        if (r + 1) * (r + 1) <= n {
            assert((r + 1) * (r + 1) < (r + 2) * (r + 2)) by (nonlinear_arith);
            assert(is_floor_sqrt(r + 1, n));
        } else {
            assert(is_floor_sqrt(r, n));
        }
    }
}

/// Rounding a quotient toward zero moves it by less than one: the rounded
/// quotient times the divisor differs from the dividend by less than the
/// divisor, and lies on the same side of zero.
pub proof fn lemma_toward_zero_error(n: int, d: int)
    requires
        d > 0,
    ensures
        n >= 0 ==> 0 <= n - toward_zero(n, d) * d < d,
        n <= 0 ==> -d < n - toward_zero(n, d) * d <= 0,
{
    if n >= 0 {
        lemma_fundamental_div_mod(n, d);
        lemma_mod_bound(n, d);
        assert(d * (n / d) == (n / d) * d) by (nonlinear_arith);
    } else {
        lemma_fundamental_div_mod(-n, d);
        lemma_mod_bound(-n, d);
        assert(d * ((-n) / d) == ((-n) / d) * d) by (nonlinear_arith);
        assert((-((-n) / d)) * d == -(((-n) / d) * d)) by (nonlinear_arith);
    }
}

/// Narrows a wide intermediate result to 64 bits, sticking at the bounds.
pub fn saturating(x: i128) -> (r: i64)
    ensures
        r == saturate(x as int),
{
    if x < i64::MIN as i128 {
        i64::MIN
    } else if x > i64::MAX as i128 {
        i64::MAX
    } else {
        x as i64
    }
}

/// The sum of two 64-bit quantities, sticking at the bounds.
pub fn saturating_sum(a: i64, b: i64) -> (r: i64)
    ensures
        r == saturate(a + b),
{
    saturating(a as i128 + b as i128)
}

/// The difference of two 64-bit quantities, sticking at the bounds.
pub fn saturating_difference(a: i64, b: i64) -> (r: i64)
    ensures
        r == saturate(a - b),
{
    saturating(a as i128 - b as i128)
}

/// Divides by a positive number and rounds toward zero, so that a quantity
/// and its negation lose the same fraction.
pub fn div_toward_zero(n: i128, d: i128) -> (q: i128)
    requires
        d > 0,
    ensures
        q == toward_zero(n as int, d as int),
{
    n / d
}

/// The integer square root: the largest `r` whose square does not exceed `n`.
pub fn isqrt(n: u128) -> (r: u64)
    ensures
        is_floor_sqrt(r as nat, n as nat),
        r == floor_sqrt(n as nat),
{
    let mut lo: u128 = 0;
    let mut hi: u128 = 0x1_0000_0000_0000_0000;
    while hi - lo > 1
        invariant
            lo < hi <= 0x1_0000_0000_0000_0000,
            lo * lo <= n,
            n < hi * hi,
        decreases hi - lo,
    {
        let mid: u128 = lo + (hi - lo) / 2;
        assert(mid * mid <= 0xffff_ffff_ffff_ffff * 0xffff_ffff_ffff_ffff) by (nonlinear_arith)
            requires
                mid <= 0xffff_ffff_ffff_ffff,
        ;
        if mid * mid <= n {
            lo = mid;
        } else {
            hi = mid;
        }
    }
    proof {
        lemma_floor_sqrt_unique(lo as nat, n as nat);
    }
    lo as u64
}

} // verus!
