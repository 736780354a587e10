use vstd::prelude::*;
use vstd::arithmetic::power2::pow2;

use crate::roots::{floor_sqrt, is_floor_sqrt, isqrt, lemma_floor_sqrt_is};
use crate::units::{div_toward_zero, lemma_scaled_between, scaled, ONE};

verus! {

/// Number of binary digits of the fractional part of an exponent that the power of two honours.
pub const FRACTION_DIGITS: u64 = 30;

/// `2^(-2^-i)` in billionths: one half for `i == 0`, and each further one the square root of
/// the previous, rounded down.
pub open spec fn half_root(i: nat) -> int
    decreases i,
{
    if i == 0 {
        ONE / 2
    } else {
        floor_sqrt(half_root((i - 1) as nat) * ONE)
    }
}

/// Remainder left after the first `i` binary digits of the fraction `r / h` (long division).
pub open spec fn frac_rem(r: int, h: int, i: nat) -> int
    decreases i,
{
    if i == 0 {
        r
    } else {
        let x = 2 * frac_rem(r, h, (i - 1) as nat);
        if x >= h {
            x - h
        } else {
            x
        }
    }
}

/// The `i`-th binary digit after the point (counting from 1) of the fraction `r / h`.
pub open spec fn frac_digit(r: int, h: int, i: nat) -> bool
    recommends
        i >= 1,
{
    2 * frac_rem(r, h, (i - 1) as nat) >= h
}

/// `2^(-r/h)` in billionths over the first `i` binary digits of `r / h`: the product of
/// `half_root(k)` over the digits `k` that are one, truncated after each factor.
pub open spec fn frac_pow(r: int, h: int, i: nat) -> int
    decreases i,
{
    if i == 0 {
        ONE as int
    } else {
        let f = frac_pow(r, h, (i - 1) as nat);
        if frac_digit(r, h, i) {
            scaled(f, half_root(i))
        } else {
            f
        }
    }
}

/// `2^(-d/h)` in billionths: the whole halvings `d / h` applied to the power of the fraction.
pub open spec fn decay_factor(d: int, h: int) -> int
    recommends
        d >= 0,
        h > 0,
{
    frac_pow(d % h, h, FRACTION_DIGITS as nat) / (pow2((d / h) as nat) as int)
}

/// Every non-negative integer has a floor square root.
pub proof fn lemma_floor_sqrt_exists(n: int) -> (r: int)
    requires
        n >= 0,
    ensures
        is_floor_sqrt(n, r),
    decreases n,
{
    if n == 0 {
        0
    } else {
        let s = lemma_floor_sqrt_exists(n - 1);
        if (s + 1) * (s + 1) <= n {
            let t = s + 1;
            assert(n < (t + 1) * (t + 1)) by (nonlinear_arith)
                requires
                    s >= 0,
                    t == s + 1,
                    n - 1 < t * t,
            ;
            t
        } else {
            s
        }
    }
}

/// Each `half_root` lies between one billionth and one.
pub proof fn lemma_half_root_bounds(i: nat)
    ensures
        1 <= half_root(i) <= ONE,
    decreases i,
{
    if i > 0 {
        let p = half_root((i - 1) as nat);
        lemma_half_root_bounds((i - 1) as nat);
        let n = p * ONE;
        assert(ONE <= n <= ONE * ONE) by (nonlinear_arith)
            requires
                1 <= p <= ONE,
                n == p * ONE,
        ;
        let r = lemma_floor_sqrt_exists(n);
        lemma_floor_sqrt_is(n, r);
        assert(1 <= r <= ONE) by (nonlinear_arith)
            requires
                r >= 0,
                r * r <= n,
                n < (r + 1) * (r + 1),
                ONE <= n <= ONE * ONE,
        ;
    }
}

/// The remainders of the long division stay below the divisor.
pub proof fn lemma_frac_rem_bounds(r: int, h: int, i: nat)
    requires
        0 <= r < h,
    ensures
        0 <= frac_rem(r, h, i) < h,
    decreases i,
{
    if i > 0 {
        lemma_frac_rem_bounds(r, h, (i - 1) as nat);
    }
}

/// The power of the fraction lies between zero and one.
pub proof fn lemma_frac_pow_bounds(r: int, h: int, i: nat)
    ensures
        0 <= frac_pow(r, h, i) <= ONE,
    decreases i,
{
    if i > 0 {
        lemma_frac_pow_bounds(r, h, (i - 1) as nat);
        let f = frac_pow(r, h, (i - 1) as nat);
        if frac_digit(r, h, i) {
            lemma_half_root_bounds(i);
            lemma_scaled_between(f, half_root(i));
        }
    }
}

/// A fraction of zero leaves the power at one.
pub proof fn lemma_frac_pow_zero(h: int, i: nat)
    requires
        h > 0,
    ensures
        frac_rem(0, h, i) == 0,
        frac_pow(0, h, i) == ONE,
    decreases i,
{
    if i > 0 {
        lemma_frac_pow_zero(h, (i - 1) as nat);
    }
}

/// An exposure of a whole number `k` of half-lives leaves exactly `1 / 2^k`.
pub proof fn lemma_whole_halvings(k: nat, h: int)
    requires
        h > 0,
    ensures
        decay_factor(k * h, h) == (ONE as int) / (pow2(k) as int),
{
    vstd::arithmetic::div_mod::lemma_fundamental_div_mod_converse(k * h, h, k as int, 0);
    lemma_frac_pow_zero(h, FRACTION_DIGITS as nat);
}

/// The factor lies between zero and one.
pub proof fn lemma_decay_bounds(d: int, h: int)
    requires
        d >= 0,
        h > 0,
    ensures
        0 <= decay_factor(d, h) <= ONE,
{
    lemma_frac_pow_bounds(d % h, h, FRACTION_DIGITS as nat);
    let f = frac_pow(d % h, h, FRACTION_DIGITS as nat);
    let k = (d / h) as nat;
    vstd::arithmetic::power2::lemma_pow2_pos(k);
    vstd::arithmetic::div_mod::lemma_div_is_ordered_by_denominator(f, 1, pow2(k) as int);
    vstd::arithmetic::div_mod::lemma_div_pos_is_pos(f, pow2(k) as int);
}

/// One more half-life halves the factor, rounded down.
pub proof fn lemma_decay_next_half_life(d: int, h: int)
    requires
        d >= 0,
        h > 0,
    ensures
        decay_factor(d + h, h) == decay_factor(d, h) / 2,
{
    vstd::arithmetic::div_mod::lemma_fundamental_div_mod(d, h);
    vstd::arithmetic::div_mod::lemma_mod_pos_bound(d, h);
    vstd::arithmetic::div_mod::lemma_div_pos_is_pos(d, h);
    let q = d / h;
    assert((q + 1) * h == h * q + h) by (nonlinear_arith);
    vstd::arithmetic::div_mod::lemma_fundamental_div_mod_converse(
        d + h,
        h,
        d / h + 1,
        d % h,
    );
    lemma_frac_pow_bounds(d % h, h, FRACTION_DIGITS as nat);
    lemma_halve_step(frac_pow(d % h, h, FRACTION_DIGITS as nat), (d / h) as nat);
}

/// Halving `f` once more divides it by the next power of two.
proof fn lemma_halve_step(f: int, k: nat)
    requires
        f >= 0,
    ensures
        (f / (pow2(k) as int)) / 2 == f / (pow2(k + 1) as int),
{
    vstd::arithmetic::power2::lemma_pow2_pos(k);
    vstd::arithmetic::power2::lemma_pow2_unfold(k + 1);
    vstd::arithmetic::div_mod::lemma_div_denominator(f, pow2(k) as int, 2);
}

/// Once halving has reached zero, further halvings stay at zero.
proof fn lemma_halve_exhausted(f: int, k: nat, n: nat)
    requires
        f >= 0,
        k <= n,
        f / (pow2(k) as int) == 0,
    ensures
        f / (pow2(n) as int) == 0,
{
    vstd::arithmetic::power2::lemma_pow2_pos(k);
    vstd::arithmetic::div_mod::lemma_fundamental_div_mod(f, pow2(k) as int);
    vstd::arithmetic::div_mod::lemma_mod_pos_bound(f, pow2(k) as int);
    if k < n {
        vstd::arithmetic::power2::lemma_pow2_strictly_increases(k, n);
    }
    vstd::arithmetic::div_mod::lemma_basic_div(f, pow2(n) as int);
}

/// `2^(-d/h)` in billionths, for a non-negative exponent numerator `d` and a positive `h`.
pub fn power_of_half(d: i64, h: i64) -> (r: i64)
    requires
        d >= 0,
        h > 0,
    ensures
        r == decay_factor(d as int, h as int),
        0 <= r <= ONE,
{
    let whole: i64 = d / h;
    let part: i64 = d % h;
    let mut rem: i128 = part as i128;
    let mut f: i128 = ONE as i128;
    let mut root: i128 = (ONE / 2) as i128;
    let mut i: u64 = 1;
    proof {
        lemma_half_root_bounds(0);
    }
    while i <= FRACTION_DIGITS
        invariant
            1 <= i <= FRACTION_DIGITS + 1,
            0 <= part < h,
            rem == frac_rem(part as int, h as int, (i - 1) as nat),
            f == frac_pow(part as int, h as int, (i - 1) as nat),
            root == half_root((i - 1) as nat),
        decreases FRACTION_DIGITS + 1 - i,
    {
        proof {
            lemma_frac_rem_bounds(part as int, h as int, (i - 1) as nat);
            lemma_frac_pow_bounds(part as int, h as int, (i - 1) as nat);
            lemma_half_root_bounds((i - 1) as nat);
            lemma_half_root_bounds(i as nat);
            assert(0 <= root * ONE <= ONE * ONE) by (nonlinear_arith)
                requires
                    1 <= root <= ONE,
            ;
        }
        root = isqrt((root * (ONE as i128)) as u128) as i128;
        let x: i128 = 2 * rem;
        if x >= h as i128 {
            rem = x - h as i128;
            proof {
                assert(0 <= f * root <= ONE * ONE) by (nonlinear_arith)
                    requires
                        0 <= f <= ONE,
                        1 <= root <= ONE,
                ;
            }
            f = div_toward_zero(f * root, ONE as i128);
        } else {
            rem = x;
        }
        i = i + 1;
    }
    proof {
        lemma_frac_pow_bounds(part as int, h as int, FRACTION_DIGITS as nat);
        vstd::arithmetic::power2::lemma_pow2_pos(0);
        assert(pow2(0) == 1) by {
            vstd::arithmetic::power2::lemma2_to64();
        }
    }
    let ghost full = f as int;
    assert(full / (pow2(0) as int) == full);
    let mut k: i64 = 0;
    while k < whole && f > 0
        invariant
            0 <= k <= whole,
            full >= 0,
            0 <= f <= full,
            f == full / (pow2(k as nat) as int),
        decreases whole - k,
    {
        proof {
            lemma_halve_step(full, k as nat);
        }
        f = f / 2;
        k = k + 1;
    }
    proof {
        if k < whole {
            lemma_halve_exhausted(full, k as nat, whole as nat);
        }
    }
    f as i64
}

} // verus!
