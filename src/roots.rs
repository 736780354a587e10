use vstd::prelude::*;

verus! {

/// Bound below which the root searches work without overflow.
pub const ROOT_INPUT_LIMIT: u128 = 0x4000_0000_0000_0000_0000_0000_0000_0000;

/// `r` is the integer square root of `n`, rounded down.
pub open spec fn is_floor_sqrt(n: int, r: int) -> bool {
    0 <= r && r * r <= n < (r + 1) * (r + 1)
}

/// `r` is the integer cube root of `n`, rounded down.
pub open spec fn is_floor_cbrt(n: int, r: int) -> bool {
    0 <= r && r * r * r <= n < (r + 1) * (r + 1) * (r + 1)
}

/// The integer square root of `n`, rounded down.
pub open spec fn floor_sqrt(n: int) -> int {
    choose|r: int| is_floor_sqrt(n, r)
}

/// The floor square root is unique.
pub proof fn lemma_floor_sqrt_unique(n: int, r: int, s: int)
    requires
        is_floor_sqrt(n, r),
        is_floor_sqrt(n, s),
    ensures
        r == s,
{
    if r < s {
        assert((r + 1) * (r + 1) <= s * s) by (nonlinear_arith)
            requires
                0 <= r,
                r + 1 <= s,
        ;
    } else if s < r {
        assert((s + 1) * (s + 1) <= r * r) by (nonlinear_arith)
            requires
                0 <= s,
                s + 1 <= r,
        ;
    }
}

/// Any witness of the floor square root is the one `floor_sqrt` names.
pub proof fn lemma_floor_sqrt_is(n: int, r: int)
    requires
        is_floor_sqrt(n, r),
    ensures
        floor_sqrt(n) == r,
{
    let s = floor_sqrt(n);
    assert(is_floor_sqrt(n, s));
    lemma_floor_sqrt_unique(n, r, s);
}

/// Integer square root of `n`, rounded down, by bisection.
pub fn isqrt(n: u128) -> (r: u128)
    requires
        n < ROOT_INPUT_LIMIT,
    ensures
        is_floor_sqrt(n as int, r as int),
        r as int == floor_sqrt(n as int),
{
    let mut lo: u128 = 0;
    let mut hi: u128 = 0x8000_0000_0000_0000;
    assert(hi * hi == ROOT_INPUT_LIMIT);
    while hi - lo > 1
        invariant
            lo < hi <= 0x8000_0000_0000_0000,
            lo * lo <= n,
            n < hi * hi,
        decreases hi - lo,
    {
        let mid: u128 = lo + (hi - lo) / 2;
        assert(mid * mid < 0x4000_0000_0000_0000_0000_0000_0000_0000) by (nonlinear_arith)
            requires
                mid < 0x8000_0000_0000_0000,
        ;
        if mid * mid <= n {
            lo = mid;
        } else {
            hi = mid;
        }
    }
    assert(hi == lo + 1);
    proof {
        lemma_floor_sqrt_is(n as int, lo as int);
    }
    lo
}

/// Integer cube root of `n`, rounded down, by bisection.
pub fn icbrt(n: u128) -> (r: u128)
    requires
        n < ROOT_INPUT_LIMIT,
    ensures
        is_floor_cbrt(n as int, r as int),
{
    let mut lo: u128 = 0;
    let mut hi: u128 = 0x400_0000_0000;
    assert(hi * hi * hi == ROOT_INPUT_LIMIT);
    while hi - lo > 1
        invariant
            lo < hi <= 0x400_0000_0000,
            lo * lo * lo <= n,
            n < hi * hi * hi,
        decreases hi - lo,
    {
        let mid: u128 = lo + (hi - lo) / 2;
        assert(mid * mid * mid < 0x4000_0000_0000_0000_0000_0000_0000_0000) by (nonlinear_arith)
            requires
                mid < 0x400_0000_0000,
        ;
        assert(mid * mid < 0x10_0000_0000_0000_0000_0000) by (nonlinear_arith)
            requires
                mid < 0x400_0000_0000,
        ;
        if mid * mid * mid <= n {
            lo = mid;
        } else {
            hi = mid;
        }
    }
    assert(hi == lo + 1);
    lo
}

} // verus!
