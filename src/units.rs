use vstd::prelude::*;

verus! {

/// Number of fixed-point units in one whole unit: pressures are held in nanobar and
/// dimensionless ratios in billionths.
pub const ONE: i64 = 1_000_000_000;

/// Largest magnitude, in nanobar, of a pressure that the tissue model accepts (100 000 bar).
pub const PRESSURE_LIMIT: i64 = 100_000_000_000_000;

/// Quotient of `n` by `d` rounded toward zero, as integer division does in executable code.
pub open spec fn quot(n: int, d: int) -> int
    recommends
        d != 0,
{
    let q = (if n >= 0 { n } else { -n }) / (if d >= 0 { d } else { -d });
    if (n >= 0) == (d > 0) || n == 0 {
        q
    } else {
        -q
    }
}

/// `x` scaled by the fixed-point ratio `f` (in billionths), rounded toward zero.
pub open spec fn scaled(x: int, f: int) -> int {
    quot(x * f, ONE as int)
}

/// The fixed-point ratio `x / y` in billionths, rounded toward zero.
pub open spec fn ratio_of(x: int, y: int) -> int
    recommends
        y != 0,
{
    quot(x * ONE, y)
}

/// A pressure that the tissue model can hold without overflow.
pub open spec fn pressure_in_range(p: int) -> bool {
    -PRESSURE_LIMIT <= p <= PRESSURE_LIMIT
}

/// An absolute or relative pressure, in nanobar.
#[derive(Clone, Copy, Debug, PartialEq, Eq, Structural)]
pub struct Pressure {
    pub nbar: i64,
}

/// A dimensionless fixed-point quantity, in billionths (`ONE` stands for 1.0).
#[derive(Clone, Copy, Debug, PartialEq, Eq, Structural)]
pub struct Ratio {
    pub nano: i128,
}

/// A span of time, in seconds.
#[derive(Clone, Copy, Debug, PartialEq, Eq, Structural)]
pub struct Time {
    pub secs: i64,
}

/// A depth below the surface, in millimetres.
#[derive(Clone, Copy, Debug, PartialEq, Eq, Structural)]
pub struct Depth {
    pub mm: i64,
}

/// A mass density, in milligrams per cubic metre.
#[derive(Clone, Copy, Debug, PartialEq, Eq, Structural)]
pub struct Density {
    pub mg_per_m3: i64,
}

/// A volume of gas, in nanolitres.
#[derive(Clone, Copy, Debug, PartialEq, Eq, Structural)]
pub struct Volume {
    pub nl: i64,
}

/// A volume flow, in microlitres per minute.
#[derive(Clone, Copy, Debug, PartialEq, Eq, Structural)]
pub struct VolumeRate {
    pub ul_per_min: i64,
}

impl Pressure {
    /// A pressure of `nbar` nanobar.
    pub fn from_nbar(nbar: i64) -> (r: Pressure)
        ensures
            r.nbar == nbar,
    {
        Pressure { nbar }
    }
}

impl Ratio {
    /// A ratio of `nano` billionths.
    pub fn from_nano(nano: i128) -> (r: Ratio)
        ensures
            r.nano == nano,
    {
        Ratio { nano }
    }
}

impl Time {
    /// A span of `secs` seconds.
    pub fn from_secs(secs: i64) -> (r: Time)
        ensures
            r.secs == secs,
    {
        Time { secs }
    }

    /// A span of `m` whole minutes.
    pub fn from_mins(m: i64) -> (r: Time)
        requires
            -153_722_867_280_912_930 <= m <= 153_722_867_280_912_930,
        ensures
            r.secs == 60 * m,
    {
        Time { secs: 60 * m }
    }
}

impl Depth {
    /// A depth of `mm` millimetres.
    pub fn from_mm(mm: i64) -> (r: Depth)
        ensures
            r.mm == mm,
    {
        Depth { mm }
    }
}

impl Density {
    /// A density of `mg_per_m3` milligrams per cubic metre.
    pub fn from_mg_per_m3(mg_per_m3: i64) -> (r: Density)
        ensures
            r.mg_per_m3 == mg_per_m3,
    {
        Density { mg_per_m3 }
    }
}

impl Volume {
    /// A volume of `nl` nanolitres.
    pub fn from_nl(nl: i64) -> (r: Volume)
        ensures
            r.nl == nl,
    {
        Volume { nl }
    }
}

impl VolumeRate {
    /// A flow of `ul_per_min` microlitres per minute.
    pub fn from_ul_per_min(ul_per_min: i64) -> (r: VolumeRate)
        ensures
            r.ul_per_min == ul_per_min,
    {
        VolumeRate { ul_per_min }
    }
}

/// `n / d` rounded toward zero.
pub fn div_toward_zero(n: i128, d: i128) -> (r: i128)
    requires
        d != 0,
        n != i128::MIN,
        d != i128::MIN,
    ensures
        r == quot(n as int, d as int),
{
    let un: u128 = if n < 0 { (-n) as u128 } else { n as u128 };
    let ud: u128 = if d < 0 { (-d) as u128 } else { d as u128 };
    let q: u128 = un / ud;
    assert(q <= un);
    if (n >= 0) == (d > 0) || n == 0 {
        q as i128
    } else {
        -(q as i128)
    }
}

/// Quotient of `n` by a positive `d`, rounded up.
pub open spec fn quot_up(n: int, d: int) -> int
    recommends
        d > 0,
{
    -((-n) / d)
}

/// `n / d` rounded up, for a positive `d`.
pub fn div_up(n: i128, d: i128) -> (r: i128)
    requires
        d > 0,
        n != i128::MIN,
        n != i128::MAX,
    ensures
        r == quot_up(n as int, d as int),
{
    if n >= 0 {
        let q: i128 = n / d;
        proof {
            vstd::arithmetic::div_mod::lemma_fundamental_div_mod(n as int, d as int);
            vstd::arithmetic::div_mod::lemma_mod_pos_bound(n as int, d as int);
            vstd::arithmetic::div_mod::lemma_fundamental_div_mod(-n as int, d as int);
            vstd::arithmetic::div_mod::lemma_mod_bound(-n as int, d as int);
            vstd::arithmetic::div_mod::lemma_div_pos_is_pos(n as int, d as int);
            vstd::arithmetic::div_mod::lemma_div_is_ordered_by_denominator(n as int, 1, d as int);
            let m = (-n as int) / (d as int);
            let r0 = (n as int) % (d as int);
            let r1 = (-n as int) % (d as int);
            assert(-m == q + (if r0 == 0 { 0int } else { 1int })) by (nonlinear_arith)
                requires
                    n == d * q + r0,
                    -n == d * m + r1,
                    0 <= r0 < d,
                    0 <= r1 < d,
            ;
        }
        if n % d == 0 {
            q
        } else {
            assert(q <= n);
            q + 1
        }
    } else {
        let m: i128 = (-n) / d;
        -m
    }
}

/// Rounding toward zero never moves a quotient past its exact value.
pub proof fn lemma_quot_bound(n: int, d: int)
    requires
        d > 0,
    ensures
        n >= 0 ==> 0 <= quot(n, d) <= n,
        n < 0 ==> n <= quot(n, d) <= 0,
        n >= 0 ==> d * quot(n, d) <= n < d * quot(n, d) + d,
        n < 0 ==> d * quot(n, d) - d < n <= d * quot(n, d),
{
    let m = if n >= 0 { n } else { -n };
    vstd::arithmetic::div_mod::lemma_fundamental_div_mod(m, d);
    vstd::arithmetic::div_mod::lemma_div_pos_is_pos(m, d);
    vstd::arithmetic::div_mod::lemma_mod_pos_bound(m, d);
    vstd::arithmetic::div_mod::lemma_div_is_ordered_by_denominator(m, 1, d);
    let q = m / d;
    assert(d * (-q) == -(d * q)) by (nonlinear_arith);
}

/// Scaling by a ratio between zero and one keeps a value between zero and itself.
pub proof fn lemma_scaled_between(x: int, f: int)
    requires
        0 <= f <= ONE,
    ensures
        x >= 0 ==> 0 <= scaled(x, f) <= x,
        x < 0 ==> x <= scaled(x, f) <= 0,
{
    lemma_quot_bound(x * f, ONE as int);
    if x >= 0 {
        assert(0 <= x * f <= x * ONE) by (nonlinear_arith)
            requires
                x >= 0,
                0 <= f <= ONE,
        ;
    } else {
        assert(x * ONE <= x * f <= 0) by (nonlinear_arith)
            requires
                x < 0,
                0 <= f <= ONE,
        ;
    }
}

/// Scaling keeps within the product of the magnitude bounds of the operands.
pub proof fn lemma_scaled_magnitude(x: int, f: int, bx: int, bf: int)
    requires
        -bx <= x <= bx,
        -bf <= f <= bf,
    ensures
        -bx * bf <= ONE * scaled(x, f) <= bx * bf,
{
    assert(-bx * bf <= x * f <= bx * bf) by (nonlinear_arith)
        requires
            -bx <= x <= bx,
            -bf <= f <= bf,
    ;
    assert(bx * bf >= 0) by (nonlinear_arith)
        requires
            -bx <= x <= bx,
            -bf <= f <= bf,
    ;
    lemma_quot_bound(x * f, ONE as int);
    let q = scaled(x, f);
    let n = x * f;
    assert(-bx * bf <= ONE * q <= bx * bf) by (nonlinear_arith)
        requires
            -bx * bf <= n <= bx * bf,
            bx * bf >= 0,
            n >= 0 ==> 0 <= q && ONE * q <= n,
            n < 0 ==> q <= 0 && n <= ONE * q,
    ;
}

/// Scaling by one is the identity and scaling by zero gives zero.
pub proof fn lemma_scaled_unit(x: int)
    ensures
        scaled(x, ONE as int) == x,
        scaled(x, 0) == 0,
{
    let m = if x >= 0 { x } else { -x };
    assert(m * ONE / (ONE as int) == m) by {
        vstd::arithmetic::div_mod::lemma_div_multiples_vanish(m, ONE as int);
    }
    assert(x * ONE == if x >= 0 { m * ONE } else { -(m * ONE) });
}

} // verus!
