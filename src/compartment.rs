use vstd::prelude::*;

use crate::decay::{decay_factor, power_of_half};
use crate::error::DecoError;
use crate::roots::{icbrt, is_floor_cbrt, is_floor_sqrt, isqrt};
use crate::units::{
    div_toward_zero, lemma_quot_bound, lemma_scaled_between, lemma_scaled_magnitude,
    lemma_scaled_unit, pressure_in_range, ratio_of, scaled, Pressure, Ratio, Time, ONE,
    PRESSURE_LIMIT,
};

verus! {

/// Partial pressure of water vapour in the lungs, in nanobar (0.0627 bar).
pub const WATER_VAPOR_PRESSURE: i64 = 62_700_000;

/// `8 * 60 * ONE^3`: the coefficient `a = 2 / cbrt(t)` in nanobar, for `t` in minutes, is the
/// largest `a` with `a^3 * s <= A_NUMERATOR`, where `s` is the half-life in seconds.
pub const A_NUMERATOR: u128 = 480_000_000_000_000_000_000_000_000_000;

/// `60 * ONE^2`: `1 / sqrt(t)` in billionths, for `t` in minutes, is the largest `c` with
/// `c^2 * s <= C_NUMERATOR`, where `s` is the half-life in seconds.
pub const C_NUMERATOR: u128 = 60_000_000_000_000_000_000;

/// `1.005` in billionths: `b = 1.005 - 1 / sqrt(t)`.
pub const B_OFFSET: i64 = 1_005_000_000;

/// Upper bound of the coefficient `a`, in nanobar.
pub const A_MAX: i64 = 8_000_000_000;

/// Lower bound of the coefficient `b`, in billionths.
pub const B_MIN: i64 = -7_000_000_000;

/// Bound on the magnitude of M0, in nanobar.
pub const M0_LIMIT: i64 = 800_000_000_000_000;

/// Bound on the magnitude of a gradient handed to `ceiling`, in billionths (1000.0).
pub const GRADIENT_LIMIT: i128 = 1_000_000_000_000;

/// An ambient partial pressure that an exposure may have: absolute, so not negative.
pub open spec fn ambient_in_range(p: int) -> bool {
    0 <= p <= PRESSURE_LIMIT
}

/// Mean of the two ends of a linear pressure ramp, rounded down.
pub open spec fn mean_pressure(start: int, end: int) -> int {
    (start + end) / 2
}

/// M-value coefficients of one compartment, derived from its half-life.
#[derive(Clone, Copy, Debug, PartialEq, Eq, Structural)]
pub struct Params {
    /// Half-life of the compartment.
    pub hl: Time,
    /// Coefficient `a`, the intercept of the M-value line: `2 / cbrt(t)` bar for `t` in minutes.
    pub a: Pressure,
    /// Coefficient `b`, the reciprocal of the slope of the M-value line: `1.005 - 1 / sqrt(t)`.
    pub b: Ratio,
}

impl Params {
    /// `a` and `b` are those of a half-life of `secs` seconds, each rounded to the
    /// fixed-point grid: `a` down, and `1 / sqrt(t)` down before it is taken from 1.005.
    pub open spec fn derived_from(&self, secs: int) -> bool {
        &&& self.hl.secs == secs
        &&& is_floor_cbrt((A_NUMERATOR as int) / secs, self.a.nbar as int)
        &&& is_floor_sqrt((C_NUMERATOR as int) / secs, B_OFFSET - self.b.nano)
    }

    /// Well-formed coefficients of a positive half-life.
    pub open spec fn wf(&self) -> bool {
        &&& self.hl.secs > 0
        &&& self.derived_from(self.hl.secs as int)
        &&& 0 <= self.a.nbar <= A_MAX
        &&& B_MIN <= self.b.nano <= B_OFFSET
    }

    /// Coefficients for `half_life`; a half-life that is not positive is refused.
    pub fn new(half_life: Time) -> (r: Result<Params, DecoError>)
        ensures
            match r {
                Ok(p) => half_life.secs > 0 && p.wf() && p.hl == half_life,
                Err(e) => half_life.secs <= 0 && e == DecoError::InvalidParameter,
            },
    {
        if half_life.secs <= 0 {
            return Err(DecoError::InvalidParameter);
        }
        let t: u128 = half_life.secs as u128;
        proof {
            vstd::arithmetic::div_mod::lemma_div_is_ordered_by_denominator(
                A_NUMERATOR as int,
                1,
                t as int,
            );
            vstd::arithmetic::div_mod::lemma_div_is_ordered_by_denominator(
                C_NUMERATOR as int,
                1,
                t as int,
            );
        }
        let a: u128 = icbrt(A_NUMERATOR / t);
        let c: u128 = isqrt(C_NUMERATOR / t);
        proof {
            assert(a < A_MAX) by (nonlinear_arith)
                requires
                    a * a * a <= A_NUMERATOR,
                    a >= 0,
            ;
            assert(c <= 7_750_000_000) by (nonlinear_arith)
                requires
                    c * c <= C_NUMERATOR,
                    c >= 0,
            ;
        }
        Ok(
            Params {
                hl: half_life,
                a: Pressure { nbar: a as i64 },
                b: Ratio { nano: (B_OFFSET as i128) - (c as i128) },
            },
        )
    }
}

/// The coefficients are the exact roots rounded to the grid: `a` is the largest number of
/// nanobar with `a^3 * s <= 8 * 60 * 10^27` (that is `2 / cbrt(t)` bar with `t = s / 60`
/// minutes), and `c = 1.005 - b` is the largest number of billionths with
/// `c^2 * s <= 60 * 10^18` (that is `1 / sqrt(t)`).
pub proof fn lemma_params_are_rounded_roots(p: Params)
    requires
        p.wf(),
    ensures
        ({
            let s = p.hl.secs as int;
            let a = p.a.nbar as int;
            let c = B_OFFSET - p.b.nano;
            &&& a * a * a * s <= A_NUMERATOR
            &&& A_NUMERATOR < (a + 1) * (a + 1) * (a + 1) * s
            &&& c * c * s <= C_NUMERATOR
            &&& C_NUMERATOR < (c + 1) * (c + 1) * s
        }),
{
    let s = p.hl.secs as int;
    let a = p.a.nbar as int;
    let c = B_OFFSET - p.b.nano;
    let qa = (A_NUMERATOR as int) / s;
    let qc = (C_NUMERATOR as int) / s;
    vstd::arithmetic::div_mod::lemma_fundamental_div_mod(A_NUMERATOR as int, s);
    vstd::arithmetic::div_mod::lemma_mod_pos_bound(A_NUMERATOR as int, s);
    vstd::arithmetic::div_mod::lemma_fundamental_div_mod(C_NUMERATOR as int, s);
    vstd::arithmetic::div_mod::lemma_mod_pos_bound(C_NUMERATOR as int, s);
    let ra = (A_NUMERATOR as int) % s;
    let rc = (C_NUMERATOR as int) % s;
    assert(a * a * a * s <= A_NUMERATOR && A_NUMERATOR < (a + 1) * (a + 1) * (a + 1) * s)
        by (nonlinear_arith)
        requires
            s > 0,
            a * a * a <= qa,
            qa < (a + 1) * (a + 1) * (a + 1),
            A_NUMERATOR == s * qa + ra,
            0 <= ra < s,
    ;
    assert(c * c * s <= C_NUMERATOR && C_NUMERATOR < (c + 1) * (c + 1) * s) by (nonlinear_arith)
        requires
            s > 0,
            c * c <= qc,
            qc < (c + 1) * (c + 1),
            C_NUMERATOR == s * qc + rc,
            0 <= rc < s,
    ;
}

/// A single tissue compartment of the Buhlmann model for one inert gas.
#[derive(Clone, Copy, Debug, PartialEq, Eq, Structural)]
pub struct Compartment {
    /// The M-value coefficients.
    pub params: Params,
    /// The current absolute inert-gas pressure in the compartment.
    pub pressure: Pressure,
    /// The lowest ambient pressure that the compartment tolerates at its current pressure
    /// (the M-value line at a gradient of 1.0).
    pub m0: Pressure,
}

/// M0 of a compartment with coefficients `params` at pressure `p`: `(p - a) * b`.
pub open spec fn m0_for(params: Params, p: int) -> int {
    scaled(p - params.a.nbar, params.b.nano as int)
}

/// M0 stays within its bound for every pressure in range.
pub proof fn lemma_m0_bound(params: Params, p: int)
    requires
        params.wf(),
        pressure_in_range(p),
    ensures
        -M0_LIMIT <= m0_for(params, p) <= M0_LIMIT,
{
    let bx = PRESSURE_LIMIT + A_MAX;
    let bf = -B_MIN;
    lemma_scaled_magnitude(p - params.a.nbar, params.b.nano as int, bx as int, bf as int);
    let m0 = m0_for(params, p);
    assert(-M0_LIMIT <= m0 <= M0_LIMIT) by (nonlinear_arith)
        requires
            bx == 100_008_000_000_000,
            bf == 7_000_000_000,
            -bx * bf <= 1_000_000_000 * m0 <= bx * bf,
    ;
}

impl Compartment {
    /// Pressure and M0 agree, and both are within the ranges the arithmetic holds.
    pub open spec fn wf(&self) -> bool {
        &&& self.params.wf()
        &&& pressure_in_range(self.pressure.nbar as int)
        &&& self.m0.nbar == m0_for(self.params, self.pressure.nbar as int)
    }

    /// Change of pressure over `duration` seconds at ambient partial pressure `ambient`:
    /// `(ambient - water vapour - pressure) * (1 - 2^(-duration / half-life))`.
    pub open spec fn spec_pressure_change(&self, ambient: int, duration: int) -> int {
        scaled(
            ambient - WATER_VAPOR_PRESSURE - self.pressure.nbar,
            ONE - decay_factor(duration, self.params.hl.secs as int),
        )
    }

    /// Pressure after `duration` seconds at constant ambient partial pressure `ambient`.
    pub open spec fn spec_constant_update(&self, ambient: int, duration: int) -> int {
        self.pressure.nbar + self.spec_pressure_change(ambient, duration)
    }

    /// Gradient at `ambient`: `(pressure - ambient) / (pressure - m0)`.
    pub open spec fn spec_gradient(&self, ambient: int) -> int {
        ratio_of(self.pressure.nbar - ambient, self.pressure.nbar - self.m0.nbar)
    }

    /// Ceiling at `gradient`: `pressure - (pressure - m0) * gradient`.
    pub open spec fn spec_ceiling(&self, gradient: int) -> int {
        self.pressure.nbar - scaled(self.pressure.nbar - self.m0.nbar, gradient)
    }

    /// A compartment of half-life `half_life` at pressure `pressure`; a half-life that is not
    /// positive is refused.
    pub fn new(half_life: Time, pressure: Pressure) -> (r: Result<Compartment, DecoError>)
        requires
            pressure_in_range(pressure.nbar as int),
        ensures
            match r {
                Ok(c) => {
                    &&& half_life.secs > 0
                    &&& c.wf()
                    &&& c.params.hl == half_life
                    &&& c.pressure == pressure
                },
                Err(e) => half_life.secs <= 0 && e == DecoError::InvalidParameter,
            },
    {
        let params = match Params::new(half_life) {
            Ok(p) => p,
            Err(e) => {
                return Err(e);
            },
        };
        let mut compartment = Compartment {
            params,
            pressure: Pressure { nbar: 0 },
            m0: Pressure { nbar: 0 },
        };
        compartment.set(pressure);
        Ok(compartment)
    }

    /// Sets the pressure and recomputes M0 from it.
    pub fn set(&mut self, pressure: Pressure)
        requires
            old(self).params.wf(),
            pressure_in_range(pressure.nbar as int),
        ensures
            final(self).wf(),
            final(self).params == old(self).params,
            final(self).pressure == pressure,
    {
        proof {
            lemma_m0_bound(self.params, pressure.nbar as int);
            assert(-(PRESSURE_LIMIT + A_MAX) * (-B_MIN) <= (pressure.nbar - self.params.a.nbar)
                * self.params.b.nano <= (PRESSURE_LIMIT + A_MAX) * (-B_MIN)) by (nonlinear_arith)
                requires
                    -PRESSURE_LIMIT - A_MAX <= pressure.nbar - self.params.a.nbar
                        <= PRESSURE_LIMIT + A_MAX,
                    B_MIN <= self.params.b.nano <= -B_MIN,
            ;
        }
        let diff: i128 = (pressure.nbar as i128) - (self.params.a.nbar as i128);
        let m0 = div_toward_zero(diff * self.params.b.nano, ONE as i128);
        self.pressure = pressure;
        self.m0 = Pressure { nbar: m0 as i64 };
    }

    /// Change of pressure over `duration` at ambient partial pressure `ambient` (Haldane):
    /// the pressure moves toward `ambient - water vapour` by `1 - 2^(-duration / half-life)`
    /// of the way.
    pub fn pressure_change(&self, ambient: &Pressure, duration: &Time) -> (r: Pressure)
        requires
            self.wf(),
            ambient_in_range(ambient.nbar as int),
            duration.secs >= 0,
        ensures
            r.nbar == self.spec_pressure_change(ambient.nbar as int, duration.secs as int),
    {
        let decay = power_of_half(duration.secs, self.params.hl.secs);
        let saturation: i128 = (ONE - decay) as i128;
        let gap: i128 = (ambient.nbar as i128) - (WATER_VAPOR_PRESSURE as i128);
        let diff: i128 = gap - (self.pressure.nbar as i128);
        proof {
            lemma_scaled_between(diff as int, saturation as int);
            assert(-3 * PRESSURE_LIMIT * ONE <= diff * saturation <= 3 * PRESSURE_LIMIT * ONE)
                by (nonlinear_arith)
                requires
                    -3 * PRESSURE_LIMIT <= diff <= 3 * PRESSURE_LIMIT,
                    0 <= saturation <= ONE,
            ;
        }
        let change = div_toward_zero(diff * saturation, ONE as i128);
        Pressure { nbar: change as i64 }
    }

    /// Exposure to a constant ambient partial pressure `ambient` for `duration`.
    pub fn constant_pressure_update(&mut self, ambient: &Pressure, duration: &Time)
        requires
            old(self).wf(),
            ambient_in_range(ambient.nbar as int),
            duration.secs >= 0,
        ensures
            final(self).wf(),
            final(self).params == old(self).params,
            final(self).pressure.nbar == old(self).spec_constant_update(
                ambient.nbar as int,
                duration.secs as int,
            ),
    {
        let change = self.pressure_change(ambient, duration);
        proof {
            let diff = ambient.nbar - WATER_VAPOR_PRESSURE - self.pressure.nbar;
            let decay = decay_factor(duration.secs as int, self.params.hl.secs as int);
            crate::decay::lemma_decay_bounds(duration.secs as int, self.params.hl.secs as int);
            lemma_scaled_between(diff, ONE - decay);
        }
        self.set(Pressure { nbar: self.pressure.nbar + change.nbar });
    }

    /// Exposure to an ambient partial pressure that moves linearly from `start` to `end` over
    /// `duration`, taken as a constant exposure at the mean of the two ends. This is exact only
    /// for a ramp at a constant rate; it is no model of any other profile.
    pub fn variable_pressure_update(&mut self, start: &Pressure, end: &Pressure, duration: &Time)
        requires
            old(self).wf(),
            ambient_in_range(start.nbar as int),
            ambient_in_range(end.nbar as int),
            duration.secs >= 0,
        ensures
            final(self).wf(),
            final(self).params == old(self).params,
            final(self).pressure.nbar == old(self).spec_constant_update(
                mean_pressure(start.nbar as int, end.nbar as int),
                duration.secs as int,
            ),
    {
        let mean = Pressure { nbar: (start.nbar + end.nbar) / 2 };
        self.constant_pressure_update(&mean, duration);
    }

    /// Gradient of the compartment at `ambient`: 1.0 at its M-value, 0.0 at equilibrium,
    /// negative while it still takes up gas. Refused when the pressure equals M0.
    pub fn gradient_at(&self, ambient: &Pressure) -> (r: Result<Ratio, DecoError>)
        requires
            self.wf(),
        ensures
            match r {
                Ok(g) => self.pressure != self.m0 && g.nano == self.spec_gradient(
                    ambient.nbar as int,
                ),
                Err(e) => self.pressure == self.m0 && e == DecoError::DegenerateGradient,
            },
    {
        if self.pressure == self.m0 {
            return Err(DecoError::DegenerateGradient);
        }
        proof {
            lemma_m0_bound(self.params, self.pressure.nbar as int);
            let lim: int = 0x1_0000_0000_0000_0000;
            assert(-lim * ONE <= (self.pressure.nbar - ambient.nbar) * ONE <= lim * ONE)
                by (nonlinear_arith)
                requires
                    -lim <= self.pressure.nbar - ambient.nbar <= lim,
            ;
        }
        let num: i128 = ((self.pressure.nbar as i128) - (ambient.nbar as i128)) * (ONE as i128);
        let den: i128 = (self.pressure.nbar as i128) - (self.m0.nbar as i128);
        Ok(Ratio { nano: div_toward_zero(num, den) })
    }

    /// Lowest ambient pressure allowed at `gradient`: `pressure - (pressure - m0) * gradient`.
    pub fn ceiling(&self, gradient: Ratio) -> (r: Pressure)
        requires
            self.wf(),
            -GRADIENT_LIMIT <= gradient.nano <= GRADIENT_LIMIT,
        ensures
            r.nbar == self.spec_ceiling(gradient.nano as int),
    {
        proof {
            lemma_m0_bound(self.params, self.pressure.nbar as int);
            let bx = PRESSURE_LIMIT + M0_LIMIT;
            lemma_scaled_magnitude(
                self.pressure.nbar - self.m0.nbar,
                gradient.nano as int,
                bx as int,
                GRADIENT_LIMIT as int,
            );
            assert(-bx * GRADIENT_LIMIT <= (self.pressure.nbar - self.m0.nbar) * gradient.nano
                <= bx * GRADIENT_LIMIT) by (nonlinear_arith)
                requires
                    -bx <= self.pressure.nbar - self.m0.nbar <= bx,
                    -GRADIENT_LIMIT <= gradient.nano <= GRADIENT_LIMIT,
            ;
        }
        let diff: i128 = (self.pressure.nbar as i128) - (self.m0.nbar as i128);
        let drop = div_toward_zero(diff * gradient.nano, ONE as i128);
        Pressure { nbar: ((self.pressure.nbar as i128) - drop) as i64 }
    }
}

/// The ceiling at a gradient of 1.0 is M0, at 0.0 it is the compartment pressure, and in
/// between it follows the line through those two points to within one unit of rounding.
pub proof fn lemma_ceiling_line(c: Compartment, gradient: int)
    requires
        c.wf(),
    ensures
        c.spec_ceiling(ONE as int) == c.m0.nbar,
        c.spec_ceiling(0) == c.pressure.nbar,
        ({
            let exact = ONE * c.pressure.nbar - (c.pressure.nbar - c.m0.nbar) * gradient;
            exact - ONE < ONE * c.spec_ceiling(gradient) < exact + ONE
        }),
{
    let p = c.pressure.nbar as int;
    let d = p - c.m0.nbar;
    lemma_scaled_unit(d);
    let n = d * gradient;
    lemma_quot_bound(n, ONE as int);
    let q = scaled(d, gradient);
    let r = c.spec_ceiling(gradient);
    assert(ONE * p - n - ONE < ONE * r < ONE * p - n + ONE) by (nonlinear_arith)
        requires
            r == p - q,
            n >= 0 ==> ONE * q <= n < ONE * q + ONE,
            n < 0 ==> ONE * q - ONE < n <= ONE * q,
    ;
}

/// The gradient is 0.0 at the compartment's own pressure and 1.0 at its M0.
pub proof fn lemma_gradient_endpoints(c: Compartment)
    requires
        c.wf(),
        c.pressure != c.m0,
    ensures
        c.spec_gradient(c.pressure.nbar as int) == 0,
        c.spec_gradient(c.m0.nbar as int) == ONE,
{
    let d = c.pressure.nbar - c.m0.nbar;
    let m = if d >= 0 { d } else { -d };
    assert(d != 0);
    vstd::arithmetic::div_mod::lemma_div_multiples_vanish(ONE as int, m);
    assert(m * ONE == ONE * m) by (nonlinear_arith);
    if d > 0 {
        assert(d * ONE > 0) by (nonlinear_arith)
            requires
                d > 0,
        ;
    } else {
        assert(d * ONE < 0 && -(d * ONE) == m * ONE) by (nonlinear_arith)
            requires
                d < 0,
                m == -d,
        ;
    }
}

/// A compartment in equilibrium with an ambient partial pressure (its pressure is that ambient
/// less the water vapour) keeps its pressure over any exposure to that same ambient.
pub proof fn lemma_equilibrium_is_fixed(c: Compartment, ambient: int, duration: int)
    requires
        c.wf(),
        c.pressure.nbar == ambient - WATER_VAPOR_PRESSURE,
    ensures
        c.spec_pressure_change(ambient, duration) == 0,
        c.spec_constant_update(ambient, duration) == c.pressure.nbar,
{
    let f = ONE - decay_factor(duration, c.params.hl.secs as int);
    assert(0 * f == 0);
}

} // verus!
