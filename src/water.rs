use vstd::prelude::*;

use crate::mix::SURFACE_PRESSURE;
use crate::units::{div_toward_zero, quot, Density, Depth, Pressure, VolumeRate};

verus! {

/// Standard gravitational acceleration, in micrometres per second squared (9.80665 m/s^2).
pub const GRAVITY: i64 = 9_806_650;

/// Nanobar per (milligram per cubic metre x micrometre per second squared x millimetre),
/// inverted: the product of the three is divided by this to give nanobar.
pub const PRESSURE_DIVISOR: i128 = 100_000_000_000;

/// Largest depth magnitude, in millimetres, that the conversions accept (1000 km).
pub const DEPTH_LIMIT: i64 = 1_000_000_000;

/// Largest consumption rate magnitude, in microlitres per minute, that `scr_at_depth` accepts.
pub const SCR_LIMIT: i64 = 10_000_000_000_000;

/// The kind of water of a dive.
#[derive(Clone, Copy, Debug, PartialEq, Eq, Structural)]
pub enum Water {
    /// Fresh water at 25 C: 997.0474 kg/m^3.
    Fresh,
    /// Surface sea water at 25 C: 1023.6 kg/m^3.
    Salt,
}

impl Water {
    /// Density in milligrams per cubic metre.
    pub open spec fn spec_density(&self) -> int {
        match self {
            Water::Fresh => 997_047_400,
            Water::Salt => 1_023_600_000,
        }
    }

    /// Pressure of the water column above `depth` millimetres, in nanobar:
    /// density x gravity x depth, rounded toward zero.
    pub open spec fn spec_rel_pressure(&self, depth: int) -> int {
        quot(self.spec_density() * GRAVITY * depth, PRESSURE_DIVISOR as int)
    }

    /// Depth in millimetres at which the water column weighs `pressure` nanobar:
    /// pressure / (density x gravity), rounded toward zero.
    pub open spec fn spec_depth(&self, pressure: int) -> int {
        quot(pressure * PRESSURE_DIVISOR, self.spec_density() * GRAVITY)
    }

    /// The density of the water.
    pub fn density(&self) -> (r: Density)
        ensures
            r.mg_per_m3 == self.spec_density(),
    {
        match self {
            Water::Fresh => Density { mg_per_m3: 997_047_400 },
            Water::Salt => Density { mg_per_m3: 1_023_600_000 },
        }
    }

    /// Pressure of the water at `depth`, without the surface pressure.
    pub fn rel_pressure_at_depth(&self, depth: Depth) -> (r: Pressure)
        requires
            -DEPTH_LIMIT <= depth.mm <= DEPTH_LIMIT,
        ensures
            r.nbar == self.spec_rel_pressure(depth.mm as int),
            -101_000_000_000_000 <= r.nbar <= 101_000_000_000_000,
    {
        let rho = self.density().mg_per_m3 as i128;
        proof {
            let w = rho * GRAVITY;
            assert(0 < w <= 1_023_600_000 * GRAVITY) by (nonlinear_arith)
                requires
                    0 < rho <= 1_023_600_000,
                    w == rho * GRAVITY,
            ;
            assert(-DEPTH_LIMIT * 1_023_600_000 * GRAVITY <= w * depth.mm <= DEPTH_LIMIT
                * 1_023_600_000 * GRAVITY) by (nonlinear_arith)
                requires
                    0 < w <= 1_023_600_000 * GRAVITY,
                    -DEPTH_LIMIT <= depth.mm <= DEPTH_LIMIT,
            ;
            let n = w * depth.mm;
            crate::units::lemma_quot_bound(n, PRESSURE_DIVISOR as int);
            let q = quot(n, PRESSURE_DIVISOR as int);
            assert(-101_000_000_000_000 <= q <= 101_000_000_000_000) by (nonlinear_arith)
                requires
                    -DEPTH_LIMIT * 1_023_600_000 * GRAVITY <= n <= DEPTH_LIMIT * 1_023_600_000
                        * GRAVITY,
                    n >= 0 ==> 0 <= q && PRESSURE_DIVISOR * q <= n,
                    n < 0 ==> q <= 0 && n <= PRESSURE_DIVISOR * q,
            ;
        }
        let p = div_toward_zero(rho * (GRAVITY as i128) * (depth.mm as i128), PRESSURE_DIVISOR);
        Pressure { nbar: p as i64 }
    }

    /// Absolute pressure at `depth`: the water's pressure plus the surface pressure.
    pub fn abs_pressure_at_depth(&self, depth: Depth) -> (r: Pressure)
        requires
            -DEPTH_LIMIT <= depth.mm <= DEPTH_LIMIT,
        ensures
            r.nbar == self.spec_rel_pressure(depth.mm as int) + SURFACE_PRESSURE,
            -102_000_000_000_000 <= r.nbar <= 102_000_000_000_000,
    {
        let rel = self.rel_pressure_at_depth(depth);
        Pressure { nbar: rel.nbar + SURFACE_PRESSURE }
    }

    /// Depth at which the water alone exerts `pressure`.
    pub fn depth_at_rel_pressure(&self, pressure: Pressure) -> (r: Depth)
        ensures
            r.mm == self.spec_depth(pressure.nbar as int),
    {
        self.depth_below(pressure.nbar as i128)
    }

    /// Depth at which the absolute pressure is `pressure`.
    pub fn depth_at_abs_pressure(&self, pressure: Pressure) -> (r: Depth)
        ensures
            r.mm == self.spec_depth(pressure.nbar - SURFACE_PRESSURE),
    {
        self.depth_below((pressure.nbar as i128) - (SURFACE_PRESSURE as i128))
    }

    /// Depth at which the water column weighs `nbar` nanobar.
    fn depth_below(&self, nbar: i128) -> (r: Depth)
        requires
            -0x8000_0000_0000_0000 - SURFACE_PRESSURE <= nbar <= 0x7fff_ffff_ffff_ffff,
        ensures
            r.mm == self.spec_depth(nbar as int),
    {
        let rho = self.density().mg_per_m3 as i128;
        let w = rho * (GRAVITY as i128);
        proof {
            let bound: int = 0x8000_0000_0000_0000int + SURFACE_PRESSURE;
            assert(900_000_000 * GRAVITY <= w) by (nonlinear_arith)
                requires
                    900_000_000 <= rho,
                    w == rho * GRAVITY,
            ;
            crate::units::lemma_quot_bound(nbar * PRESSURE_DIVISOR, w as int);
            let scaled_up = nbar * PRESSURE_DIVISOR;
            assert(-bound * PRESSURE_DIVISOR <= scaled_up <= bound * PRESSURE_DIVISOR);
            let q = quot(nbar * PRESSURE_DIVISOR, w as int);
            assert(-bound * PRESSURE_DIVISOR - w <= w * q <= bound * PRESSURE_DIVISOR + w);
            assert(-0x8000_0000_0000_0000 <= q <= 0x7fff_ffff_ffff_ffff) by (nonlinear_arith)
                requires
                    -bound * PRESSURE_DIVISOR - w <= w * q <= bound * PRESSURE_DIVISOR + w,
                    900_000_000 * GRAVITY <= w,
                    bound == 0x8000_0000_0000_0000 + SURFACE_PRESSURE,
            ;
        }
        let mm = div_toward_zero(nbar * PRESSURE_DIVISOR, w);
        Depth { mm: mm as i64 }
    }

    /// The surface consumption rate `scr` as consumed at `depth`: scaled by the absolute
    /// pressure there over the surface pressure.
    pub fn scr_at_depth(&self, scr: VolumeRate, depth: Depth) -> (r: VolumeRate)
        requires
            -DEPTH_LIMIT <= depth.mm <= DEPTH_LIMIT,
            -SCR_LIMIT <= scr.ul_per_min <= SCR_LIMIT,
        ensures
            r.ul_per_min == quot(
                scr.ul_per_min * (self.spec_rel_pressure(depth.mm as int) + SURFACE_PRESSURE),
                SURFACE_PRESSURE as int,
            ),
    {
        let abs = self.abs_pressure_at_depth(depth);
        proof {
            let n = scr.ul_per_min * abs.nbar;
            assert(-SCR_LIMIT * 110_000_000_000_000 <= n <= SCR_LIMIT * 110_000_000_000_000)
                by (nonlinear_arith)
                requires
                    -SCR_LIMIT <= scr.ul_per_min <= SCR_LIMIT,
                    -110_000_000_000_000 <= abs.nbar <= 110_000_000_000_000,
                    n == scr.ul_per_min * abs.nbar,
            ;
            crate::units::lemma_quot_bound(n, SURFACE_PRESSURE as int);
        }
        let v = div_toward_zero(
            (scr.ul_per_min as i128) * (abs.nbar as i128),
            SURFACE_PRESSURE as i128,
        );
        VolumeRate { ul_per_min: v as i64 }
    }
}

} // verus!
