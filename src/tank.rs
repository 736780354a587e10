use vstd::prelude::*;

use crate::mix::SURFACE_PRESSURE;
use crate::units::{
    div_toward_zero, div_up, lemma_quot_bound, pressure_in_range, quot, quot_up, Pressure, Ratio,
    Volume, ONE, PRESSURE_LIMIT,
};

verus! {

/// 3000 psi in nanobar.
pub const PSI_3000: i64 = 206_842_736_685;

/// 2640 psi in nanobar.
pub const PSI_2640: i64 = 182_021_608_283;

/// Largest volume magnitude, in nanolitres, that a tank converts to a pressure (10^8 litres).
pub const VOLUME_LIMIT: i64 = 100_000_000_000_000_000;

/// The cylinders the planner knows.
#[derive(Clone, Copy, Debug, PartialEq, Eq, Structural)]
pub enum TankKind {
    Al40,
    Al80,
    Lp108,
}

/// Rating of a cylinder.
#[derive(Clone, Copy, Debug, PartialEq, Eq, Structural)]
pub struct TankSpec {
    /// Water volume of the cylinder: the gas it holds at ambient pressure.
    pub empty_volume: Volume,
    /// Rated pressure above ambient.
    pub service_pressure: Pressure,
    /// Compressibility factor of the gas.
    pub z: Ratio,
}

/// The rating of each kind of cylinder.
pub open spec fn spec_for(kind: TankKind) -> TankSpec {
    match kind {
        TankKind::Al40 => TankSpec {
            empty_volume: Volume { nl: 5_800_000_000 },
            service_pressure: Pressure { nbar: PSI_3000 },
            z: Ratio { nano: 1_045_000_000 },
        },
        TankKind::Al80 => TankSpec {
            empty_volume: Volume { nl: 11_100_000_000 },
            service_pressure: Pressure { nbar: PSI_3000 },
            z: Ratio { nano: 1_033_700_000 },
        },
        TankKind::Lp108 => TankSpec {
            empty_volume: Volume { nl: 17_000_000_000 },
            service_pressure: Pressure { nbar: PSI_2640 },
            z: Ratio { nano: 1_000_000_000 },
        },
    }
}

impl TankSpec {
    /// A cylinder of 2 to 100 litres, with a compressibility factor between 0.5 and 1.5.
    pub open spec fn wf(&self) -> bool {
        &&& 2_000_000_000 <= self.empty_volume.nl <= 100_000_000_000
        &&& 500_000_000 <= self.z.nano <= 1_500_000_000
        &&& 0 < self.service_pressure.nbar <= PRESSURE_LIMIT
    }

    /// Gas, at one atmosphere, that the cylinder holds at `pressure` above ambient:
    /// `empty_volume * pressure / (z * 1 atm)`, rounded toward zero.
    pub open spec fn spec_volume_at(&self, pressure: int) -> int {
        quot(
            self.empty_volume.nl * pressure * ONE,
            self.z.nano * SURFACE_PRESSURE,
        )
    }

    /// Pressure above ambient at which the cylinder holds `volume` of gas at one atmosphere:
    /// `volume * z * 1 atm / empty_volume`, rounded up.
    pub open spec fn spec_pressure_at(&self, volume: int) -> int {
        quot_up(volume * self.z.nano * SURFACE_PRESSURE, self.empty_volume.nl * ONE)
    }

    /// The rating of `kind`.
    pub fn new(kind: TankKind) -> (r: TankSpec)
        ensures
            r == spec_for(kind),
            r.wf(),
    {
        match kind {
            TankKind::Al40 => TankSpec {
                empty_volume: Volume { nl: 5_800_000_000 },
                service_pressure: Pressure { nbar: PSI_3000 },
                z: Ratio { nano: 1_045_000_000 },
            },
            TankKind::Al80 => TankSpec {
                empty_volume: Volume { nl: 11_100_000_000 },
                service_pressure: Pressure { nbar: PSI_3000 },
                z: Ratio { nano: 1_033_700_000 },
            },
            TankKind::Lp108 => TankSpec {
                empty_volume: Volume { nl: 17_000_000_000 },
                service_pressure: Pressure { nbar: PSI_2640 },
                z: Ratio { nano: 1_000_000_000 },
            },
        }
    }

    /// Gas the cylinder holds at `pressure` above ambient, not counting the gas at one
    /// atmosphere left in an empty cylinder.
    pub fn volume_at_pressure(&self, pressure: Pressure) -> (r: Volume)
        requires
            self.wf(),
            pressure_in_range(pressure.nbar as int),
        ensures
            r.nl == self.spec_volume_at(pressure.nbar as int),
    {
        let e = self.empty_volume.nl as i128;
        let p = pressure.nbar as i128;
        let d = (self.z.nano as i128) * (SURFACE_PRESSURE as i128);
        proof {
            let lim = 100_000_000_000 * PRESSURE_LIMIT * ONE;
            assert(-lim <= e * p * ONE <= lim) by (nonlinear_arith)
                requires
                    0 < e <= 100_000_000_000,
                    -PRESSURE_LIMIT <= p <= PRESSURE_LIMIT,
                    lim == 100_000_000_000 * PRESSURE_LIMIT * ONE,
            ;
            assert(d >= 500_000_000 * SURFACE_PRESSURE) by (nonlinear_arith)
                requires
                    self.z.nano >= 500_000_000,
                    d == self.z.nano * SURFACE_PRESSURE,
            ;
            lemma_quot_bound(e * p * ONE, d as int);
            let q = quot(e * p * ONE, d as int);
            assert(-VOLUME_LIMIT <= q <= VOLUME_LIMIT) by (nonlinear_arith)
                requires
                    -lim <= e * p * ONE <= lim,
                    lim == 100_000_000_000 * PRESSURE_LIMIT * ONE,
                    d >= 500_000_000 * SURFACE_PRESSURE,
                    e * p * ONE >= 0 ==> 0 <= q && d * q <= e * p * ONE,
                    e * p * ONE < 0 ==> q <= 0 && e * p * ONE <= d * q,
            ;
        }
        let v = div_toward_zero(e * p * (ONE as i128), d);
        Volume { nl: v as i64 }
    }

    /// Pressure above ambient at which the cylinder holds `volume`, not counting the gas at one
    /// atmosphere left in an empty cylinder.
    pub fn pressure_at_volume(&self, volume: Volume) -> (r: Pressure)
        requires
            self.wf(),
            -VOLUME_LIMIT <= volume.nl <= VOLUME_LIMIT,
        ensures
            r.nbar == self.spec_pressure_at(volume.nl as int),
    {
        let v = volume.nl as i128;
        let z = self.z.nano as i128;
        let n = self.empty_volume.nl as i128 * (ONE as i128);
        proof {
            let lim = VOLUME_LIMIT * 1_500_000_000 * SURFACE_PRESSURE;
            assert(-lim <= v * z * SURFACE_PRESSURE <= lim) by (nonlinear_arith)
                requires
                    -VOLUME_LIMIT <= v <= VOLUME_LIMIT,
                    0 < z <= 1_500_000_000,
                    lim == VOLUME_LIMIT * 1_500_000_000 * SURFACE_PRESSURE,
            ;
            let x = v * z * SURFACE_PRESSURE;
            let q = quot_up(x, n as int);
            vstd::arithmetic::div_mod::lemma_fundamental_div_mod(-x, n as int);
            vstd::arithmetic::div_mod::lemma_mod_bound(-x, n as int);
            let m = (-x) / (n as int);
            let rem = (-x) % (n as int);
            assert(n >= 2_000_000_000 * ONE);
            assert(-0x7fff_ffff_ffff_ffff <= m <= 0x7fff_ffff_ffff_ffff) by (nonlinear_arith)
                requires
                    -x == n * m + rem,
                    0 <= rem < n,
                    n >= 2_000_000_000 * ONE,
                    -lim <= x <= lim,
                    lim == VOLUME_LIMIT * 1_500_000_000 * SURFACE_PRESSURE,
            ;
        }
        let p = div_up(v * z * (SURFACE_PRESSURE as i128), n);
        Pressure { nbar: p as i64 }
    }

    /// Gas the cylinder holds at its service pressure.
    pub fn service_volume(&self) -> (r: Volume)
        requires
            self.wf(),
        ensures
            r.nl == self.spec_volume_at(self.service_pressure.nbar as int),
    {
        self.volume_at_pressure(self.service_pressure)
    }
}

/// Filling a cylinder to a pressure and reading the pressure back from the volume it then holds
/// gives that pressure again.
pub proof fn lemma_volume_round_trip(spec: TankSpec, pressure: int)
    requires
        spec.wf(),
        0 <= pressure <= PRESSURE_LIMIT,
    ensures
        spec.spec_pressure_at(spec.spec_volume_at(pressure)) == pressure,
{
    let e = spec.empty_volume.nl as int;
    let z = spec.z.nano as int;
    let n = e * ONE;
    let d = z * SURFACE_PRESSURE;
    assert(0 < d <= n) by (nonlinear_arith)
        requires
            2_000_000_000 <= e,
            500_000_000 <= z <= 1_500_000_000,
            n == e * ONE,
            d == z * SURFACE_PRESSURE,
    ;
    let np = e * pressure * ONE;
    assert(np == n * pressure && np >= 0) by (nonlinear_arith)
        requires
            n == e * ONE,
            np == e * pressure * ONE,
            e > 0,
            pressure >= 0,
    ;
    lemma_quot_bound(np, d);
    let v = spec.spec_volume_at(pressure);
    let x = v * z * SURFACE_PRESSURE;
    assert(x == v * d) by (nonlinear_arith)
        requires
            x == v * z * SURFACE_PRESSURE,
            d == z * SURFACE_PRESSURE,
    ;
    // n * (pressure - 1) < x <= n * pressure
    assert(n * pressure - n < x && x <= n * pressure) by (nonlinear_arith)
        requires
            d * v <= np,
            np < d * v + d,
            np == n * pressure,
            x == v * d,
            d <= n,
    ;
    assert((-pressure) * n == -(n * pressure)) by (nonlinear_arith);
    vstd::arithmetic::div_mod::lemma_fundamental_div_mod_converse(
        -x,
        n,
        -pressure,
        n * pressure - x,
    );
}

/// A cylinder and the gas in it, at the surface.
#[derive(Clone, Copy, Debug, PartialEq, Eq, Structural)]
pub struct Tank {
    /// The rating of the cylinder.
    pub tank_spec: TankSpec,
    /// Pressure of the gas above ambient.
    pub pressure: Pressure,
    /// Gas at one atmosphere above what an empty cylinder holds.
    pub volume: Volume,
}

impl Tank {
    /// An empty cylinder of `kind`.
    pub fn new(kind: TankKind) -> (r: Tank)
        ensures
            r.tank_spec == spec_for(kind),
            r.tank_spec.wf(),
            r.pressure.nbar == 0,
            r.volume.nl == 0,
    {
        Tank {
            tank_spec: TankSpec::new(kind),
            pressure: Pressure { nbar: 0 },
            volume: Volume { nl: 0 },
        }
    }

    /// A cylinder of `kind` filled to `pressure`.
    pub fn new_at_pressure(kind: TankKind, pressure: Pressure) -> (r: Tank)
        requires
            pressure_in_range(pressure.nbar as int),
        ensures
            r.tank_spec == spec_for(kind),
            r.pressure == pressure,
            r.volume.nl == r.tank_spec.spec_volume_at(pressure.nbar as int),
    {
        let mut tank = Tank::new(kind);
        tank.set_pressure(pressure);
        tank
    }

    /// A cylinder of `kind` holding `volume`.
    pub fn new_at_volume(kind: TankKind, volume: Volume) -> (r: Tank)
        requires
            -VOLUME_LIMIT <= volume.nl <= VOLUME_LIMIT,
        ensures
            r.tank_spec == spec_for(kind),
            r.volume == volume,
            r.pressure.nbar == r.tank_spec.spec_pressure_at(volume.nl as int),
    {
        let mut tank = Tank::new(kind);
        tank.set_volume(volume);
        tank
    }

    /// Sets the pressure, and the volume with it.
    pub fn set_pressure(&mut self, pressure: Pressure)
        requires
            old(self).tank_spec.wf(),
            pressure_in_range(pressure.nbar as int),
        ensures
            final(self).tank_spec == old(self).tank_spec,
            final(self).pressure == pressure,
            final(self).volume.nl == old(self).tank_spec.spec_volume_at(pressure.nbar as int),
    {
        self.pressure = pressure;
        self.volume = self.tank_spec.volume_at_pressure(pressure);
    }

    /// Sets the volume, and the pressure with it.
    pub fn set_volume(&mut self, volume: Volume)
        requires
            old(self).tank_spec.wf(),
            -VOLUME_LIMIT <= volume.nl <= VOLUME_LIMIT,
        ensures
            final(self).tank_spec == old(self).tank_spec,
            final(self).volume == volume,
            final(self).pressure.nbar == old(self).tank_spec.spec_pressure_at(volume.nl as int),
    {
        self.volume = volume;
        self.pressure = self.tank_spec.pressure_at_volume(volume);
    }

    /// Takes `diff` of gas out of the cylinder.
    pub fn decrease_volume(&mut self, diff: Volume)
        requires
            old(self).tank_spec.wf(),
            -VOLUME_LIMIT <= old(self).volume.nl - diff.nl <= VOLUME_LIMIT,
        ensures
            final(self).tank_spec == old(self).tank_spec,
            final(self).volume.nl == old(self).volume.nl - diff.nl,
            final(self).pressure.nbar == old(self).tank_spec.spec_pressure_at(
                old(self).volume.nl - diff.nl,
            ),
    {
        self.set_volume(Volume { nl: self.volume.nl - diff.nl });
    }

    /// Lowers the pressure of the cylinder by `diff`.
    pub fn decrease_pressure(&mut self, diff: Pressure)
        requires
            old(self).tank_spec.wf(),
            pressure_in_range(old(self).pressure.nbar - diff.nbar),
        ensures
            final(self).tank_spec == old(self).tank_spec,
            final(self).pressure.nbar == old(self).pressure.nbar - diff.nbar,
            final(self).volume.nl == old(self).tank_spec.spec_volume_at(
                old(self).pressure.nbar - diff.nbar,
            ),
    {
        self.set_pressure(Pressure { nbar: self.pressure.nbar - diff.nbar });
    }
}

} // verus!
