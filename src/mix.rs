use vstd::prelude::*;

use crate::compartment::ambient_in_range;
use crate::error::DecoError;
use crate::units::{div_toward_zero, lemma_scaled_between, scaled, Pressure, Ratio, ONE};

verus! {

/// Atmospheric pressure at sea level, 1 atm, in nanobar.
pub const SURFACE_PRESSURE: i64 = 1_013_250_000;

/// Fraction of oxygen in air, in billionths.
pub const AIR_FO2: i128 = 209_460_000;

/// Partial pressures of the gases of a breathing mix.
#[derive(Clone, Copy, Debug, PartialEq, Eq, Structural)]
pub struct PartialPressure {
    /// Partial pressure of oxygen.
    pub o2: Pressure,
    /// Partial pressure of nitrogen.
    pub n2: Pressure,
}

/// A breathing mix of oxygen and nitrogen; helium is not modelled.
#[derive(Clone, Copy, Debug, PartialEq, Eq, Structural)]
pub struct Mix {
    /// Fraction of oxygen.
    pub fo2: Ratio,
    /// Fraction of nitrogen.
    pub fn2: Ratio,
}

impl Mix {
    /// `0 < fo2 <= 1` and the fractions add up to one.
    pub open spec fn wf(&self) -> bool {
        0 < self.fo2.nano <= ONE && self.fn2.nano == ONE - self.fo2.nano
    }

    /// The mix with oxygen fraction `fo2` and nitrogen for the rest; refused unless
    /// `0 < fo2 <= 1`.
    pub fn new(fo2: Ratio) -> (r: Result<Mix, DecoError>)
        ensures
            match r {
                Ok(m) => m.wf() && m.fo2 == fo2,
                Err(e) => !(0 < fo2.nano <= ONE) && e == DecoError::InvalidParameter,
            },
    {
        if fo2.nano <= 0 || fo2.nano > ONE as i128 {
            return Err(DecoError::InvalidParameter);
        }
        Ok(Mix { fo2, fn2: Ratio { nano: ONE as i128 - fo2.nano } })
    }

    /// Air: 20.946 % oxygen.
    pub fn air() -> (r: Mix)
        ensures
            r.wf(),
            r == Mix::air_spec(),
    {
        Mix { fo2: Ratio { nano: AIR_FO2 }, fn2: Ratio { nano: ONE as i128 - AIR_FO2 } }
    }
}

/// What the diver breathes at one moment.
#[derive(Clone, Copy, Debug, PartialEq, Eq, Structural)]
pub struct Breath {
    /// The absolute ambient pressure.
    pub ambient_pressure: Pressure,
    /// The breathing mix.
    pub mix: Mix,
    /// The partial pressures of the mix at the ambient pressure.
    pub partial_pressure: PartialPressure,
}

impl Breath {
    /// Partial pressures are the fractions of the mix applied to the ambient pressure.
    pub open spec fn wf(&self) -> bool {
        &&& self.mix.wf()
        &&& ambient_in_range(self.ambient_pressure.nbar as int)
        &&& self.partial_pressure.o2.nbar == scaled(
            self.ambient_pressure.nbar as int,
            self.mix.fo2.nano as int,
        )
        &&& self.partial_pressure.n2.nbar == scaled(
            self.ambient_pressure.nbar as int,
            self.mix.fn2.nano as int,
        )
    }

    /// Breathing `mix` at absolute pressure `ambient_pressure`.
    pub fn new(ambient_pressure: &Pressure, mix: &Mix) -> (r: Breath)
        requires
            ambient_in_range(ambient_pressure.nbar as int),
            mix.wf(),
        ensures
            r.wf(),
            r.ambient_pressure == *ambient_pressure,
            r.mix == *mix,
            ambient_in_range(r.partial_pressure.o2.nbar as int),
            ambient_in_range(r.partial_pressure.n2.nbar as int),
    {
        proof {
            lemma_scaled_between(ambient_pressure.nbar as int, mix.fo2.nano as int);
            lemma_scaled_between(ambient_pressure.nbar as int, mix.fn2.nano as int);
            assert(0 <= ambient_pressure.nbar * mix.fo2.nano <= ambient_pressure.nbar * ONE)
                by (nonlinear_arith)
                requires
                    0 <= ambient_pressure.nbar,
                    0 <= mix.fo2.nano <= ONE,
            ;
            assert(0 <= ambient_pressure.nbar * mix.fn2.nano <= ambient_pressure.nbar * ONE)
                by (nonlinear_arith)
                requires
                    0 <= ambient_pressure.nbar,
                    0 <= mix.fn2.nano <= ONE,
            ;
        }
        let o2 = div_toward_zero((ambient_pressure.nbar as i128) * mix.fo2.nano, ONE as i128);
        let n2 = div_toward_zero((ambient_pressure.nbar as i128) * mix.fn2.nano, ONE as i128);
        Breath {
            ambient_pressure: *ambient_pressure,
            mix: *mix,
            partial_pressure: PartialPressure {
                o2: Pressure { nbar: o2 as i64 },
                n2: Pressure { nbar: n2 as i64 },
            },
        }
    }

    /// Air breathed at the surface.
    pub fn surface_air() -> (r: Breath)
        ensures
            r.wf(),
            r.ambient_pressure.nbar == SURFACE_PRESSURE,
            r.mix == Mix::air_spec(),
            ambient_in_range(r.partial_pressure.n2.nbar as int),
    {
        let air = Mix::air();
        Breath::new(&Pressure { nbar: SURFACE_PRESSURE }, &air)
    }
}

impl Mix {
    /// Air, as a value.
    pub open spec fn air_spec() -> Mix {
        Mix { fo2: Ratio { nano: AIR_FO2 }, fn2: Ratio { nano: (ONE - AIR_FO2) as i128 } }
    }
}

} // verus!
