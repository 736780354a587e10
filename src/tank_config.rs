use vstd::prelude::*;

use crate::error::DecoError;
use crate::mix::Mix;
use crate::tank::TankKind;
use crate::units::Pressure;

verus! {

/// A cylinder a diver carries: its kind, its fill and its gas.
#[derive(Clone, Copy, Debug, PartialEq, Eq, Structural)]
pub struct TankConfig {
    /// The kind of cylinder.
    pub kind: TankKind,
    /// Pressure of the gas above ambient.
    pub pressure: Pressure,
    /// The gas in the cylinder.
    pub mix: Mix,
}

impl TankConfig {
    /// A cylinder of `kind` filled with `mix` to `pressure`; refused unless the pressure is
    /// positive.
    pub fn new(kind: TankKind, pressure: Pressure, mix: Mix) -> (r: Result<TankConfig, DecoError>)
        ensures
            match r {
                Ok(c) => pressure.nbar > 0 && c == (TankConfig { kind, pressure, mix }),
                Err(e) => pressure.nbar <= 0 && e == DecoError::InvalidParameter,
            },
    {
        if pressure.nbar <= 0 {
            return Err(DecoError::InvalidParameter);
        }
        Ok(TankConfig { kind, pressure, mix })
    }
}

} // verus!
