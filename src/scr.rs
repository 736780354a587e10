use vstd::prelude::*;

use crate::error::DecoError;
use crate::units::VolumeRate;

verus! {

/// Surface consumption rates of a diver.
#[derive(Clone, Copy, Debug, PartialEq, Eq, Structural)]
pub struct Scr {
    /// Consumption rate while working.
    pub work: VolumeRate,
    /// Consumption rate while decompressing.
    pub deco: VolumeRate,
}

impl Scr {
    /// Consumption rates `work` and `deco`; refused unless both are positive.
    pub fn new(work: VolumeRate, deco: VolumeRate) -> (r: Result<Scr, DecoError>)
        ensures
            match r {
                Ok(s) => s.work == work && s.deco == deco && work.ul_per_min > 0
                    && deco.ul_per_min > 0,
                Err(e) => (work.ul_per_min <= 0 || deco.ul_per_min <= 0) && e
                    == DecoError::InvalidParameter,
            },
    {
        if work.ul_per_min <= 0 {
            return Err(DecoError::InvalidParameter);
        }
        if deco.ul_per_min <= 0 {
            return Err(DecoError::InvalidParameter);
        }
        Ok(Scr { work, deco })
    }
}

} // verus!
