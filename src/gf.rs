use vstd::prelude::*;

use crate::error::DecoError;
use crate::units::{Ratio, ONE};

verus! {

/// Gradient factors: the fraction of the M-value allowed at the first stop (`lo`) and on
/// arrival at the surface (`hi`).
#[derive(Clone, Copy, Debug, PartialEq, Eq, Structural)]
pub struct Gf {
    /// Gradient factor for the first stop.
    pub lo: Ratio,
    /// Gradient factor on arrival at the surface.
    pub hi: Ratio,
}

impl Gf {
    /// `0 < lo <= hi <= 1`.
    pub open spec fn wf(&self) -> bool {
        0 < self.lo.nano <= self.hi.nano <= ONE
    }

    /// Gradient factors `lo` and `hi`; refused unless both lie in `(0, 1]` and `lo <= hi`.
    pub fn new(lo: Ratio, hi: Ratio) -> (r: Result<Gf, DecoError>)
        ensures
            match r {
                Ok(g) => g.lo == lo && g.hi == hi && g.wf(),
                Err(e) => !(0 < lo.nano <= hi.nano <= ONE) && e == DecoError::InvalidParameter,
            },
    {
        if lo.nano <= 0 || lo.nano > ONE as i128 {
            return Err(DecoError::InvalidParameter);
        }
        if hi.nano <= 0 || hi.nano > ONE as i128 {
            return Err(DecoError::InvalidParameter);
        }
        if lo.nano > hi.nano {
            return Err(DecoError::InvalidParameter);
        }
        Ok(Gf { lo, hi })
    }
}

} // verus!
