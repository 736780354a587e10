use vstd::prelude::*;

use crate::buhlmann::{all_updated, Buhlmann};
use crate::compartment::{ambient_in_range, mean_pressure};
use crate::error::DecoError;
use crate::mix::Breath;
use crate::units::{Pressure, Time, ONE};

verus! {

/// A decompression model that takes the diver's breaths over time.
pub trait Deco {
    /// The model's state is consistent.
    spec fn deco_wf(&self) -> bool;

    /// `after` is this model once the diver has breathed nitrogen at constant partial pressure
    /// `n2` (nanobar) for `duration` seconds.
    spec fn exposed(&self, after: &Self, n2: int, duration: int) -> bool;

    /// `other` holds the same tissue state as this model.
    spec fn same_state(&self, other: &Self) -> bool;

    /// `p` (nanobar) is the model's current ceiling.
    spec fn is_ceiling(&self, p: int) -> bool;

    /// Exposes the diver to `breath` for `duration`.
    fn constant_breath_update(&mut self, breath: &Breath, duration: &Time) -> (r: Result<
        (),
        DecoError,
    >)
        requires
            old(self).deco_wf(),
            ambient_in_range(breath.partial_pressure.n2.nbar as int),
            duration.secs >= 0,
        ensures
            r is Ok,
            final(self).deco_wf(),
            old(self).exposed(
                final(self),
                breath.partial_pressure.n2.nbar as int,
                duration.secs as int,
            ),
    ;

    /// Exposes the diver to a breath that changes linearly from `breath_start` to `breath_end`
    /// over `duration`, taken as a constant exposure at the mean of the two nitrogen partial
    /// pressures. A change of mix between the two ends is refused and leaves the model as it was.
    fn variable_breath_update(
        &mut self,
        breath_start: &Breath,
        breath_end: &Breath,
        duration: &Time,
    ) -> (r: Result<(), DecoError>)
        requires
            old(self).deco_wf(),
            ambient_in_range(breath_start.partial_pressure.n2.nbar as int),
            ambient_in_range(breath_end.partial_pressure.n2.nbar as int),
            duration.secs >= 0,
        ensures
            final(self).deco_wf(),
            match r {
                Ok(_) => {
                    &&& breath_start.mix == breath_end.mix
                    &&& old(self).exposed(
                        final(self),
                        mean_pressure(
                            breath_start.partial_pressure.n2.nbar as int,
                            breath_end.partial_pressure.n2.nbar as int,
                        ),
                        duration.secs as int,
                    )
                },
                Err(e) => {
                    &&& breath_start.mix != breath_end.mix
                    &&& e == DecoError::MixMismatch
                    &&& old(self).same_state(final(self))
                },
            },
    ;

    /// The lowest ambient pressure the diver may ascend to now.
    fn ceiling(&self) -> (r: Pressure)
        requires
            self.deco_wf(),
        ensures
            self.is_ceiling(r.nbar as int),
    ;
}

impl Deco for Buhlmann {
    open spec fn deco_wf(&self) -> bool {
        self.wf()
    }

    /// Every compartment took the constant exposure.
    open spec fn exposed(&self, after: &Self, n2: int, duration: int) -> bool {
        all_updated(self.compartments.n2@, after.compartments.n2@, n2, duration)
    }

    open spec fn same_state(&self, other: &Self) -> bool {
        self.compartments.n2@ == other.compartments.n2@
    }

    /// The largest M0 of the compartments, that is their largest ceiling at a gradient of 1.0.
    open spec fn is_ceiling(&self, p: int) -> bool {
        &&& exists|i: int|
            0 <= i < self.compartments.n2@.len() && p
                == #[trigger] self.compartments.n2@[i].spec_ceiling(ONE as int)
        &&& forall|i: int|
            0 <= i < self.compartments.n2@.len()
                ==> #[trigger] self.compartments.n2@[i].spec_ceiling(ONE as int) <= p
    }

    fn constant_breath_update(&mut self, breath: &Breath, duration: &Time) -> (r: Result<
        (),
        DecoError,
    >) {
        Buhlmann::constant_breath_update(self, breath, duration)
    }

    fn variable_breath_update(
        &mut self,
        breath_start: &Breath,
        breath_end: &Breath,
        duration: &Time,
    ) -> (r: Result<(), DecoError>) {
        Buhlmann::variable_breath_update(self, breath_start, breath_end, duration)
    }

    fn ceiling(&self) -> (r: Pressure) {
        Buhlmann::ceiling(self)
    }
}

} // verus!
