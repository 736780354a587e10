use vstd::prelude::*;

use crate::compartment::{
    ambient_in_range, lemma_equilibrium_is_fixed, mean_pressure, Compartment, GRADIENT_LIMIT,
    WATER_VAPOR_PRESSURE,
};
use crate::error::DecoError;
use crate::mix::{Breath, PartialPressure};
use crate::models::Model;
use crate::units::{pressure_in_range, Pressure, Ratio, Time, ONE};

verus! {

/// The compartments of every tracked gas; only nitrogen is tracked.
#[derive(Debug)]
pub struct Compartments {
    /// One nitrogen compartment per half-life of the model, fastest first.
    pub n2: Vec<Compartment>,
}

/// `cs` holds one well-formed compartment per half-life of `model`, each at pressure `p`.
pub open spec fn equilibrated(cs: Seq<Compartment>, model: Model, p: Pressure) -> bool {
    &&& cs.len() == model.spec_half_lives().len()
    &&& forall|i: int|
        0 <= i < cs.len() ==> {
            &&& (#[trigger] cs[i]).wf()
            &&& cs[i].params.hl.secs == model.spec_half_lives()[i]
            &&& cs[i].pressure == p
        }
}

/// `after` is `before` with each compartment exposed to a constant `ambient` for `duration`.
pub open spec fn all_updated(
    before: Seq<Compartment>,
    after: Seq<Compartment>,
    ambient: int,
    duration: int,
) -> bool {
    &&& after.len() == before.len()
    &&& forall|i: int|
        0 <= i < after.len() ==> {
            &&& (#[trigger] after[i]).wf()
            &&& after[i].params == before[i].params
            &&& after[i].pressure.nbar == before[i].spec_constant_update(ambient, duration)
        }
}

/// Compartments that are all in equilibrium with an ambient nitrogen partial pressure (each at
/// that pressure less the water vapour) are left exactly as they were by any exposure to it.
pub proof fn lemma_equilibrium_set_is_fixed(
    before: Seq<Compartment>,
    after: Seq<Compartment>,
    ambient: int,
    duration: int,
)
    requires
        all_updated(before, after, ambient, duration),
        forall|i: int|
            0 <= i < before.len() ==> {
                &&& (#[trigger] before[i]).wf()
                &&& before[i].pressure.nbar == ambient - WATER_VAPOR_PRESSURE
            },
    ensures
        after == before,
{
    assert forall|i: int| 0 <= i < before.len() implies #[trigger] after[i] == before[i] by {
        lemma_equilibrium_is_fixed(before[i], ambient, duration);
        assert(after[i].pressure == before[i].pressure);
    }
    assert(after =~= before);
}

impl Compartments {
    /// Every compartment is well formed and there is at least one.
    pub open spec fn wf(&self) -> bool {
        &&& self.n2@.len() > 0
        &&& forall|i: int| 0 <= i < self.n2@.len() ==> (#[trigger] self.n2@[i]).wf()
    }

    /// Compartments for every half-life of `model`, in equilibrium with `partial_pressure`.
    pub fn new(model: &Model, partial_pressure: &PartialPressure) -> (r: Compartments)
        requires
            pressure_in_range(partial_pressure.n2.nbar as int),
        ensures
            r.wf(),
            equilibrated(r.n2@, *model, partial_pressure.n2),
    {
        proof {
            crate::models::lemma_half_lives_increasing(*model);
        }
        let n2 = model.compartments_at(partial_pressure.n2);
        Compartments { n2 }
    }

    /// Exposes every compartment to the constant partial pressures `partial_pressure` for
    /// `duration`.
    pub fn constant_pressure_update(&mut self, partial_pressure: &PartialPressure, duration: &Time)
        requires
            old(self).wf(),
            ambient_in_range(partial_pressure.n2.nbar as int),
            duration.secs >= 0,
        ensures
            final(self).wf(),
            all_updated(
                old(self).n2@,
                final(self).n2@,
                partial_pressure.n2.nbar as int,
                duration.secs as int,
            ),
    {
        self.update_all(partial_pressure.n2, *duration);
    }

    /// Exposes every compartment to partial pressures that move linearly from
    /// `partial_pressure_start` to `partial_pressure_end` over `duration`, taken as a constant
    /// exposure at the mean of the two ends.
    pub fn variable_pressure_update(
        &mut self,
        partial_pressure_start: &PartialPressure,
        partial_pressure_end: &PartialPressure,
        duration: &Time,
    )
        requires
            old(self).wf(),
            ambient_in_range(partial_pressure_start.n2.nbar as int),
            ambient_in_range(partial_pressure_end.n2.nbar as int),
            duration.secs >= 0,
        ensures
            final(self).wf(),
            all_updated(
                old(self).n2@,
                final(self).n2@,
                mean_pressure(
                    partial_pressure_start.n2.nbar as int,
                    partial_pressure_end.n2.nbar as int,
                ),
                duration.secs as int,
            ),
    {
        let mean = Pressure {
            nbar: (partial_pressure_start.n2.nbar + partial_pressure_end.n2.nbar) / 2,
        };
        self.update_all(mean, *duration);
    }

    /// Exposes every compartment to the constant ambient partial pressure `ambient`.
    fn update_all(&mut self, ambient: Pressure, duration: Time)
        requires
            old(self).wf(),
            ambient_in_range(ambient.nbar as int),
            duration.secs >= 0,
        ensures
            final(self).wf(),
            all_updated(old(self).n2@, final(self).n2@, ambient.nbar as int, duration.secs as int),
    {
        let ghost before = self.n2@;
        let mut i: usize = 0;
        while i < self.n2.len()
            invariant
                self.n2@.len() == before.len(),
                before.len() > 0,
                i <= before.len(),
                ambient_in_range(ambient.nbar as int),
                duration.secs >= 0,
                forall|k: int| 0 <= k < before.len() ==> (#[trigger] before[k]).wf(),
                forall|k: int| i <= k < before.len() ==> self.n2@[k] == before[k],
                forall|k: int|
                    0 <= k < i ==> {
                        &&& (#[trigger] self.n2@[k]).wf()
                        &&& self.n2@[k].params == before[k].params
                        &&& self.n2@[k].pressure.nbar == before[k].spec_constant_update(
                            ambient.nbar as int,
                            duration.secs as int,
                        )
                    },
            decreases before.len() - i,
        {
            let mut c = self.n2[i];
            assert(c == before[i as int] && before[i as int].wf());
            c.constant_pressure_update(&ambient, &duration);
            self.n2.set(i, c);
            i = i + 1;
        }
    }

    /// The ceiling of each compartment at `gradient`, in order.
    pub fn ceilings(&self, gradient: Ratio) -> (r: Vec<Pressure>)
        requires
            self.wf(),
            -GRADIENT_LIMIT <= gradient.nano <= GRADIENT_LIMIT,
        ensures
            r@.len() == self.n2@.len(),
            forall|i: int|
                0 <= i < r@.len() ==> (#[trigger] r@[i]).nbar == self.n2@[i].spec_ceiling(
                    gradient.nano as int,
                ),
    {
        let mut ceilings: Vec<Pressure> = Vec::new();
        let mut i: usize = 0;
        while i < self.n2.len()
            invariant
                self.wf(),
                -GRADIENT_LIMIT <= gradient.nano <= GRADIENT_LIMIT,
                i <= self.n2@.len(),
                ceilings@.len() == i,
                forall|k: int|
                    0 <= k < i ==> (#[trigger] ceilings@[k]).nbar == self.n2@[k].spec_ceiling(
                        gradient.nano as int,
                    ),
            decreases self.n2@.len() - i,
        {
            ceilings.push(self.n2[i].ceiling(gradient));
            i = i + 1;
        }
        ceilings
    }

    /// The controlling ceiling at `gradient`: the largest of the compartment ceilings.
    pub fn ceiling(&self, gradient: Ratio) -> (r: Pressure)
        requires
            self.wf(),
            -GRADIENT_LIMIT <= gradient.nano <= GRADIENT_LIMIT,
        ensures
            exists|i: int|
                0 <= i < self.n2@.len() && r.nbar == #[trigger] self.n2@[i].spec_ceiling(
                    gradient.nano as int,
                ),
            forall|i: int|
                0 <= i < self.n2@.len() ==> #[trigger] self.n2@[i].spec_ceiling(
                    gradient.nano as int,
                ) <= r.nbar,
    {
        let ceilings = self.ceilings(gradient);
        let mut best: Pressure = ceilings[0];
        let ghost mut at: int = 0;
        let mut i: usize = 1;
        while i < ceilings.len()
            invariant
                ceilings@.len() == self.n2@.len(),
                1 <= i <= ceilings@.len(),
                forall|k: int|
                    0 <= k < ceilings@.len() ==> (#[trigger] ceilings@[k]).nbar
                        == self.n2@[k].spec_ceiling(gradient.nano as int),
                0 <= at < i,
                best == ceilings@[at],
                forall|k: int| 0 <= k < i ==> (#[trigger] ceilings@[k]).nbar <= best.nbar,
            decreases ceilings@.len() - i,
        {
            if ceilings[i].nbar > best.nbar {
                best = ceilings[i];
                proof {
                    at = i as int;
                }
            }
            i = i + 1;
        }
        assert(ceilings@[at].nbar == self.n2@[at].spec_ceiling(gradient.nano as int));
        assert forall|k: int| 0 <= k < self.n2@.len() implies #[trigger] self.n2@[k].spec_ceiling(
            gradient.nano as int,
        ) <= best.nbar by {
            assert(ceilings@[k].nbar <= best.nbar);
        }
        best
    }
}

/// The Buhlmann decompression model: one set of compartments per tracked inert gas.
#[derive(Debug)]
pub struct Buhlmann {
    /// The compartments of each gas, one per half-life.
    pub compartments: Compartments,
}

impl Buhlmann {
    /// The compartments are well formed.
    pub open spec fn wf(&self) -> bool {
        self.compartments.wf()
    }

    /// A model on the ZHL-16A half-lives, in equilibrium with the nitrogen of `breath`.
    pub fn new(breath: &Breath) -> (r: Buhlmann)
        requires
            pressure_in_range(breath.partial_pressure.n2.nbar as int),
        ensures
            r.wf(),
            equilibrated(r.compartments.n2@, Model::Zhl16a, breath.partial_pressure.n2),
    {
        let model = Model::Zhl16a;
        Buhlmann { compartments: Compartments::new(&model, &breath.partial_pressure) }
    }

    /// Exposes the diver to `breath` for `duration`.
    pub fn constant_breath_update(&mut self, breath: &Breath, duration: &Time) -> (r: Result<
        (),
        DecoError,
    >)
        requires
            old(self).wf(),
            ambient_in_range(breath.partial_pressure.n2.nbar as int),
            duration.secs >= 0,
        ensures
            r is Ok,
            final(self).wf(),
            all_updated(
                old(self).compartments.n2@,
                final(self).compartments.n2@,
                breath.partial_pressure.n2.nbar as int,
                duration.secs as int,
            ),
    {
        self.compartments.constant_pressure_update(&breath.partial_pressure, duration);
        Ok(())
    }

    /// Exposes the diver to a breath that moves linearly from `breath_start` to `breath_end`
    /// over `duration`. The mix must be the same at both ends: the linear approximation assumes
    /// a constant gas, and a change of mix is refused with the model left as it was.
    pub fn variable_breath_update(
        &mut self,
        breath_start: &Breath,
        breath_end: &Breath,
        duration: &Time,
    ) -> (r: Result<(), DecoError>)
        requires
            old(self).wf(),
            ambient_in_range(breath_start.partial_pressure.n2.nbar as int),
            ambient_in_range(breath_end.partial_pressure.n2.nbar as int),
            duration.secs >= 0,
        ensures
            final(self).wf(),
            match r {
                Ok(_) => {
                    &&& breath_start.mix == breath_end.mix
                    &&& all_updated(
                        old(self).compartments.n2@,
                        final(self).compartments.n2@,
                        mean_pressure(
                            breath_start.partial_pressure.n2.nbar as int,
                            breath_end.partial_pressure.n2.nbar as int,
                        ),
                        duration.secs as int,
                    )
                },
                Err(e) => {
                    &&& breath_start.mix != breath_end.mix
                    &&& e == DecoError::MixMismatch
                    &&& final(self).compartments.n2@ == old(self).compartments.n2@
                },
            },
    {
        if breath_start.mix != breath_end.mix {
            return Err(DecoError::MixMismatch);
        }
        self.compartments.variable_pressure_update(
            &breath_start.partial_pressure,
            &breath_end.partial_pressure,
            duration,
        );
        Ok(())
    }

    /// The controlling ceiling at a gradient of 1.0: the largest compartment M0.
    pub fn ceiling(&self) -> (r: Pressure)
        requires
            self.wf(),
        ensures
            exists|i: int|
                0 <= i < self.compartments.n2@.len() && r.nbar
                    == #[trigger] self.compartments.n2@[i].spec_ceiling(ONE as int),
            forall|i: int|
                0 <= i < self.compartments.n2@.len()
                    ==> #[trigger] self.compartments.n2@[i].spec_ceiling(ONE as int) <= r.nbar,
    {
        self.compartments.ceiling(Ratio { nano: ONE as i128 })
    }
}

} // verus!
