use vstd::prelude::*;

use crate::compartment::Compartment;
use crate::units::{pressure_in_range, Pressure, Time};

verus! {

/// Half-lives of the ZHL-16A compartments in seconds, fastest first
/// (4, 5, 8, 12.5, 18.5, 27, 38.3, 54.3, 77, 109, 146, 187, 239, 305, 390, 498 and 635 minutes).
pub open spec fn zhl16a_half_lives() -> Seq<int> {
    seq![
        240, 300, 480, 750, 1110, 1620, 2298, 3258, 4620, 6540, 8760, 11220, 14340, 18300, 23400,
        29880, 38100,
    ]
}

/// A named set of compartment half-lives.
#[derive(Clone, Copy, Debug, PartialEq, Eq, Structural)]
pub enum Model {
    /// ZHL-16A, with the fastest compartment split into its 4 and 5 minute variants, both kept.
    Zhl16a,
}

impl Model {
    /// The half-lives of the model in seconds, fastest first.
    pub open spec fn spec_half_lives(&self) -> Seq<int> {
        match self {
            Model::Zhl16a => zhl16a_half_lives(),
        }
    }

    /// The half-lives of the model, fastest first.
    pub fn half_lives(&self) -> (r: Vec<Time>)
        ensures
            r@.len() == self.spec_half_lives().len(),
            forall|i: int| 0 <= i < r@.len() ==> r@[i].secs == #[trigger] self.spec_half_lives()[i],
    {
        match self {
            Model::Zhl16a => {
                let mut v: Vec<Time> = Vec::new();
                v.push(Time { secs: 240 });
                v.push(Time { secs: 300 });
                v.push(Time { secs: 480 });
                v.push(Time { secs: 750 });
                v.push(Time { secs: 1110 });
                v.push(Time { secs: 1620 });
                v.push(Time { secs: 2298 });
                v.push(Time { secs: 3258 });
                v.push(Time { secs: 4620 });
                v.push(Time { secs: 6540 });
                v.push(Time { secs: 8760 });
                v.push(Time { secs: 11220 });
                v.push(Time { secs: 14340 });
                v.push(Time { secs: 18300 });
                v.push(Time { secs: 23400 });
                v.push(Time { secs: 29880 });
                v.push(Time { secs: 38100 });
                assert(v@.map_values(|t: Time| t.secs as int) =~= zhl16a_half_lives());
                assert forall|i: int| 0 <= i < v@.len() implies v@[i].secs
                    == #[trigger] self.spec_half_lives()[i] by {
                    assert(v@.map_values(|t: Time| t.secs as int)[i] == v@[i].secs);
                }
                v
            },
        }
    }

    /// One compartment per half-life of the model, each at `pressure`.
    pub fn compartments_at(&self, pressure: Pressure) -> (r: Vec<Compartment>)
        requires
            pressure_in_range(pressure.nbar as int),
        ensures
            r@.len() == self.spec_half_lives().len(),
            forall|i: int|
                0 <= i < r@.len() ==> {
                    &&& (#[trigger] r@[i]).wf()
                    &&& r@[i].params.hl.secs == self.spec_half_lives()[i]
                    &&& r@[i].pressure == pressure
                },
    {
        let half_lives = self.half_lives();
        proof {
            lemma_half_lives_increasing(*self);
        }
        let mut compartments: Vec<Compartment> = Vec::new();
        let mut i: usize = 0;
        while i < half_lives.len()
            invariant
                i <= half_lives@.len(),
                half_lives@.len() == self.spec_half_lives().len(),
                forall|k: int|
                    0 <= k < half_lives@.len() ==> half_lives@[k].secs
                        == #[trigger] self.spec_half_lives()[k],
                forall|k: int|
                    0 <= k < half_lives@.len() ==> #[trigger] self.spec_half_lives()[k] > 0,
                pressure_in_range(pressure.nbar as int),
                compartments@.len() == i,
                forall|k: int|
                    0 <= k < i ==> {
                        &&& (#[trigger] compartments@[k]).wf()
                        &&& compartments@[k].params.hl.secs == self.spec_half_lives()[k]
                        &&& compartments@[k].pressure == pressure
                    },
            decreases half_lives@.len() - i,
        {
            assert(self.spec_half_lives()[i as int] > 0);
            match Compartment::new(half_lives[i], pressure) {
                Ok(c) => {
                    compartments.push(c);
                },
                Err(_) => {},
            }
            i = i + 1;
        }
        compartments
    }
}

/// Every model has at least one half-life, all positive and strictly increasing.
pub proof fn lemma_half_lives_increasing(m: Model)
    ensures
        m.spec_half_lives().len() > 0,
        forall|i: int| 0 <= i < m.spec_half_lives().len() ==> #[trigger] m.spec_half_lives()[i] > 0,
        forall|i: int, j: int|
            0 <= i < j < m.spec_half_lives().len() ==> #[trigger] m.spec_half_lives()[i]
                < #[trigger] m.spec_half_lives()[j],
{
    let s = zhl16a_half_lives();
    assert(s.len() == 17);
    assert forall|k: int| 0 <= k < s.len() - 1 implies #[trigger] s[k] < s[k + 1] by {}
    assert forall|i: int, j: int| 0 <= i < j < s.len() implies #[trigger] s[i]
        < #[trigger] s[j] by {
        lemma_adjacent_order_is_strict(s, i, j);
    }
    assert forall|i: int| 0 <= i < s.len() implies #[trigger] s[i] > 0 by {
        if i > 0 {
            lemma_adjacent_order_is_strict(s, 0, i);
        }
    }
}

/// A sequence whose neighbours increase is strictly increasing.
proof fn lemma_adjacent_order_is_strict(s: Seq<int>, i: int, j: int)
    requires
        forall|k: int| 0 <= k < s.len() - 1 ==> #[trigger] s[k] < s[k + 1],
        0 <= i < j < s.len(),
    ensures
        s[i] < s[j],
    decreases j - i,
{
    assert(s[i] < s[i + 1]);
    if i + 1 < j {
        lemma_adjacent_order_is_strict(s, i + 1, j);
    }
}

} // verus!
