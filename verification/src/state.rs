//! The traversal-state schema: a typed, named vector of accumulators.
//!
//! A `StateModel` maps feature names to positions in a flat vector of
//! `StateVar` scalars and is the sole authority for unit conversion when
//! reading or writing that vector.

use vstd::prelude::*;
use crate::units::Distance;
use crate::units::DistanceUnit;
use crate::units::Energy;
use crate::units::EnergyUnit;
use crate::units::Time;
use crate::units::TimeUnit;
use crate::units::spec_convert_distance;
use crate::units::spec_convert_time;
use crate::units::wh_per_unit;

verus! {

/// One scalar accumulator, in milli-units of its feature's configured unit.
#[derive(Clone, Copy, PartialEq, Eq, Structural, Debug)]
pub struct StateVar(pub i64);

/// The declaration of one state feature: its kind, unit and initial value.
#[derive(Clone, Copy, Debug)]
pub enum StateFeature {
    Distance { distance_unit: DistanceUnit, initial: Distance },
    Time { time_unit: TimeUnit, initial: Time },
    Energy { energy_unit: EnergyUnit, initial: Energy },
    Custom { initial: StateVar },
}

/// The value of `e` converted from `from` to `to`, truncating; energy units
/// relate by a single whole-unit factor.
pub open spec fn spec_convert_energy(e: int, from: EnergyUnit, to: EnergyUnit) -> int {
    e * wh_per_unit(from) / wh_per_unit(to)
}

impl StateFeature {
    /// The milli-scalar a state vector starts from for this feature.
    pub open spec fn spec_initial(self) -> int {
        match self {
            StateFeature::Distance { initial, .. } => initial.0 as int,
            StateFeature::Time { initial, .. } => initial.0 as int,
            StateFeature::Energy { initial, .. } => initial.0 as int,
            StateFeature::Custom { initial } => initial.0 as int,
        }
    }
}

#[derive(Clone, Copy, PartialEq, Eq, Structural, Debug)]
pub enum StateErrorKind {
    UnknownFeature,
    DuplicateName,
    UnitMismatch,
    ValueOutOfRange,
}

/// A schema failure; carries the feature name it arose on.
#[derive(Clone, Debug)]
pub struct StateModelError {
    pub kind: StateErrorKind,
    pub feature_name: String,
}

/// A schema mapping feature names to `(index, StateFeature)`; the entry at
/// index `i` of the schema owns slot `i` of every state vector.
pub struct StateModel {
    pub entries: Vec<(String, StateFeature)>,
}

impl StateModel {
    /// The declared features, in slot order.
    pub open spec fn features(&self) -> Seq<StateFeature> {
        self.entries@.map(|i: int, e: (String, StateFeature)| e.1)
    }

    /// The declared feature names, in slot order.
    pub open spec fn names(&self) -> Seq<Seq<char>> {
        self.entries@.map(|i: int, e: (String, StateFeature)| e.0@)
    }

    pub open spec fn spec_len(&self) -> int {
        self.entries@.len() as int
    }

    /// Some slot is declared under `name`.
    pub open spec fn has_feature(&self, name: Seq<char>) -> bool {
        exists|i: int| 0 <= i < self.spec_len() && self.names()[i] == name
    }

    /// The slot declared under `name` (meaningful only when unique).
    pub open spec fn feature_index(&self, name: Seq<char>) -> int {
        choose|i: int| 0 <= i < self.spec_len() && self.names()[i] == name
    }

    /// Well-formed: names are unique and every initial value is in range.
    pub open spec fn wf(&self) -> bool {
        &&& forall|i: int, j: int|
            0 <= i < j < self.spec_len() ==> self.names()[i] != self.names()[j]
        &&& forall|i: int|
            0 <= i < self.spec_len() ==> #[trigger] self.features()[i].spec_initial()
                <= i64::MAX
    }

    /// A state vector matching this schema slot for slot.
    pub open spec fn valid_state(&self, s: Seq<StateVar>) -> bool {
        s.len() == self.spec_len()
    }

    /// The schema with no features.
    pub fn empty() -> (r: StateModel)
        ensures
            r.spec_len() == 0,
            r.wf(),
    {
        StateModel { entries: Vec::new() }
    }

    pub fn len(&self) -> (r: usize)
        ensures
            r == self.spec_len(),
    {
        self.entries.len()
    }

    /// A fresh schema with the same entries.
    pub fn clone_schema(&self) -> (r: StateModel)
        ensures
            r.names() == self.names(),
            r.features() == self.features(),
            r.spec_len() == self.spec_len(),
    {
        let mut entries: Vec<(String, StateFeature)> = Vec::new();
        let mut i: usize = 0;
        while i < self.entries.len()
            invariant
                i <= self.entries@.len(),
                entries@.len() == i,
                forall|j: int|
                    0 <= j < i ==> entries@[j].0@ == self.entries@[j].0@ && entries@[j].1
                        == self.entries@[j].1,
            decreases self.entries@.len() - i,
        {
            let name: String = self.entries[i].0.clone();
            let feat: StateFeature = self.entries[i].1;
            entries.push((name, feat));
            i = i + 1;
        }
        let model = StateModel { entries };
        proof {
            assert(model.names() =~= self.names());
            assert(model.features() =~= self.features());
        }
        model
    }

    /// A fresh schema holding this one's features followed by `features`;
    /// fails when any name would be declared twice.
    pub fn extend(&self, features: Vec<(String, StateFeature)>) -> (r: Result<
        StateModel,
        StateModelError,
    >)
        requires
            self.wf(),
        ensures
            r is Ok <==> {
                &&& forall|i: int, j: int|
                    0 <= i < j < features@.len() ==> (#[trigger] features@[i]).0@ != (
                    #[trigger] features@[j]).0@
                &&& forall|i: int|
                    0 <= i < features@.len() ==> !self.has_feature((#[trigger] features@[i]).0@)
                &&& forall|i: int|
                    0 <= i < features@.len() ==> (#[trigger] features@[i]).1.spec_initial()
                        <= i64::MAX
            },
            r is Ok ==> {
                let m = r->Ok_0;
                &&& m.wf()
                &&& m.names() == self.names() + features@.map(
                    |i: int, e: (String, StateFeature)| e.0@,
                )
                &&& m.features() == self.features() + features@.map(
                    |i: int, e: (String, StateFeature)| e.1,
                )
            },
            r is Err ==> r->Err_0.kind == StateErrorKind::DuplicateName || r->Err_0.kind
                == StateErrorKind::ValueOutOfRange,
    {
        let mut entries: Vec<(String, StateFeature)> = Vec::new();
        let mut i: usize = 0;
        while i < self.entries.len()
            invariant
                i <= self.entries@.len(),
                entries@.len() == i,
                forall|j: int|
                    0 <= j < i ==> entries@[j].0@ == self.entries@[j].0@ && entries@[j].1
                        == self.entries@[j].1,
            decreases self.entries@.len() - i,
        {
            let name: String = self.entries[i].0.clone();
            let feat: StateFeature = self.entries[i].1;
            entries.push((name, feat));
            i = i + 1;
        }
        proof {
            assert forall|p: int, q: int|
                0 <= p < q < entries@.len() implies entries@[p].0@ != entries@[q].0@ by {
                assert(self.names()[p] == self.entries@[p].0@);
                assert(self.names()[q] == self.entries@[q].0@);
            }
        }
        let mut k: usize = 0;
        while k < features.len()
            invariant
                k <= features@.len(),
                entries@.len() == self.entries@.len() + k,
                forall|j: int|
                    0 <= j < self.entries@.len() ==> entries@[j].0@ == self.entries@[j].0@
                        && entries@[j].1 == self.entries@[j].1,
                forall|j: int|
                    0 <= j < k ==> entries@[self.entries@.len() + j].0@ == features@[j].0@
                        && entries@[self.entries@.len() + j].1 == features@[j].1,
                forall|p: int, q: int|
                    0 <= p < q < entries@.len() ==> entries@[p].0@ != entries@[q].0@,
                self.wf(),
            decreases features@.len() - k,
        {
            let name: String = features[k].0.clone();
            let mut j: usize = 0;
            while j < entries.len()
                invariant
                    self.wf(),
                    j <= entries@.len(),
                    k < features@.len(),
                    name@ == features@[k as int].0@,
                    entries@.len() == self.entries@.len() + k,
                    forall|p: int|
                        0 <= p < self.entries@.len() ==> entries@[p].0@ == self.entries@[p].0@,
                    forall|p: int|
                        0 <= p < k ==> entries@[self.entries@.len() + p].0@ == features@[p].0@,
                    forall|p: int| 0 <= p < j ==> entries@[p].0@ != name@,
                decreases entries@.len() - j,
            {
                if entries[j].0 == name {
                    proof {
                        let sl = self.entries@.len() as int;
                        assert(entries@[j as int].0@ == name@);
                        assert(name@ == features@[k as int].0@);
                        if (j as int) < sl {
                            assert(self.names()[j as int] == self.entries@[j as int].0@);
                            assert(self.has_feature(features@[k as int].0@));
                        } else {
                            assert(entries@[j as int].0@ == features@[j as int - sl].0@);
                            assert(features@[j as int - sl].0@ == features@[k as int].0@);
                            assert(0 <= j as int - sl < k as int);
                        }
                    }
                    return Err(
                        StateModelError {
                            kind: StateErrorKind::DuplicateName,
                            feature_name: name,
                        },
                    );
                }
                j = j + 1;
            }
            let feat: StateFeature = features[k].1;
            entries.push((name, feat));
            k = k + 1;
        }
        let model = StateModel { entries };
        proof {
            assert(model.names() =~= self.names() + features@.map(
                |i: int, e: (String, StateFeature)| e.0@,
            ));
            assert(model.features() =~= self.features() + features@.map(
                |i: int, e: (String, StateFeature)| e.1,
            ));
        }
        if !check_initials(&model) {
            proof {
                let sl = self.entries@.len() as int;
                let bad = choose|i: int|
                    0 <= i < model.spec_len() && !((#[trigger] model.features()[i]).spec_initial()
                        <= i64::MAX);
                if bad < sl {
                    assert(model.features()[bad] == self.features()[bad]);
                    assert(self.features()[bad].spec_initial() <= i64::MAX);
                } else {
                    assert(model.features()[bad] == features@.map(
                        |i: int, e: (String, StateFeature)| e.1,
                    )[bad - sl]);
                    assert(model.features()[bad] == features@[bad - sl].1);
                }
            }
            return Err(
                StateModelError {
                    kind: StateErrorKind::ValueOutOfRange,
                    feature_name: String::new(),
                },
            );
        }
        proof {
            let sl = self.entries@.len() as int;
            assert forall|i: int, j: int|
                0 <= i < j < features@.len() implies (#[trigger] features@[i]).0@ != (
            #[trigger] features@[j]).0@ by {
                assert(entries@[sl + i].0@ == features@[i].0@);
                assert(entries@[sl + j].0@ == features@[j].0@);
            }
            assert forall|i: int|
                0 <= i < features@.len() implies !self.has_feature(
                (#[trigger] features@[i]).0@,
            ) by {
                assert(entries@[sl + i].0@ == features@[i].0@);
                assert forall|j: int| 0 <= j < sl implies self.names()[j] != features@[i].0@ by {
                    assert(entries@[j].0@ == self.entries@[j].0@);
                    assert(self.names()[j] == self.entries@[j].0@);
                    assert(entries@[j].0@ != entries@[sl + i].0@);
                }
            }
            assert forall|i: int|
                0 <= i < features@.len() implies (#[trigger] features@[i]).1.spec_initial()
                <= i64::MAX by {
                assert(model.features()[sl + i] == features@.map(
                    |i: int, e: (String, StateFeature)| e.1,
                )[i]);
                assert(model.features()[sl + i] == features@[i].1);
            }
        }
        Ok(model)
    }

    /// A state vector filled with each feature's configured initial value.
    pub fn initial_state(&self) -> (r: Result<Vec<StateVar>, StateModelError>)
        requires
            self.wf(),
        ensures
            r is Ok,
            r is Ok ==> {
                let s = r->Ok_0@;
                &&& s.len() == self.spec_len()
                &&& forall|i: int|
                    0 <= i < s.len() ==> s[i].0 == self.features()[i].spec_initial()
            },
    {
        let mut out: Vec<StateVar> = Vec::new();
        let mut i: usize = 0;
        while i < self.entries.len()
            invariant
                self.wf(),
                i <= self.entries@.len(),
                out@.len() == i,
                forall|j: int| 0 <= j < i ==> out@[j].0 == self.features()[j].spec_initial(),
            decreases self.entries@.len() - i,
        {
            proof {
                assert(self.features()[i as int] == self.entries@[i as int].1);
                assert(self.features()[i as int].spec_initial() <= i64::MAX);
            }
            let v: i64 = match self.entries[i].1 {
                StateFeature::Distance { initial, .. } => initial.0 as i64,
                StateFeature::Time { initial, .. } => initial.0 as i64,
                StateFeature::Energy { initial, .. } => initial.0 as i64,
                StateFeature::Custom { initial } => initial.0,
            };
            out.push(StateVar(v));
            i = i + 1;
        }
        Ok(out)
    }

    /// The slot index declared under `name`, or `UnknownFeature`.
    pub fn index_of(&self, name: &String) -> (r: Result<usize, StateModelError>)
        requires
            self.wf(),
        ensures
            r is Ok <==> self.has_feature(name@),
            r is Ok ==> r->Ok_0 == self.feature_index(name@) && 0 <= r->Ok_0 < self.spec_len()
                && self.names()[r->Ok_0 as int] == name@,
            r is Err ==> r->Err_0.kind == StateErrorKind::UnknownFeature,
    {
        let mut i: usize = 0;
        while i < self.entries.len()
            invariant
                self.wf(),
                i <= self.entries@.len(),
                forall|j: int| 0 <= j < i ==> self.names()[j] != name@,
            decreases self.entries@.len() - i,
        {
            if self.entries[i].0 == *name {
                proof {
                    assert(self.names()[i as int] == name@);
                    assert(self.has_feature(name@));
                    let w = choose|w: int|
                        0 <= w < self.spec_len() && self.names()[w] == name@;
                    if w < i as int {
                        assert(self.names()[w] != self.names()[i as int]);
                    }
                    if w > i as int {
                        assert(self.names()[i as int] != self.names()[w]);
                    }
                }
                return Ok(i);
            }
            i = i + 1;
        }
        Err(StateModelError { kind: StateErrorKind::UnknownFeature, feature_name: name.clone() })
    }

    /// Unit-converts `delta` into the distance feature declared under `name`
    /// and adds it to that slot of `state`. On any failure `state` is
    /// untouched; the added amount is never negative.
    pub fn add_distance(
        &self,
        state: &mut Vec<StateVar>,
        name: &String,
        delta: &Distance,
        unit: &DistanceUnit,
    ) -> (r: Result<(), StateModelError>)
        requires
            self.wf(),
            self.valid_state(old(state)@),
        ensures
            final(state)@.len() == old(state)@.len(),
            forall|j: int| 0 <= j < old(state)@.len() ==> final(state)@[j].0 >= old(state)@[j].0,
            r is Ok <==> self.has_feature(name@) && (self.features()[self.feature_index(name@)]
                matches StateFeature::Distance { distance_unit, .. } && spec_convert_distance(
                delta.0 as int,
                *unit,
                distance_unit,
            ) <= u64::MAX && old(state)@[self.feature_index(name@)].0 + spec_convert_distance(
                delta.0 as int,
                *unit,
                distance_unit,
            ) <= i64::MAX),
            r is Ok ==> (self.features()[self.feature_index(name@)] matches StateFeature::Distance {
                distance_unit,
                ..
            } && spec_convert_distance(delta.0 as int, *unit, distance_unit) >= 0 && final(state)@
                == old(state)@.update(
                self.feature_index(name@),
                StateVar(
                    (old(state)@[self.feature_index(name@)].0 + spec_convert_distance(
                        delta.0 as int,
                        *unit,
                        distance_unit,
                    )) as i64,
                ),
            )),
            r is Err ==> final(state)@ == old(state)@,
            r is Err ==> (r->Err_0.kind == StateErrorKind::UnknownFeature <==> !self.has_feature(
                name@,
            )),
    {
        let i = self.index_of(name)?;
        proof {
            assert(self.features()[i as int] == self.entries@[i as int].1);
        }
        match self.entries[i].1 {
            StateFeature::Distance { distance_unit, .. } => {
                match crate::units::convert_distance(*delta, *unit, distance_unit) {
                    None => Err(
                        StateModelError {
                            kind: StateErrorKind::ValueOutOfRange,
                            feature_name: name.clone(),
                        },
                    ),
                    Some(conv) => {
                        let sum: i128 = state[i].0 as i128 + conv.0 as i128;
                        if sum <= i64::MAX as i128 {
                            state[i] = StateVar(sum as i64);
                            Ok(())
                        } else {
                            Err(
                                StateModelError {
                                    kind: StateErrorKind::ValueOutOfRange,
                                    feature_name: name.clone(),
                                },
                            )
                        }
                    },
                }
            },
            _ => Err(
                StateModelError {
                    kind: StateErrorKind::UnitMismatch,
                    feature_name: name.clone(),
                },
            ),
        }
    }

    /// Unit-converts `delta` into the time feature declared under `name` and
    /// adds it to that slot of `state`. On any failure `state` is untouched;
    /// the added amount is never negative.
    pub fn add_time(
        &self,
        state: &mut Vec<StateVar>,
        name: &String,
        delta: &Time,
        unit: &TimeUnit,
    ) -> (r: Result<(), StateModelError>)
        requires
            self.wf(),
            self.valid_state(old(state)@),
        ensures
            final(state)@.len() == old(state)@.len(),
            forall|j: int| 0 <= j < old(state)@.len() ==> final(state)@[j].0 >= old(state)@[j].0,
            r is Ok <==> self.has_feature(name@) && (self.features()[self.feature_index(name@)]
                matches StateFeature::Time { time_unit, .. } && spec_convert_time(
                delta.0 as int,
                *unit,
                time_unit,
            ) <= u64::MAX && old(state)@[self.feature_index(name@)].0 + spec_convert_time(
                delta.0 as int,
                *unit,
                time_unit,
            ) <= i64::MAX),
            r is Ok ==> (self.features()[self.feature_index(name@)] matches StateFeature::Time {
                time_unit,
                ..
            } && spec_convert_time(delta.0 as int, *unit, time_unit) >= 0 && final(state)@
                == old(state)@.update(
                self.feature_index(name@),
                StateVar(
                    (old(state)@[self.feature_index(name@)].0 + spec_convert_time(
                        delta.0 as int,
                        *unit,
                        time_unit,
                    )) as i64,
                ),
            )),
            r is Err ==> final(state)@ == old(state)@,
            r is Err ==> (r->Err_0.kind == StateErrorKind::UnknownFeature <==> !self.has_feature(
                name@,
            )),
    {
        let i = self.index_of(name)?;
        proof {
            assert(self.features()[i as int] == self.entries@[i as int].1);
        }
        match self.entries[i].1 {
            StateFeature::Time { time_unit, .. } => {
                match crate::units::convert_time(*delta, *unit, time_unit) {
                    None => Err(
                        StateModelError {
                            kind: StateErrorKind::ValueOutOfRange,
                            feature_name: name.clone(),
                        },
                    ),
                    Some(conv) => {
                        let sum: i128 = state[i].0 as i128 + conv.0 as i128;
                        if sum <= i64::MAX as i128 {
                            state[i] = StateVar(sum as i64);
                            Ok(())
                        } else {
                            Err(
                                StateModelError {
                                    kind: StateErrorKind::ValueOutOfRange,
                                    feature_name: name.clone(),
                                },
                            )
                        }
                    },
                }
            },
            _ => Err(
                StateModelError {
                    kind: StateErrorKind::UnitMismatch,
                    feature_name: name.clone(),
                },
            ),
        }
    }

    /// Unit-converts `delta` into the energy feature declared under `name`
    /// and adds it to that slot of `state`. On any failure `state` is
    /// untouched; the added amount is never negative.
    pub fn add_energy(
        &self,
        state: &mut Vec<StateVar>,
        name: &String,
        delta: &Energy,
        unit: &EnergyUnit,
    ) -> (r: Result<(), StateModelError>)
        requires
            self.wf(),
            self.valid_state(old(state)@),
        ensures
            final(state)@.len() == old(state)@.len(),
            forall|j: int| 0 <= j < old(state)@.len() ==> final(state)@[j].0 >= old(state)@[j].0,
            r is Ok <==> self.has_feature(name@) && (self.features()[self.feature_index(name@)]
                matches StateFeature::Energy { energy_unit, .. } && spec_convert_energy(
                delta.0 as int,
                *unit,
                energy_unit,
            ) <= u64::MAX && old(state)@[self.feature_index(name@)].0 + spec_convert_energy(
                delta.0 as int,
                *unit,
                energy_unit,
            ) <= i64::MAX),
            r is Ok ==> (self.features()[self.feature_index(name@)] matches StateFeature::Energy {
                energy_unit,
                ..
            } && spec_convert_energy(delta.0 as int, *unit, energy_unit) >= 0 && final(state)@
                == old(state)@.update(
                self.feature_index(name@),
                StateVar(
                    (old(state)@[self.feature_index(name@)].0 + spec_convert_energy(
                        delta.0 as int,
                        *unit,
                        energy_unit,
                    )) as i64,
                ),
            )),
            r is Err ==> final(state)@ == old(state)@,
            r is Err ==> (r->Err_0.kind == StateErrorKind::UnknownFeature <==> !self.has_feature(
                name@,
            )),
    {
        let i = self.index_of(name)?;
        proof {
            assert(self.features()[i as int] == self.entries@[i as int].1);
        }
        match self.entries[i].1 {
            StateFeature::Energy { energy_unit, .. } => {
                match convert_energy(*delta, *unit, energy_unit) {
                    None => Err(
                        StateModelError {
                            kind: StateErrorKind::ValueOutOfRange,
                            feature_name: name.clone(),
                        },
                    ),
                    Some(conv) => {
                        let sum: i128 = state[i].0 as i128 + conv.0 as i128;
                        if sum <= i64::MAX as i128 {
                            state[i] = StateVar(sum as i64);
                            Ok(())
                        } else {
                            Err(
                                StateModelError {
                                    kind: StateErrorKind::ValueOutOfRange,
                                    feature_name: name.clone(),
                                },
                            )
                        }
                    },
                }
            },
            _ => Err(
                StateModelError {
                    kind: StateErrorKind::UnitMismatch,
                    feature_name: name.clone(),
                },
            ),
        }
    }

    /// Reads the accumulator declared under `name` out of `state`.
    pub fn get(&self, state: &Vec<StateVar>, name: &String) -> (r: Result<
        StateVar,
        StateModelError,
    >)
        requires
            self.wf(),
            self.valid_state(state@),
        ensures
            r is Ok <==> self.has_feature(name@),
            r is Ok ==> r->Ok_0 == state@[self.feature_index(name@)],
            r is Err ==> r->Err_0.kind == StateErrorKind::UnknownFeature,
    {
        let i = self.index_of(name)?;
        Ok(state[i])
    }
}

/// Converts an energy amount between units; `None` when the result does not
/// fit.
pub fn convert_energy(e: Energy, from: EnergyUnit, to: EnergyUnit) -> (r: Option<Energy>)
    ensures
        r is Some <==> spec_convert_energy(e.0 as int, from, to) <= u64::MAX,
        r is Some ==> r->Some_0.0 == spec_convert_energy(e.0 as int, from, to),
{
    let num: u128 = match from {
        EnergyUnit::WattHours => 1,
        EnergyUnit::KilowattHours => 1000,
    };
    let den: u128 = match to {
        EnergyUnit::WattHours => 1,
        EnergyUnit::KilowattHours => 1000,
    };
    proof {
        crate::units::lemma_mul_bounds(e.0 as int, num as int, u64::MAX as int, 1000);
    }
    let wide: u128 = (e.0 as u128) * num / den;
    if wide <= u64::MAX as u128 {
        Some(Energy(wide as u64))
    } else {
        None
    }
}

/// Every initial value of `m` fits the scalar range.
fn check_initials(m: &StateModel) -> (r: bool)
    ensures
        r <==> forall|i: int|
            0 <= i < m.spec_len() ==> #[trigger] m.features()[i].spec_initial() <= i64::MAX,
{
    let mut i: usize = 0;
    let mut ok: bool = true;
    while i < m.entries.len()
        invariant
            i <= m.entries@.len(),
            ok == forall|j: int|
                0 <= j < i ==> #[trigger] m.features()[j].spec_initial() <= i64::MAX,
        decreases m.entries@.len() - i,
    {
        let fits: bool = match m.entries[i].1 {
            StateFeature::Distance { initial, .. } => initial.0 <= i64::MAX as u64,
            StateFeature::Time { initial, .. } => initial.0 <= i64::MAX as u64,
            StateFeature::Energy { initial, .. } => initial.0 <= i64::MAX as u64,
            StateFeature::Custom { .. } => true,
        };
        proof {
            assert(m.features()[i as int] == m.entries@[i as int].1);
            assert(fits == (m.features()[i as int].spec_initial() <= i64::MAX));
        }
        ok = ok && fits;
        i = i + 1;
    }
    ok
}

} // verus!
