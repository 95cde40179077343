//! The energy model: time from the speed table plus predicted energy.
//!
//! The energy predictor itself is an external collaborator; its per-edge
//! output arrives here as a table of energy rates, so the accumulation
//! logic is verified for every rate the predictor may produce.

use vstd::prelude::*;
use crate::heuristic::coord_distance;
use crate::heuristic::spec_coord_distance;
use crate::property::Edge;
use crate::property::EdgeId;
use crate::property::Vertex;
use crate::speed::SpeedTraversalEngine;
use crate::speed::engine_wf;
use crate::speed::get_speed;
use crate::state::StateFeature;
use crate::state::StateModel;
use crate::state::StateVar;
use crate::traversal::TraversalModel;
use crate::traversal::TraversalModelError;
use crate::units::BASE_DISTANCE_UNIT;
use crate::units::Distance;
use crate::units::Energy;
use crate::units::EnergyRate;
use crate::units::EnergyRateUnit;
use crate::units::EnergyUnit;
use crate::units::Grade;
use crate::units::Speed;
use crate::units::Time;
use crate::units::convert_distance;
use crate::units::energy_for_distance;
use crate::units::spec_convert_distance;
use crate::units::spec_convert_time;
use crate::units::spec_energy_for_distance;
use crate::units::spec_time_for_distance;
use crate::units::time_for_distance;
use crate::state::spec_convert_energy;

verus! {

/// Compass headings at the two ends of an edge, in whole degrees `0..360`.
#[derive(Clone, Copy, PartialEq, Eq, Structural, Debug)]
pub struct EdgeHeading {
    pub start_heading: i16,
    pub end_heading: i16,
}

/// Looks a grade up in the optional grade table; a missing table means flat.
pub fn get_grade(grade_table: &Option<Vec<Grade>>, edge_id: EdgeId) -> (r: Result<
    Grade,
    TraversalModelError,
>)
    ensures
        grade_table is None ==> r is Ok && r->Ok_0.0 == 0,
        (grade_table matches Some(gt) ==> {
            &&& r is Ok <==> edge_id.0 < gt@.len()
            &&& (r is Ok ==> r->Ok_0 == gt@[edge_id.0 as int])
        }),
        r is Err ==> r->Err_0 is MissingIdInTabularCostFunction,
{
    match grade_table {
        None => Ok(Grade(0)),
        Some(gt) => {
            if edge_id.0 < gt.len() {
                Ok(gt[edge_id.0])
            } else {
                Err(
                    TraversalModelError::MissingIdInTabularCostFunction(
                        edge_id,
                        "grade table".to_owned(),
                    ),
                )
            }
        },
    }
}

/// Looks an edge's headings up in the headings table.
pub fn get_headings(headings_table: &Vec<EdgeHeading>, edge_id: EdgeId) -> (r: Result<
    EdgeHeading,
    TraversalModelError,
>)
    ensures
        r is Ok <==> edge_id.0 < headings_table@.len(),
        r is Ok ==> r->Ok_0 == headings_table@[edge_id.0 as int],
        r is Err ==> r->Err_0 is MissingIdInTabularCostFunction,
{
    if edge_id.0 < headings_table.len() {
        Ok(headings_table[edge_id.0])
    } else {
        Err(
            TraversalModelError::MissingIdInTabularCostFunction(
                edge_id,
                "headings table".to_owned(),
            ),
        )
    }
}

/// The turn angle from the end of `a` to the start of `b`, folded into
/// `(-180, 180]` by a truncating remainder.
pub open spec fn spec_headings_angle(a: EdgeHeading, b: EdgeHeading) -> int {
    let x = b.start_heading - a.end_heading + 180;
    let m = if x >= 0 {
        x % 360
    } else {
        -((-x) % 360)
    };
    m - 180
}

/// The signed angle between the end heading of `a` and the start heading of
/// `b`.
pub fn compute_headings_angle(a: EdgeHeading, b: EdgeHeading) -> (r: i16)
    requires
        0 <= a.end_heading < 360,
        0 <= b.start_heading < 360,
    ensures
        r == spec_headings_angle(a, b),
{
    let x: i16 = b.start_heading - a.end_heading + 180;
    let m: i16 = if x >= 0 {
        ((x as u16) % 360) as i16
    } else {
        -((((-x) as u16) % 360) as i16)
    };
    m - 180
}

/// A traversal model that adds travel time from a speed table and energy
/// from a per-edge energy-rate table produced by a predictor.
pub struct SpeedGradeEnergyModel {
    pub engine: SpeedTraversalEngine,
    pub energy_rate_table: Vec<EnergyRate>,
    pub energy_rate_unit: EnergyRateUnit,
    pub energy_unit: EnergyUnit,
    pub min_energy_rate: EnergyRate,
    pub time_feature: String,
    pub energy_feature: String,
}

impl SpeedGradeEnergyModel {
    /// Builds the model, recording the rate table's minimum for the
    /// admissible energy lower bound. Fails when the rate table is empty.
    pub fn new(
        engine: SpeedTraversalEngine,
        energy_rate_table: Vec<EnergyRate>,
        energy_rate_unit: EnergyRateUnit,
        energy_unit: EnergyUnit,
    ) -> (r: Result<SpeedGradeEnergyModel, TraversalModelError>)
        requires
            engine_wf(&engine),
        ensures
            r is Ok <==> energy_rate_table@.len() > 0,
            r is Ok ==> {
                let m = r->Ok_0;
                &&& m.wf()
                &&& m.engine == engine
                &&& m.energy_rate_table@ == energy_rate_table@
                &&& m.energy_rate_unit == energy_rate_unit
                &&& m.energy_unit == energy_unit
            },
    {
        if energy_rate_table.len() == 0 {
            return Err(
                TraversalModelError::PredictionModel("empty energy rate table".to_owned()),
            );
        }
        let mut min: u64 = energy_rate_table[0].0;
        let mut i: usize = 1;
        while i < energy_rate_table.len()
            invariant
                1 <= i <= energy_rate_table@.len(),
                forall|j: int| 0 <= j < i ==> (#[trigger] energy_rate_table@[j]).0 >= min,
                exists|j: int| 0 <= j < i && (#[trigger] energy_rate_table@[j]).0 == min,
            decreases energy_rate_table@.len() - i,
        {
            if energy_rate_table[i].0 < min {
                min = energy_rate_table[i].0;
            }
            i = i + 1;
        }
        let model = SpeedGradeEnergyModel {
            engine,
            energy_rate_table,
            energy_rate_unit,
            energy_unit,
            min_energy_rate: EnergyRate(min),
            time_feature: "time".to_owned(),
            energy_feature: "energy".to_owned(),
        };
        proof {
            let w = choose|j: int|
                0 <= j < model.energy_rate_table@.len() && (#[trigger] model.energy_rate_table@[
                j]).0 == min;
            assert(model.energy_rate_table@[w].0 == model.min_energy_rate.0);
        }
        Ok(model)
    }

    /// The energy over `edge` in milli-units of the rate unit's energy
    /// dimension, before conversion into the schema's unit.
    pub open spec fn spec_edge_energy(&self, edge: Edge) -> int {
        spec_energy_for_distance(
            self.energy_rate_table@[edge.edge_id.0 as int].0 as int,
            self.energy_rate_unit,
            spec_convert_distance(edge.distance.0 as int, BASE_DISTANCE_UNIT,
                self.engine.distance_unit),
            self.engine.distance_unit,
            self.energy_unit,
        )
    }

    /// The travel time over `edge` in milli-units of the engine's time unit.
    pub open spec fn spec_edge_time(&self, edge: Edge) -> int {
        spec_time_for_distance(
            self.engine.speed_table@[edge.edge_id.0 as int].0 as int,
            self.engine.speed_unit,
            spec_convert_distance(edge.distance.0 as int, BASE_DISTANCE_UNIT,
                self.engine.distance_unit),
            self.engine.distance_unit,
            self.engine.time_unit,
        )
    }
}

impl TraversalModel for SpeedGradeEnergyModel {
    open spec fn wf(&self) -> bool {
        &&& engine_wf(&self.engine)
        &&& self.energy_rate_table@.len() > 0
        &&& forall|j: int|
            0 <= j < self.energy_rate_table@.len() ==> (#[trigger] self.energy_rate_table@[j]).0
                >= self.min_energy_rate.0
        &&& self.time_feature@ == "time"@
        &&& self.energy_feature@ == "energy"@
    }

    open spec fn traverse_ens(
        &self,
        sm: &StateModel,
        edge: Edge,
        s0: Seq<StateVar>,
        s1: Seq<StateVar>,
    ) -> bool {
        let t = self.spec_edge_time(edge);
        let e = self.spec_edge_energy(edge);
        let ti = sm.feature_index("time"@);
        let ei = sm.feature_index("energy"@);
        let s_mid = s0.update(
            ti,
            StateVar((s0[ti].0 + spec_convert_time(t, self.engine.time_unit, sm.features()[ti]->Time_time_unit)) as i64),
        );
        &&& edge.edge_id.0 < self.engine.speed_table@.len()
        &&& edge.edge_id.0 < self.energy_rate_table@.len()
        &&& sm.has_feature("time"@)
        &&& sm.has_feature("energy"@)
        &&& sm.features()[ti] is Time
        &&& sm.features()[ei] is Energy
        &&& s1 == s_mid.update(
            ei,
            StateVar((s_mid[ei].0 + spec_convert_energy(e, self.energy_unit, sm.features()[ei]->Energy_energy_unit)) as i64),
        )
    }

    open spec fn access_ens(
        &self,
        sm: &StateModel,
        prev: Edge,
        next: Edge,
        s0: Seq<StateVar>,
        s1: Seq<StateVar>,
    ) -> bool {
        s1 == s0
    }

    open spec fn estimate_ens(
        &self,
        sm: &StateModel,
        src: Vertex,
        dst: Vertex,
        s0: Seq<StateVar>,
        s1: Seq<StateVar>,
    ) -> bool {
        let d = spec_coord_distance(src.coordinate, dst.coordinate, self.engine.distance_unit);
        if d == 0 {
            s1 == s0
        } else {
            let t = spec_time_for_distance(
                self.engine.max_speed.0 as int,
                self.engine.speed_unit,
                d,
                self.engine.distance_unit,
                self.engine.time_unit,
            );
            let e = spec_energy_for_distance(
                self.min_energy_rate.0 as int,
                self.energy_rate_unit,
                d,
                self.engine.distance_unit,
                self.energy_unit,
            );
            let ti = sm.feature_index("time"@);
            let ei = sm.feature_index("energy"@);
            let s_mid = s0.update(
                ti,
                StateVar((s0[ti].0 + spec_convert_time(t, self.engine.time_unit, sm.features()[ti]->Time_time_unit)) as i64),
            );
            &&& sm.has_feature("time"@)
            &&& sm.has_feature("energy"@)
            &&& sm.features()[ti] is Time
            &&& sm.features()[ei] is Energy
            &&& s1 == s_mid.update(
                ei,
                StateVar((s_mid[ei].0 + spec_convert_energy(e, self.energy_unit, sm.features()[ei]->Energy_energy_unit)) as i64),
            )
        }
    }

    open spec fn spec_state_features(&self) -> Seq<(Seq<char>, StateFeature)> {
        seq![
            ("energy"@, StateFeature::Energy { energy_unit: self.energy_unit, initial: Energy(0) }),
        ]
    }

    open spec fn traverse_ok(&self, sm: &StateModel, edge: Edge, s0: Seq<StateVar>) -> bool {
        let conv = spec_convert_distance(edge.distance.0 as int, BASE_DISTANCE_UNIT,
            self.engine.distance_unit);
        let t = self.spec_edge_time(edge);
        let e = self.spec_edge_energy(edge);
        let ti = sm.feature_index("time"@);
        let ei = sm.feature_index("energy"@);
        let conv_t = spec_convert_time(t, self.engine.time_unit, sm.features()[ti]->Time_time_unit);
        let conv_e = spec_convert_energy(e, self.energy_unit, sm.features()[ei]->Energy_energy_unit);
        let s_mid = s0.update(ti, StateVar((s0[ti].0 + conv_t) as i64));
        &&& conv <= u64::MAX
        &&& edge.edge_id.0 < self.engine.speed_table@.len()
        &&& self.engine.speed_table@[edge.edge_id.0 as int].0 > 0
        &&& t <= u64::MAX
        &&& edge.edge_id.0 < self.energy_rate_table@.len()
        &&& e <= u64::MAX
        &&& sm.has_feature("time"@)
        &&& sm.features()[ti] is Time
        &&& conv_t <= u64::MAX
        &&& s0[ti].0 + conv_t <= i64::MAX
        &&& sm.has_feature("energy"@)
        &&& sm.features()[ei] is Energy
        &&& conv_e <= u64::MAX
        &&& s_mid[ei].0 + conv_e <= i64::MAX
    }

    open spec fn access_ok(&self, sm: &StateModel, prev: Edge, next: Edge, s0: Seq<StateVar>) -> bool {
        true
    }

    open spec fn estimate_ok(&self, sm: &StateModel, src: Vertex, dst: Vertex, s0: Seq<StateVar>) -> bool {
        let d = spec_coord_distance(src.coordinate, dst.coordinate, self.engine.distance_unit);
        let t = spec_time_for_distance(
            self.engine.max_speed.0 as int,
            self.engine.speed_unit,
            d,
            self.engine.distance_unit,
            self.engine.time_unit,
        );
        let e = spec_energy_for_distance(
            self.min_energy_rate.0 as int,
            self.energy_rate_unit,
            d,
            self.engine.distance_unit,
            self.energy_unit,
        );
        let ti = sm.feature_index("time"@);
        let ei = sm.feature_index("energy"@);
        let conv_t = spec_convert_time(t, self.engine.time_unit, sm.features()[ti]->Time_time_unit);
        let conv_e = spec_convert_energy(e, self.energy_unit, sm.features()[ei]->Energy_energy_unit);
        let s_mid = s0.update(ti, StateVar((s0[ti].0 + conv_t) as i64));
        if d == 0 {
            true
        } else {
            &&& t <= u64::MAX
            &&& e <= u64::MAX
            &&& sm.has_feature("time"@)
            &&& sm.features()[ti] is Time
            &&& conv_t <= u64::MAX
            &&& s0[ti].0 + conv_t <= i64::MAX
            &&& sm.has_feature("energy"@)
            &&& sm.features()[ei] is Energy
            &&& conv_e <= u64::MAX
            &&& s_mid[ei].0 + conv_e <= i64::MAX
        }
    }

    proof fn lemma_traverse_deterministic(
        &self,
        sm: &StateModel,
        edge: Edge,
        s0: Seq<StateVar>,
        s1a: Seq<StateVar>,
        s1b: Seq<StateVar>,
    ) {
    }

    proof fn lemma_access_deterministic(
        &self,
        sm: &StateModel,
        prev: Edge,
        next: Edge,
        s0: Seq<StateVar>,
        s1a: Seq<StateVar>,
        s1b: Seq<StateVar>,
    ) {
    }

    proof fn lemma_estimate_deterministic(
        &self,
        sm: &StateModel,
        src: Vertex,
        dst: Vertex,
        s0: Seq<StateVar>,
        s1a: Seq<StateVar>,
        s1b: Seq<StateVar>,
    ) {
    }

    fn traverse_edge(
        &self,
        trajectory: (&Vertex, &Edge, &Vertex),
        state: &mut Vec<StateVar>,
        state_model: &StateModel,
    ) -> (r: Result<(), TraversalModelError>) {
        let (_, edge, _) = trajectory;
        let d: Distance = match convert_distance(
            edge.distance,
            BASE_DISTANCE_UNIT,
            self.engine.distance_unit,
        ) {
            Some(d) => d,
            None => {
                return Err(
                    TraversalModelError::NumericError("distance conversion overflow".to_owned()),
                );
            },
        };
        let speed: Speed = get_speed(&self.engine.speed_table, edge.edge_id)?;
        let edge_time: Time = match time_for_distance(
            speed,
            self.engine.speed_unit,
            d,
            self.engine.distance_unit,
            self.engine.time_unit,
        ) {
            Some(t) => t,
            None => {
                return Err(TraversalModelError::NumericError("edge time out of range".to_owned()));
            },
        };
        if edge.edge_id.0 >= self.energy_rate_table.len() {
            return Err(
                TraversalModelError::MissingIdInTabularCostFunction(
                    edge.edge_id,
                    "energy rate table".to_owned(),
                ),
            );
        }
        let rate: EnergyRate = self.energy_rate_table[edge.edge_id.0];
        let edge_energy: Energy = match energy_for_distance(
            rate,
            self.energy_rate_unit,
            d,
            self.engine.distance_unit,
            self.energy_unit,
        ) {
            Some(e) => e,
            None => {
                return Err(
                    TraversalModelError::NumericError("edge energy out of range".to_owned()),
                );
            },
        };
        let mut scratch: Vec<StateVar> = crate::search::copy_state(state);
        match state_model.add_time(
            &mut scratch,
            &self.time_feature,
            &edge_time,
            &self.engine.time_unit,
        ) {
            Ok(()) => {},
            Err(e) => {
                return Err(TraversalModelError::StateError(e));
            },
        }
        match state_model.add_energy(
            &mut scratch,
            &self.energy_feature,
            &edge_energy,
            &self.energy_unit,
        ) {
            Ok(()) => {},
            Err(e) => {
                return Err(TraversalModelError::StateError(e));
            },
        }
        *state = scratch;
        Ok(())
    }

    fn access_edge(
        &self,
        trajectory: (&Vertex, &Edge, &Vertex, &Edge, &Vertex),
        state: &mut Vec<StateVar>,
        state_model: &StateModel,
    ) -> (r: Result<(), TraversalModelError>) {
        Ok(())
    }

    fn estimate_traversal(
        &self,
        od: (&Vertex, &Vertex),
        state: &mut Vec<StateVar>,
        state_model: &StateModel,
    ) -> (r: Result<(), TraversalModelError>) {
        let (src, dst) = od;
        let d: Distance = coord_distance(
            src.coordinate,
            dst.coordinate,
            self.engine.distance_unit,
        );
        if d.0 == 0 {
            return Ok(());
        }
        let est_time: Time = match time_for_distance(
            self.engine.max_speed,
            self.engine.speed_unit,
            d,
            self.engine.distance_unit,
            self.engine.time_unit,
        ) {
            Some(t) => t,
            None => {
                return Err(
                    TraversalModelError::NumericError("estimated time out of range".to_owned()),
                );
            },
        };
        let est_energy: Energy = match energy_for_distance(
            self.min_energy_rate,
            self.energy_rate_unit,
            d,
            self.engine.distance_unit,
            self.energy_unit,
        ) {
            Some(e) => e,
            None => {
                return Err(
                    TraversalModelError::NumericError("estimated energy out of range".to_owned()),
                );
            },
        };
        let mut scratch: Vec<StateVar> = crate::search::copy_state(state);
        match state_model.add_time(
            &mut scratch,
            &self.time_feature,
            &est_time,
            &self.engine.time_unit,
        ) {
            Ok(()) => {},
            Err(e) => {
                return Err(TraversalModelError::StateError(e));
            },
        }
        match state_model.add_energy(
            &mut scratch,
            &self.energy_feature,
            &est_energy,
            &self.energy_unit,
        ) {
            Ok(()) => {},
            Err(e) => {
                return Err(TraversalModelError::StateError(e));
            },
        }
        *state = scratch;
        Ok(())
    }

    fn state_features(&self) -> (r: Vec<(String, StateFeature)>) {
        let mut out: Vec<(String, StateFeature)> = Vec::new();
        out.push(
            (
                "energy".to_owned(),
                StateFeature::Energy { energy_unit: self.energy_unit, initial: Energy(0) },
            ),
        );
        proof {
            assert(out@.map(|i: int, e: (String, StateFeature)| (e.0@, e.1))
                =~= self.spec_state_features());
        }
        out
    }
}

} // verus!
