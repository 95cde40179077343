//! The tabular speed model: time cost from a per-edge speed table.

use vstd::prelude::*;
use crate::heuristic::coord_distance;
use crate::heuristic::spec_coord_distance;
use crate::property::Edge;
use crate::property::EdgeId;
use crate::property::Vertex;
use crate::state::StateFeature;
use crate::state::StateModel;
use crate::state::StateVar;
use crate::traversal::TraversalModel;
use crate::traversal::TraversalModelError;
use crate::units::BASE_DISTANCE_UNIT;
use crate::units::Distance;
use crate::units::DistanceUnit;
use crate::units::Speed;
use crate::units::SpeedUnit;
use crate::units::Time;
use crate::units::TimeUnit;
use crate::units::convert_distance;
use crate::units::spec_convert_distance;
use crate::units::spec_convert_time;
use crate::units::spec_time_for_distance;
use crate::units::time_for_distance;

verus! {

/// The speed table and unit configuration shared by speed-based models.
pub struct SpeedTraversalEngine {
    pub speed_table: Vec<Speed>,
    pub speed_unit: SpeedUnit,
    pub distance_unit: DistanceUnit,
    pub time_unit: TimeUnit,
    pub max_speed: Speed,
}

/// The engine's invariant: the recorded maximum dominates the table and is
/// attained in it.
pub open spec fn engine_wf(e: &SpeedTraversalEngine) -> bool {
    &&& e.max_speed.0 > 0
    &&& forall|i: int|
        0 <= i < e.speed_table@.len() ==> (#[trigger] e.speed_table@[i]).0 <= e.max_speed.0
    &&& exists|i: int|
        0 <= i < e.speed_table@.len() && (#[trigger] e.speed_table@[i]).0 == e.max_speed.0
}

impl SpeedTraversalEngine {
    /// Builds an engine from a speed table, recording the table's maximum.
    /// Fails when the table is empty or its maximum speed is zero.
    pub fn new(
        speed_table: Vec<Speed>,
        speed_unit: SpeedUnit,
        distance_unit_option: Option<DistanceUnit>,
        time_unit_option: Option<TimeUnit>,
    ) -> (r: Result<SpeedTraversalEngine, TraversalModelError>)
        ensures
            r is Ok <==> speed_table@.len() > 0 && (exists|i: int|
                0 <= i < speed_table@.len() && (#[trigger] speed_table@[i]).0 > 0),
            r is Ok ==> {
                let e = r->Ok_0;
                &&& engine_wf(&e)
                &&& e.speed_table@ == speed_table@
                &&& e.speed_unit == speed_unit
                &&& e.distance_unit == match distance_unit_option {
                    Some(u) => u,
                    None => BASE_DISTANCE_UNIT,
                }
                &&& e.time_unit == match time_unit_option {
                    Some(u) => u,
                    None => TimeUnit::Seconds,
                }
            },
    {
        let mut max: u64 = 0;
        let mut i: usize = 0;
        while i < speed_table.len()
            invariant
                i <= speed_table@.len(),
                forall|j: int| 0 <= j < i ==> (#[trigger] speed_table@[j]).0 <= max,
                max > 0 ==> exists|j: int|
                    0 <= j < i && (#[trigger] speed_table@[j]).0 == max,
                max == 0 ==> forall|j: int| 0 <= j < i ==> (#[trigger] speed_table@[j]).0 == 0,
            decreases speed_table@.len() - i,
        {
            if speed_table[i].0 > max {
                max = speed_table[i].0;
            }
            i = i + 1;
        }
        if max == 0 {
            return Err(
                TraversalModelError::NumericError("speed table empty or all zero".to_owned()),
            );
        }
        let distance_unit = match distance_unit_option {
            Some(u) => u,
            None => BASE_DISTANCE_UNIT,
        };
        let time_unit = match time_unit_option {
            Some(u) => u,
            None => TimeUnit::Seconds,
        };
        let engine = SpeedTraversalEngine {
            speed_table,
            speed_unit,
            distance_unit,
            time_unit,
            max_speed: Speed(max),
        };
        proof {
            let w = choose|j: int|
                0 <= j < engine.speed_table@.len() && (#[trigger] engine.speed_table@[j]).0
                    == max;
            assert(engine.speed_table@[w].0 == engine.max_speed.0);
        }
        Ok(engine)
    }
}

/// Looks a speed up in the table by edge id.
pub fn get_speed(speed_table: &Vec<Speed>, edge_id: EdgeId) -> (r: Result<
    Speed,
    TraversalModelError,
>)
    ensures
        r is Ok <==> edge_id.0 < speed_table@.len(),
        r is Ok ==> r->Ok_0 == speed_table@[edge_id.0 as int],
        r is Err ==> r->Err_0 is MissingIdInTabularCostFunction,
{
    if edge_id.0 < speed_table.len() {
        Ok(speed_table[edge_id.0])
    } else {
        Err(
            TraversalModelError::MissingIdInTabularCostFunction(
                edge_id,
                "speed table".to_owned(),
            ),
        )
    }
}

/// A traversal model whose cost is travel time from the speed table,
/// accumulated into the `"time"` feature.
pub struct SpeedTraversalModel {
    pub engine: SpeedTraversalEngine,
    pub feature: String,
}

impl SpeedTraversalModel {
    pub fn new(engine: SpeedTraversalEngine) -> (r: SpeedTraversalModel)
        requires
            engine_wf(&engine),
        ensures
            r.engine == engine,
            r.wf(),
    {
        SpeedTraversalModel { engine, feature: "time".to_owned() }
    }

    /// The travel time over `edge` in milli-units of the engine's time unit.
    pub open spec fn spec_edge_time(&self, edge: Edge) -> int {
        spec_time_for_distance(
            self.engine.speed_table@[edge.edge_id.0 as int].0 as int,
            self.engine.speed_unit,
            spec_convert_distance(edge.distance.0 as int, BASE_DISTANCE_UNIT,
                self.engine.distance_unit),
            self.engine.distance_unit,
            self.engine.time_unit,
        )
    }
}

impl TraversalModel for SpeedTraversalModel {
    open spec fn wf(&self) -> bool {
        &&& engine_wf(&self.engine)
        &&& self.feature@ == "time"@
    }

    open spec fn traverse_ens(
        &self,
        sm: &StateModel,
        edge: Edge,
        s0: Seq<StateVar>,
        s1: Seq<StateVar>,
    ) -> bool {
        let t = self.spec_edge_time(edge);
        let i = sm.feature_index("time"@);
        &&& edge.edge_id.0 < self.engine.speed_table@.len()
        &&& sm.has_feature("time"@)
        &&& (sm.features()[i] matches StateFeature::Time { time_unit: fu, .. }
            && spec_convert_time(t, self.engine.time_unit, fu) >= 0 && s0[i].0 + spec_convert_time(
            t,
            self.engine.time_unit,
            fu,
        ) <= i64::MAX && s1 == s0.update(
            i,
            StateVar((s0[i].0 + spec_convert_time(t, self.engine.time_unit, fu)) as i64),
        ))
    }

    open spec fn access_ens(
        &self,
        sm: &StateModel,
        prev: Edge,
        next: Edge,
        s0: Seq<StateVar>,
        s1: Seq<StateVar>,
    ) -> bool {
        s1 == s0
    }

    open spec fn estimate_ens(
        &self,
        sm: &StateModel,
        src: Vertex,
        dst: Vertex,
        s0: Seq<StateVar>,
        s1: Seq<StateVar>,
    ) -> bool {
        let d = spec_coord_distance(src.coordinate, dst.coordinate, self.engine.distance_unit);
        let t = spec_time_for_distance(
            self.engine.max_speed.0 as int,
            self.engine.speed_unit,
            d,
            self.engine.distance_unit,
            self.engine.time_unit,
        );
        let i = sm.feature_index("time"@);
        if d == 0 {
            s1 == s0
        } else {
            &&& sm.has_feature("time"@)
            &&& (sm.features()[i] matches StateFeature::Time { time_unit: fu, .. } && s1
                == s0.update(
                i,
                StateVar((s0[i].0 + spec_convert_time(t, self.engine.time_unit, fu)) as i64),
            ))
        }
    }

    open spec fn spec_state_features(&self) -> Seq<(Seq<char>, StateFeature)> {
        Seq::empty()
    }

    open spec fn traverse_ok(&self, sm: &StateModel, edge: Edge, s0: Seq<StateVar>) -> bool {
        let conv = spec_convert_distance(edge.distance.0 as int, BASE_DISTANCE_UNIT,
            self.engine.distance_unit);
        let t = self.spec_edge_time(edge);
        let i = sm.feature_index("time"@);
        &&& conv <= u64::MAX
        &&& edge.edge_id.0 < self.engine.speed_table@.len()
        &&& self.engine.speed_table@[edge.edge_id.0 as int].0 > 0
        &&& t <= u64::MAX
        &&& sm.has_feature("time"@)
        &&& (sm.features()[i] matches StateFeature::Time { time_unit: fu, .. }
            && spec_convert_time(t, self.engine.time_unit, fu) <= u64::MAX && s0[i].0
            + spec_convert_time(t, self.engine.time_unit, fu) <= i64::MAX)
    }

    open spec fn access_ok(&self, sm: &StateModel, prev: Edge, next: Edge, s0: Seq<StateVar>) -> bool {
        true
    }

    open spec fn estimate_ok(&self, sm: &StateModel, src: Vertex, dst: Vertex, s0: Seq<StateVar>) -> bool {
        let d = spec_coord_distance(src.coordinate, dst.coordinate, self.engine.distance_unit);
        let t = spec_time_for_distance(
            self.engine.max_speed.0 as int,
            self.engine.speed_unit,
            d,
            self.engine.distance_unit,
            self.engine.time_unit,
        );
        let i = sm.feature_index("time"@);
        if d == 0 {
            true
        } else {
            &&& t <= u64::MAX
            &&& sm.has_feature("time"@)
            &&& (sm.features()[i] matches StateFeature::Time { time_unit: fu, .. }
                && spec_convert_time(t, self.engine.time_unit, fu) <= u64::MAX && s0[i].0
                + spec_convert_time(t, self.engine.time_unit, fu) <= i64::MAX)
        }
    }

    proof fn lemma_traverse_deterministic(
        &self,
        sm: &StateModel,
        edge: Edge,
        s0: Seq<StateVar>,
        s1a: Seq<StateVar>,
        s1b: Seq<StateVar>,
    ) {
    }

    proof fn lemma_access_deterministic(
        &self,
        sm: &StateModel,
        prev: Edge,
        next: Edge,
        s0: Seq<StateVar>,
        s1a: Seq<StateVar>,
        s1b: Seq<StateVar>,
    ) {
    }

    proof fn lemma_estimate_deterministic(
        &self,
        sm: &StateModel,
        src: Vertex,
        dst: Vertex,
        s0: Seq<StateVar>,
        s1a: Seq<StateVar>,
        s1b: Seq<StateVar>,
    ) {
    }

    fn traverse_edge(
        &self,
        trajectory: (&Vertex, &Edge, &Vertex),
        state: &mut Vec<StateVar>,
        state_model: &StateModel,
    ) -> (r: Result<(), TraversalModelError>) {
        let (_, edge, _) = trajectory;
        let d: Distance = match convert_distance(
            edge.distance,
            BASE_DISTANCE_UNIT,
            self.engine.distance_unit,
        ) {
            Some(d) => d,
            None => {
                return Err(
                    TraversalModelError::NumericError("distance conversion overflow".to_owned()),
                );
            },
        };
        let speed: Speed = get_speed(&self.engine.speed_table, edge.edge_id)?;
        let edge_time: Time = match time_for_distance(
            speed,
            self.engine.speed_unit,
            d,
            self.engine.distance_unit,
            self.engine.time_unit,
        ) {
            Some(t) => t,
            None => {
                return Err(
                    TraversalModelError::NumericError("edge time out of range".to_owned()),
                );
            },
        };
        match state_model.add_time(state, &self.feature, &edge_time, &self.engine.time_unit) {
            Ok(()) => Ok(()),
            Err(e) => Err(TraversalModelError::StateError(e)),
        }
    }

    fn access_edge(
        &self,
        trajectory: (&Vertex, &Edge, &Vertex, &Edge, &Vertex),
        state: &mut Vec<StateVar>,
        state_model: &StateModel,
    ) -> (r: Result<(), TraversalModelError>) {
        Ok(())
    }

    fn estimate_traversal(
        &self,
        od: (&Vertex, &Vertex),
        state: &mut Vec<StateVar>,
        state_model: &StateModel,
    ) -> (r: Result<(), TraversalModelError>) {
        let (src, dst) = od;
        let d: Distance = coord_distance(
            src.coordinate,
            dst.coordinate,
            self.engine.distance_unit,
        );
        if d.0 == 0 {
            return Ok(());
        }
        let estimated_time: Time = match time_for_distance(
            self.engine.max_speed,
            self.engine.speed_unit,
            d,
            self.engine.distance_unit,
            self.engine.time_unit,
        ) {
            Some(t) => t,
            None => {
                return Err(
                    TraversalModelError::NumericError("estimated time out of range".to_owned()),
                );
            },
        };
        match state_model.add_time(state, &self.feature, &estimated_time, &self.engine.time_unit) {
            Ok(()) => Ok(()),
            Err(e) => Err(TraversalModelError::StateError(e)),
        }
    }

    fn state_features(&self) -> (r: Vec<(String, StateFeature)>) {
        let out: Vec<(String, StateFeature)> = Vec::new();
        proof {
            assert(out@.map(|i: int, e: (String, StateFeature)| (e.0@, e.1))
                =~= self.spec_state_features());
        }
        out
    }
}

} // verus!
