//! The traversal model abstraction and the distance model.
//!
//! A traversal model carries a mutable state vector across edges. Its
//! capability set is a trait whose contracts pin two things for every model:
//! state length is preserved and every component is a monotone accumulator;
//! each model then states its exact effect through its own spec functions.

use vstd::prelude::*;
use crate::heuristic::coord_distance;
use crate::heuristic::spec_coord_distance;
use crate::heuristic::valid_coordinate;
use crate::property::Edge;
use crate::property::EdgeId;
use crate::property::Vertex;
use crate::state::StateFeature;
use crate::state::StateModel;
use crate::state::StateModelError;
use crate::state::StateVar;
use crate::units::BASE_DISTANCE_UNIT;
use crate::units::Distance;
use crate::units::DistanceUnit;
use crate::units::convert_distance;
use crate::units::spec_convert_distance;

verus! {

#[derive(Clone, Debug)]
pub enum TraversalModelError {
    /// A backing file could not be read: path, then cause.
    FileReadError(String, String),
    /// The energy predictor failed.
    PredictionModel(String),
    /// A numeric result fell outside the representable range.
    NumericError(String),
    /// An id had no row in a lookup table: the id, then the table name.
    MissingIdInTabularCostFunction(EdgeId, String),
    /// A model produced a negative incremental cost.
    NegativeCost(i64),
    /// A state-schema operation failed.
    StateError(StateModelError),
}

/// A cost function over edges that accumulates into a shared state vector.
pub trait TraversalModel {
    /// What this model's configuration must satisfy.
    spec fn wf(&self) -> bool;

    /// The exact effect of a successful `traverse_edge`.
    spec fn traverse_ens(
        &self,
        sm: &StateModel,
        edge: Edge,
        s0: Seq<StateVar>,
        s1: Seq<StateVar>,
    ) -> bool;

    /// The exact effect of a successful `access_edge`.
    spec fn access_ens(
        &self,
        sm: &StateModel,
        prev: Edge,
        next: Edge,
        s0: Seq<StateVar>,
        s1: Seq<StateVar>,
    ) -> bool;

    /// The exact effect of a successful `estimate_traversal`.
    spec fn estimate_ens(
        &self,
        sm: &StateModel,
        src: Vertex,
        dst: Vertex,
        s0: Seq<StateVar>,
        s1: Seq<StateVar>,
    ) -> bool;

    /// The feature declarations this model contributes to a schema.
    spec fn spec_state_features(&self) -> Seq<(Seq<char>, StateFeature)>;

    /// Exactly when `traverse_edge` succeeds from `s0`.
    spec fn traverse_ok(&self, sm: &StateModel, edge: Edge, s0: Seq<StateVar>) -> bool;

    /// Exactly when `access_edge` succeeds from `s0`.
    spec fn access_ok(&self, sm: &StateModel, prev: Edge, next: Edge, s0: Seq<StateVar>) -> bool;

    /// Exactly when `estimate_traversal` succeeds from `s0`.
    spec fn estimate_ok(&self, sm: &StateModel, src: Vertex, dst: Vertex, s0: Seq<StateVar>) -> bool;

    /// A successful traversal's effect is a function of its inputs.
    proof fn lemma_traverse_deterministic(
        &self,
        sm: &StateModel,
        edge: Edge,
        s0: Seq<StateVar>,
        s1a: Seq<StateVar>,
        s1b: Seq<StateVar>,
    )
        requires
            self.traverse_ens(sm, edge, s0, s1a),
            self.traverse_ens(sm, edge, s0, s1b),
        ensures
            s1a == s1b,
    ;

    /// A successful access's effect is a function of its inputs.
    proof fn lemma_access_deterministic(
        &self,
        sm: &StateModel,
        prev: Edge,
        next: Edge,
        s0: Seq<StateVar>,
        s1a: Seq<StateVar>,
        s1b: Seq<StateVar>,
    )
        requires
            self.access_ens(sm, prev, next, s0, s1a),
            self.access_ens(sm, prev, next, s0, s1b),
        ensures
            s1a == s1b,
    ;

    /// A successful estimate's effect is a function of its inputs.
    proof fn lemma_estimate_deterministic(
        &self,
        sm: &StateModel,
        src: Vertex,
        dst: Vertex,
        s0: Seq<StateVar>,
        s1a: Seq<StateVar>,
        s1b: Seq<StateVar>,
    )
        requires
            self.estimate_ens(sm, src, dst, s0, s1a),
            self.estimate_ens(sm, src, dst, s0, s1b),
        ensures
            s1a == s1b,
    ;

    /// Accumulates the cost of traversing `trajectory`'s edge into `state`.
    /// Components never decrease; on failure `state` is untouched.
    fn traverse_edge(
        &self,
        trajectory: (&Vertex, &Edge, &Vertex),
        state: &mut Vec<StateVar>,
        state_model: &StateModel,
    ) -> (r: Result<(), TraversalModelError>)
        requires
            self.wf(),
            state_model.wf(),
            state_model.valid_state(old(state)@),
        ensures
            final(state)@.len() == old(state)@.len(),
            forall|j: int| 0 <= j < old(state)@.len() ==> final(state)@[j].0 >= old(state)@[j].0,
            r is Ok <==> self.traverse_ok(state_model, *trajectory.1, old(state)@),
            r is Ok ==> self.traverse_ens(state_model, *trajectory.1, old(state)@, final(state)@),
            r is Err ==> final(state)@ == old(state)@,
    ;

    /// Accumulates the junction cost of turning from one edge onto the next.
    /// Components never decrease; on failure `state` is untouched.
    fn access_edge(
        &self,
        trajectory: (&Vertex, &Edge, &Vertex, &Edge, &Vertex),
        state: &mut Vec<StateVar>,
        state_model: &StateModel,
    ) -> (r: Result<(), TraversalModelError>)
        requires
            self.wf(),
            state_model.wf(),
            state_model.valid_state(old(state)@),
        ensures
            final(state)@.len() == old(state)@.len(),
            forall|j: int| 0 <= j < old(state)@.len() ==> final(state)@[j].0 >= old(state)@[j].0,
            r is Ok <==> self.access_ok(state_model, *trajectory.1, *trajectory.3, old(state)@),
            r is Ok ==> self.access_ens(
                state_model,
                *trajectory.1,
                *trajectory.3,
                old(state)@,
                final(state)@,
            ),
            r is Err ==> final(state)@ == old(state)@,
    ;

    /// Accumulates an admissible lower bound on the remaining cost from
    /// `od.0` to `od.1`. A zero-distance estimate succeeds without touching
    /// state; components never decrease; on failure `state` is untouched.
    fn estimate_traversal(
        &self,
        od: (&Vertex, &Vertex),
        state: &mut Vec<StateVar>,
        state_model: &StateModel,
    ) -> (r: Result<(), TraversalModelError>)
        requires
            self.wf(),
            state_model.wf(),
            state_model.valid_state(old(state)@),
            valid_coordinate(od.0.coordinate),
            valid_coordinate(od.1.coordinate),
        ensures
            final(state)@.len() == old(state)@.len(),
            forall|j: int| 0 <= j < old(state)@.len() ==> final(state)@[j].0 >= old(state)@[j].0,
            r is Ok <==> self.estimate_ok(state_model, *od.0, *od.1, old(state)@),
            r is Ok ==> self.estimate_ens(state_model, *od.0, *od.1, old(state)@, final(state)@),
            r is Err ==> final(state)@ == old(state)@,
            od.0.coordinate == od.1.coordinate ==> r is Ok && final(state)@ == old(state)@,
    ;

    /// The feature declarations this model contributes to a schema.
    fn state_features(&self) -> (r: Vec<(String, StateFeature)>)
        ensures
            r@.map(|i: int, e: (String, StateFeature)| (e.0@, e.1))
                == self.spec_state_features(),
    ;
}

/// A traversal model whose cost is the edge distance, accumulated into the
/// `"distance"` feature in this model's unit.
pub struct DistanceModel {
    pub distance_unit: DistanceUnit,
    pub feature: String,
}

impl DistanceModel {
    /// A distance model in the given unit, or the base unit when none is
    /// given.
    pub fn new(distance_unit_option: Option<DistanceUnit>) -> (r: DistanceModel)
        ensures
            r.distance_unit == match distance_unit_option {
                Some(u) => u,
                None => BASE_DISTANCE_UNIT,
            },
            r.wf(),
    {
        let distance_unit = match distance_unit_option {
            Some(u) => u,
            None => BASE_DISTANCE_UNIT,
        };
        DistanceModel { distance_unit, feature: "distance".to_owned() }
    }
}

impl TraversalModel for DistanceModel {
    open spec fn wf(&self) -> bool {
        self.feature@ == "distance"@
    }

    open spec fn traverse_ens(
        &self,
        sm: &StateModel,
        edge: Edge,
        s0: Seq<StateVar>,
        s1: Seq<StateVar>,
    ) -> bool {
        let conv = spec_convert_distance(edge.distance.0 as int, BASE_DISTANCE_UNIT,
            self.distance_unit);
        let i = sm.feature_index("distance"@);
        &&& sm.has_feature("distance"@)
        &&& (sm.features()[i] matches StateFeature::Distance { distance_unit: fu, .. }
            && spec_convert_distance(conv, self.distance_unit, fu) >= 0 && s0[i].0
            + spec_convert_distance(conv, self.distance_unit, fu) <= i64::MAX && s1 == s0.update(
            i,
            StateVar((s0[i].0 + spec_convert_distance(conv, self.distance_unit, fu)) as i64),
        ))
    }

    open spec fn access_ens(
        &self,
        sm: &StateModel,
        prev: Edge,
        next: Edge,
        s0: Seq<StateVar>,
        s1: Seq<StateVar>,
    ) -> bool {
        s1 == s0
    }

    open spec fn estimate_ens(
        &self,
        sm: &StateModel,
        src: Vertex,
        dst: Vertex,
        s0: Seq<StateVar>,
        s1: Seq<StateVar>,
    ) -> bool {
        let d = spec_coord_distance(src.coordinate, dst.coordinate, self.distance_unit);
        let i = sm.feature_index("distance"@);
        if d == 0 {
            s1 == s0
        } else {
            &&& sm.has_feature("distance"@)
            &&& (sm.features()[i] matches StateFeature::Distance { distance_unit: fu, .. } && s1
                == s0.update(
                i,
                StateVar((s0[i].0 + spec_convert_distance(d, self.distance_unit, fu)) as i64),
            ))
        }
    }

    open spec fn spec_state_features(&self) -> Seq<(Seq<char>, StateFeature)> {
        seq![
            (
                "distance"@,
                StateFeature::Distance { distance_unit: self.distance_unit, initial: Distance(0) },
            ),
        ]
    }

    open spec fn traverse_ok(&self, sm: &StateModel, edge: Edge, s0: Seq<StateVar>) -> bool {
        let conv = spec_convert_distance(edge.distance.0 as int, BASE_DISTANCE_UNIT,
            self.distance_unit);
        let i = sm.feature_index("distance"@);
        &&& conv <= u64::MAX
        &&& sm.has_feature("distance"@)
        &&& (sm.features()[i] matches StateFeature::Distance { distance_unit: fu, .. }
            && spec_convert_distance(conv, self.distance_unit, fu) <= u64::MAX && s0[i].0
            + spec_convert_distance(conv, self.distance_unit, fu) <= i64::MAX)
    }

    open spec fn access_ok(&self, sm: &StateModel, prev: Edge, next: Edge, s0: Seq<StateVar>) -> bool {
        true
    }

    open spec fn estimate_ok(&self, sm: &StateModel, src: Vertex, dst: Vertex, s0: Seq<StateVar>) -> bool {
        let d = spec_coord_distance(src.coordinate, dst.coordinate, self.distance_unit);
        let i = sm.feature_index("distance"@);
        if d == 0 {
            true
        } else {
            &&& sm.has_feature("distance"@)
            &&& (sm.features()[i] matches StateFeature::Distance { distance_unit: fu, .. }
                && spec_convert_distance(d, self.distance_unit, fu) <= u64::MAX && s0[i].0
                + spec_convert_distance(d, self.distance_unit, fu) <= i64::MAX)
        }
    }

    proof fn lemma_traverse_deterministic(
        &self,
        sm: &StateModel,
        edge: Edge,
        s0: Seq<StateVar>,
        s1a: Seq<StateVar>,
        s1b: Seq<StateVar>,
    ) {
    }

    proof fn lemma_access_deterministic(
        &self,
        sm: &StateModel,
        prev: Edge,
        next: Edge,
        s0: Seq<StateVar>,
        s1a: Seq<StateVar>,
        s1b: Seq<StateVar>,
    ) {
    }

    proof fn lemma_estimate_deterministic(
        &self,
        sm: &StateModel,
        src: Vertex,
        dst: Vertex,
        s0: Seq<StateVar>,
        s1a: Seq<StateVar>,
        s1b: Seq<StateVar>,
    ) {
    }

    fn traverse_edge(
        &self,
        trajectory: (&Vertex, &Edge, &Vertex),
        state: &mut Vec<StateVar>,
        state_model: &StateModel,
    ) -> (r: Result<(), TraversalModelError>) {
        let (_, edge, _) = trajectory;
        let d: Distance = match convert_distance(
            edge.distance,
            BASE_DISTANCE_UNIT,
            self.distance_unit,
        ) {
            Some(d) => d,
            None => {
                return Err(
                    TraversalModelError::NumericError("distance conversion overflow".to_owned()),
                );
            },
        };
        match state_model.add_distance(state, &self.feature, &d, &self.distance_unit) {
            Ok(()) => Ok(()),
            Err(e) => Err(TraversalModelError::StateError(e)),
        }
    }

    fn access_edge(
        &self,
        trajectory: (&Vertex, &Edge, &Vertex, &Edge, &Vertex),
        state: &mut Vec<StateVar>,
        state_model: &StateModel,
    ) -> (r: Result<(), TraversalModelError>) {
        Ok(())
    }

    fn estimate_traversal(
        &self,
        od: (&Vertex, &Vertex),
        state: &mut Vec<StateVar>,
        state_model: &StateModel,
    ) -> (r: Result<(), TraversalModelError>) {
        let (src, dst) = od;
        let d: Distance = coord_distance(src.coordinate, dst.coordinate, self.distance_unit);
        if d.0 == 0 {
            return Ok(());
        }
        match state_model.add_distance(state, &self.feature, &d, &self.distance_unit) {
            Ok(()) => Ok(()),
            Err(e) => Err(TraversalModelError::StateError(e)),
        }
    }

    fn state_features(&self) -> (r: Vec<(String, StateFeature)>) {
        let mut out: Vec<(String, StateFeature)> = Vec::new();
        out.push(
            (
                "distance".to_owned(),
                StateFeature::Distance { distance_unit: self.distance_unit, initial: Distance(0) },
            ),
        );
        proof {
            assert(out@.map(|i: int, e: (String, StateFeature)| (e.0@, e.1))
                =~= self.spec_state_features());
        }
        out
    }
}

/// Two traversal models evaluated in declared order on one state vector;
/// each relaxation applies the first model's effect and then the second's,
/// so the objective feature accumulates both contributions.
pub struct CombinedTraversalModel<A, B> {
    pub first: A,
    pub second: B,
}

impl<A: TraversalModel, B: TraversalModel> TraversalModel for CombinedTraversalModel<A, B> {
    open spec fn wf(&self) -> bool {
        self.first.wf() && self.second.wf()
    }

    open spec fn traverse_ens(
        &self,
        sm: &StateModel,
        edge: Edge,
        s0: Seq<StateVar>,
        s1: Seq<StateVar>,
    ) -> bool {
        exists|s_mid: Seq<StateVar>|
            #![auto]
            self.first.traverse_ens(sm, edge, s0, s_mid) && self.second.traverse_ens(
                sm,
                edge,
                s_mid,
                s1,
            )
    }

    open spec fn access_ens(
        &self,
        sm: &StateModel,
        prev: Edge,
        next: Edge,
        s0: Seq<StateVar>,
        s1: Seq<StateVar>,
    ) -> bool {
        exists|s_mid: Seq<StateVar>|
            #![auto]
            self.first.access_ens(sm, prev, next, s0, s_mid) && self.second.access_ens(
                sm,
                prev,
                next,
                s_mid,
                s1,
            )
    }

    open spec fn estimate_ens(
        &self,
        sm: &StateModel,
        src: Vertex,
        dst: Vertex,
        s0: Seq<StateVar>,
        s1: Seq<StateVar>,
    ) -> bool {
        exists|s_mid: Seq<StateVar>|
            #![auto]
            self.first.estimate_ens(sm, src, dst, s0, s_mid) && self.second.estimate_ens(
                sm,
                src,
                dst,
                s_mid,
                s1,
            )
    }

    open spec fn spec_state_features(&self) -> Seq<(Seq<char>, StateFeature)> {
        self.first.spec_state_features() + self.second.spec_state_features()
    }

    open spec fn traverse_ok(&self, sm: &StateModel, edge: Edge, s0: Seq<StateVar>) -> bool {
        &&& self.first.traverse_ok(sm, edge, s0)
        &&& forall|s_mid: Seq<StateVar>|
            #![auto]
            self.first.traverse_ens(sm, edge, s0, s_mid) ==> self.second.traverse_ok(
                sm,
                edge,
                s_mid,
            )
    }

    open spec fn access_ok(&self, sm: &StateModel, prev: Edge, next: Edge, s0: Seq<StateVar>) -> bool {
        &&& self.first.access_ok(sm, prev, next, s0)
        &&& forall|s_mid: Seq<StateVar>|
            #![auto]
            self.first.access_ens(sm, prev, next, s0, s_mid) ==> self.second.access_ok(
                sm,
                prev,
                next,
                s_mid,
            )
    }

    open spec fn estimate_ok(&self, sm: &StateModel, src: Vertex, dst: Vertex, s0: Seq<StateVar>) -> bool {
        &&& self.first.estimate_ok(sm, src, dst, s0)
        &&& forall|s_mid: Seq<StateVar>|
            #![auto]
            self.first.estimate_ens(sm, src, dst, s0, s_mid) ==> self.second.estimate_ok(
                sm,
                src,
                dst,
                s_mid,
            )
    }

    proof fn lemma_traverse_deterministic(
        &self,
        sm: &StateModel,
        edge: Edge,
        s0: Seq<StateVar>,
        s1a: Seq<StateVar>,
        s1b: Seq<StateVar>,
    ) {
        let ma = choose|m: Seq<StateVar>|
            #![auto]
            self.first.traverse_ens(sm, edge, s0, m) && self.second.traverse_ens(
                sm,
                edge,
                m,
                s1a,
            );
        let mb = choose|m: Seq<StateVar>|
            #![auto]
            self.first.traverse_ens(sm, edge, s0, m) && self.second.traverse_ens(
                sm,
                edge,
                m,
                s1b,
            );
        self.first.lemma_traverse_deterministic(sm, edge, s0, ma, mb);
        self.second.lemma_traverse_deterministic(sm, edge, ma, s1a, s1b);
    }

    proof fn lemma_access_deterministic(
        &self,
        sm: &StateModel,
        prev: Edge,
        next: Edge,
        s0: Seq<StateVar>,
        s1a: Seq<StateVar>,
        s1b: Seq<StateVar>,
    ) {
        let ma = choose|m: Seq<StateVar>|
            #![auto]
            self.first.access_ens(sm, prev, next, s0, m) && self.second.access_ens(
                sm,
                prev,
                next,
                m,
                s1a,
            );
        let mb = choose|m: Seq<StateVar>|
            #![auto]
            self.first.access_ens(sm, prev, next, s0, m) && self.second.access_ens(
                sm,
                prev,
                next,
                m,
                s1b,
            );
        self.first.lemma_access_deterministic(sm, prev, next, s0, ma, mb);
        self.second.lemma_access_deterministic(sm, prev, next, ma, s1a, s1b);
    }

    proof fn lemma_estimate_deterministic(
        &self,
        sm: &StateModel,
        src: Vertex,
        dst: Vertex,
        s0: Seq<StateVar>,
        s1a: Seq<StateVar>,
        s1b: Seq<StateVar>,
    ) {
        let ma = choose|m: Seq<StateVar>|
            #![auto]
            self.first.estimate_ens(sm, src, dst, s0, m) && self.second.estimate_ens(
                sm,
                src,
                dst,
                m,
                s1a,
            );
        let mb = choose|m: Seq<StateVar>|
            #![auto]
            self.first.estimate_ens(sm, src, dst, s0, m) && self.second.estimate_ens(
                sm,
                src,
                dst,
                m,
                s1b,
            );
        self.first.lemma_estimate_deterministic(sm, src, dst, s0, ma, mb);
        self.second.lemma_estimate_deterministic(sm, src, dst, ma, s1a, s1b);
    }

    fn traverse_edge(
        &self,
        trajectory: (&Vertex, &Edge, &Vertex),
        state: &mut Vec<StateVar>,
        state_model: &StateModel,
    ) -> (r: Result<(), TraversalModelError>) {
        let mut scratch: Vec<StateVar> = crate::search::copy_state(state);
        match self.first.traverse_edge(trajectory, &mut scratch, state_model) {
            Ok(()) => {},
            Err(e) => {
                return Err(e);
            },
        }
        let ghost s_mid = scratch@;
        match self.second.traverse_edge(trajectory, &mut scratch, state_model) {
            Ok(()) => {},
            Err(e) => {
                proof {
                    assert(self.first.traverse_ens(state_model, *trajectory.1, state@, s_mid));
                    assert(!self.second.traverse_ok(state_model, *trajectory.1, s_mid));
                }
                return Err(e);
            },
        }
        proof {
            assert forall|m: Seq<StateVar>|
                self.first.traverse_ens(state_model, *trajectory.1, state@, m)
                implies self.second.traverse_ok(state_model, *trajectory.1, m) by {
                self.first.lemma_traverse_deterministic(
                    state_model,
                    *trajectory.1,
                    state@,
                    m,
                    s_mid,
                );
            }
            assert(self.traverse_ens(state_model, *trajectory.1, state@, scratch@)) by {
                assert(self.first.traverse_ens(state_model, *trajectory.1, state@, s_mid)
                    && self.second.traverse_ens(state_model, *trajectory.1, s_mid, scratch@));
            }
        }
        *state = scratch;
        Ok(())
    }

    fn access_edge(
        &self,
        trajectory: (&Vertex, &Edge, &Vertex, &Edge, &Vertex),
        state: &mut Vec<StateVar>,
        state_model: &StateModel,
    ) -> (r: Result<(), TraversalModelError>) {
        let mut scratch: Vec<StateVar> = crate::search::copy_state(state);
        match self.first.access_edge(trajectory, &mut scratch, state_model) {
            Ok(()) => {},
            Err(e) => {
                return Err(e);
            },
        }
        let ghost s_mid = scratch@;
        match self.second.access_edge(trajectory, &mut scratch, state_model) {
            Ok(()) => {},
            Err(e) => {
                proof {
                    assert(self.first.access_ens(
                        state_model,
                        *trajectory.1,
                        *trajectory.3,
                        state@,
                        s_mid,
                    ));
                    assert(!self.second.access_ok(
                        state_model,
                        *trajectory.1,
                        *trajectory.3,
                        s_mid,
                    ));
                }
                return Err(e);
            },
        }
        proof {
            assert forall|m: Seq<StateVar>|
                self.first.access_ens(state_model, *trajectory.1, *trajectory.3, state@, m)
                implies self.second.access_ok(state_model, *trajectory.1, *trajectory.3, m) by {
                self.first.lemma_access_deterministic(
                    state_model,
                    *trajectory.1,
                    *trajectory.3,
                    state@,
                    m,
                    s_mid,
                );
            }
            assert(self.access_ens(state_model, *trajectory.1, *trajectory.3, state@, scratch@))
                by {
                assert(self.first.access_ens(
                    state_model,
                    *trajectory.1,
                    *trajectory.3,
                    state@,
                    s_mid,
                ) && self.second.access_ens(
                    state_model,
                    *trajectory.1,
                    *trajectory.3,
                    s_mid,
                    scratch@,
                ));
            }
        }
        *state = scratch;
        Ok(())
    }

    fn estimate_traversal(
        &self,
        od: (&Vertex, &Vertex),
        state: &mut Vec<StateVar>,
        state_model: &StateModel,
    ) -> (r: Result<(), TraversalModelError>) {
        let mut scratch: Vec<StateVar> = crate::search::copy_state(state);
        match self.first.estimate_traversal(od, &mut scratch, state_model) {
            Ok(()) => {},
            Err(e) => {
                return Err(e);
            },
        }
        let ghost s_mid = scratch@;
        match self.second.estimate_traversal(od, &mut scratch, state_model) {
            Ok(()) => {},
            Err(e) => {
                proof {
                    assert(self.first.estimate_ens(state_model, *od.0, *od.1, state@, s_mid));
                    assert(!self.second.estimate_ok(state_model, *od.0, *od.1, s_mid));
                }
                return Err(e);
            },
        }
        proof {
            assert forall|m: Seq<StateVar>|
                self.first.estimate_ens(state_model, *od.0, *od.1, state@, m)
                implies self.second.estimate_ok(state_model, *od.0, *od.1, m) by {
                self.first.lemma_estimate_deterministic(state_model, *od.0, *od.1, state@, m, s_mid);
            }
            assert(self.estimate_ens(state_model, *od.0, *od.1, state@, scratch@)) by {
                assert(self.first.estimate_ens(state_model, *od.0, *od.1, state@, s_mid)
                    && self.second.estimate_ens(state_model, *od.0, *od.1, s_mid, scratch@));
            }
        }
        *state = scratch;
        Ok(())
    }

    fn state_features(&self) -> (r: Vec<(String, StateFeature)>) {
        let mut out: Vec<(String, StateFeature)> = self.first.state_features();
        let second: Vec<(String, StateFeature)> = self.second.state_features();
        let ghost first_len = out@.len();
        proof {
            assert(forall|i: int|
                0 <= i < first_len ==> (#[trigger] out@[i].0@, out@[i].1)
                    == self.first.spec_state_features()[i]);
            assert(forall|i: int|
                0 <= i < second@.len() ==> (#[trigger] second@[i].0@, second@[i].1)
                    == self.second.spec_state_features()[i]);
        }
        let mut k: usize = 0;
        while k < second.len()
            invariant
                k <= second@.len(),
                out@.len() == first_len + k,
                first_len == self.first.spec_state_features().len(),
                second@.len() == self.second.spec_state_features().len(),
                forall|i: int|
                    0 <= i < second@.len() ==> (#[trigger] second@[i].0@, second@[i].1)
                        == self.second.spec_state_features()[i],
                forall|i: int|
                    0 <= i < first_len ==> (#[trigger] out@[i].0@, out@[i].1)
                        == self.first.spec_state_features()[i],
                forall|i: int|
                    first_len <= i < out@.len() ==> (#[trigger] out@[i].0@, out@[i].1)
                        == self.second.spec_state_features()[i - first_len],
            decreases second@.len() - k,
        {
            let name: String = second[k].0.clone();
            let feat: StateFeature = second[k].1;
            out.push((name, feat));
            k = k + 1;
        }
        proof {
            assert(out@.map(|i: int, e: (String, StateFeature)| (e.0@, e.1))
                =~= self.spec_state_features());
        }
        out
    }
}

} // verus!
