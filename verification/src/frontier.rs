//! Frontier models: per-edge admissibility predicates.

use vstd::prelude::*;
use crate::property::Edge;
use crate::property::EdgeId;
use crate::property::RoadClass;
use crate::state::StateModel;
use crate::state::StateVar;

verus! {

#[derive(Clone, Debug)]
pub enum FrontierModelError {
    /// A restriction lookup failed for an edge.
    LookupFailure(EdgeId),
    /// The configured vehicle parameters are unusable.
    InvalidVehicleParameters(String),
}

/// Decides, per candidate edge, whether traversal is admissible. A negative
/// answer prunes the successor; it is not an error.
pub trait FrontierModel {
    /// What this model's configuration must satisfy.
    spec fn wf(&self) -> bool;

    /// The exact predicate this model computes.
    spec fn spec_valid(
        &self,
        edge: Edge,
        state: Seq<StateVar>,
        previous_edge: Option<Edge>,
    ) -> bool;

    /// When the lookup behind the predicate succeeds.
    spec fn spec_ok(&self, edge: Edge) -> bool;

    /// Whether `edge` may be traversed from the current search state.
    fn valid_frontier(
        &self,
        edge: &Edge,
        state: &Vec<StateVar>,
        previous_edge: Option<&Edge>,
        state_model: &StateModel,
    ) -> (r: Result<bool, FrontierModelError>)
        requires
            self.wf(),
        ensures
            r is Ok <==> self.spec_ok(*edge),
            r is Ok ==> r->Ok_0 == self.spec_valid(
                *edge,
                state@,
                match previous_edge {
                    Some(e) => Some(*e),
                    None => None::<Edge>,
                },
            ),
    ;
}

/// The frontier model that admits every edge.
pub struct NoRestriction {}

impl FrontierModel for NoRestriction {
    open spec fn wf(&self) -> bool {
        true
    }

    open spec fn spec_ok(&self, edge: Edge) -> bool {
        true
    }

    open spec fn spec_valid(
        &self,
        edge: Edge,
        state: Seq<StateVar>,
        previous_edge: Option<Edge>,
    ) -> bool {
        true
    }

    fn valid_frontier(
        &self,
        edge: &Edge,
        state: &Vec<StateVar>,
        previous_edge: Option<&Edge>,
        state_model: &StateModel,
    ) -> (r: Result<bool, FrontierModelError>) {
        Ok(true)
    }
}

/// Rejects edges whose road class is in a forbidden set.
pub struct RoadClassRestriction {
    pub forbidden: Vec<RoadClass>,
}

impl FrontierModel for RoadClassRestriction {
    open spec fn wf(&self) -> bool {
        true
    }

    open spec fn spec_ok(&self, edge: Edge) -> bool {
        true
    }

    open spec fn spec_valid(
        &self,
        edge: Edge,
        state: Seq<StateVar>,
        previous_edge: Option<Edge>,
    ) -> bool {
        !self.forbidden@.contains(edge.road_class)
    }

    fn valid_frontier(
        &self,
        edge: &Edge,
        state: &Vec<StateVar>,
        previous_edge: Option<&Edge>,
        state_model: &StateModel,
    ) -> (r: Result<bool, FrontierModelError>) {
        let mut i: usize = 0;
        while i < self.forbidden.len()
            invariant
                i <= self.forbidden@.len(),
                forall|j: int| 0 <= j < i ==> self.forbidden@[j] != edge.road_class,
            decreases self.forbidden@.len() - i,
        {
            if self.forbidden[i].0 == edge.road_class.0 {
                proof {
                    assert(self.forbidden@.contains(edge.road_class)) by {
                        assert(self.forbidden@[i as int] == edge.road_class);
                    }
                }
                return Ok(false);
            }
            i = i + 1;
        }
        Ok(true)
    }
}

/// The truck dimensions and weight a restriction is checked against, in
/// milli-units (kilograms and meters).
#[derive(Clone, Copy, PartialEq, Eq, Structural, Debug)]
pub struct TruckParameters {
    pub truck_weight: u64,
    pub truck_height: u64,
    pub truck_width: u64,
    pub truck_length: u64,
}

/// One restriction on an edge; a truck violating any restriction of an edge
/// is rejected there.
#[derive(Clone, Copy, PartialEq, Eq, Structural, Debug)]
pub enum TruckRestriction {
    MaxTotalWeight(u64),
    MaxHeight(u64),
    MaxWidth(u64),
    MaxLength(u64),
}

impl TruckRestriction {
    /// Whether `params` satisfies this restriction.
    pub open spec fn spec_valid_for(self, params: TruckParameters) -> bool {
        match self {
            TruckRestriction::MaxTotalWeight(w) => params.truck_weight <= w,
            TruckRestriction::MaxHeight(h) => params.truck_height <= h,
            TruckRestriction::MaxWidth(w) => params.truck_width <= w,
            TruckRestriction::MaxLength(l) => params.truck_length <= l,
        }
    }

    /// Checks `params` against this restriction.
    pub fn valid(&self, params: &TruckParameters) -> (r: bool)
        ensures
            r == self.spec_valid_for(*params),
    {
        match *self {
            TruckRestriction::MaxTotalWeight(w) => params.truck_weight <= w,
            TruckRestriction::MaxHeight(h) => params.truck_height <= h,
            TruckRestriction::MaxWidth(w) => params.truck_width <= w,
            TruckRestriction::MaxLength(l) => params.truck_length <= l,
        }
    }
}

/// The shared per-edge restriction table, indexed by edge id; an edge beyond
/// the table or with an empty row is unrestricted.
pub struct TruckRestrictionFrontierService {
    pub truck_restriction_lookup: Vec<Vec<TruckRestriction>>,
}

/// Rejects an edge when any of its restrictions is violated by the
/// configured truck parameters.
pub struct TruckRestrictionFrontierModel {
    pub service: TruckRestrictionFrontierService,
    pub truck_parameters: TruckParameters,
}

impl FrontierModel for TruckRestrictionFrontierModel {
    open spec fn wf(&self) -> bool {
        true
    }

    open spec fn spec_ok(&self, edge: Edge) -> bool {
        true
    }

    open spec fn spec_valid(
        &self,
        edge: Edge,
        state: Seq<StateVar>,
        previous_edge: Option<Edge>,
    ) -> bool {
        if edge.edge_id.0 < self.service.truck_restriction_lookup@.len() {
            forall|j: int|
                0 <= j < self.service.truck_restriction_lookup@[edge.edge_id.0 as int]@.len()
                    ==> (#[trigger] self.service.truck_restriction_lookup@[edge.edge_id.0 as int]@[j]).spec_valid_for(
                    self.truck_parameters,
                )
        } else {
            true
        }
    }

    fn valid_frontier(
        &self,
        edge: &Edge,
        state: &Vec<StateVar>,
        previous_edge: Option<&Edge>,
        state_model: &StateModel,
    ) -> (r: Result<bool, FrontierModelError>) {
        if edge.edge_id.0 >= self.service.truck_restriction_lookup.len() {
            return Ok(true);
        }
        let restrictions = &self.service.truck_restriction_lookup[edge.edge_id.0];
        let mut ok_all: bool = true;
        let mut j: usize = 0;
        while j < restrictions.len()
            invariant
                j <= restrictions@.len(),
                restrictions@ == self.service.truck_restriction_lookup@[edge.edge_id.0 as int]@,
                ok_all == forall|p: int|
                    0 <= p < j ==> (#[trigger] self.service.truck_restriction_lookup@[edge.edge_id.0 as int]@[p]).spec_valid_for(
                        self.truck_parameters,
                    ),
            decreases restrictions@.len() - j,
        {
            let good: bool = restrictions[j].valid(&self.truck_parameters);
            proof {
                assert(restrictions@[j as int] == self.service.truck_restriction_lookup@[
                edge.edge_id.0 as int]@[j as int]);
            }
            ok_all = ok_all && good;
            j = j + 1;
        }
        Ok(ok_all)
    }
}

} // verus!
