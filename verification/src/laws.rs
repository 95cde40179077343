//! Laws of the search: admissibility of a consistent estimator, and the
//! closed forms of route cost under the distance and speed models.

use vstd::prelude::*;
use crate::cost::spec_cost_add;
use crate::graph::Graph;
use crate::graph::graph_wf;
use crate::heuristic::CostEstimator;
use crate::heuristic::Haversine;
use crate::heuristic::StraightLineDistance;
use crate::heuristic::lemma_coord_distance_bounds;
use crate::heuristic::lemma_haversine_estimate_bounds;
use crate::property::VertexId;
use crate::property::Edge;
use crate::search::EdgeTraversal;
use crate::search::spec_costed;
use crate::search::spec_edge_cost;
use crate::search::spec_route_cost;
use crate::search::spec_route_connected;
use crate::state::StateFeature;
use crate::state::StateModel;
use crate::state::StateVar;
use crate::speed::SpeedTraversalModel;
use crate::traversal::DistanceModel;
use crate::traversal::TraversalModel;
use crate::units::BASE_DISTANCE_UNIT;
use crate::units::DistanceUnit;
use crate::units::TimeUnit;
use crate::units::spec_convert_distance;
use crate::units::spec_convert_time;

verus! {

/// The estimator never overestimates along a route: walking a route from
/// `o` to `m`, a consistent estimate of the distance to `d` at `o` is at
/// most the route's cost plus the estimate left at `m`.
pub proof fn lemma_estimate_along_route<H: CostEstimator>(
    est: &H,
    g: &Graph,
    route: Seq<EdgeTraversal>,
    o: VertexId,
    m: VertexId,
    d: VertexId,
)
    requires
        graph_wf(g),
        o.0 < g.vertices@.len(),
        m.0 < g.vertices@.len(),
        d.0 < g.vertices@.len(),
        spec_route_connected(g, route, o, m),
        est.spec_estimate(g.vertices@[o.0 as int], g.vertices@[d.0 as int]) <= u64::MAX,
        forall|v: int|
            0 <= v < g.vertices@.len() ==> est.spec_estimate(
                #[trigger] g.vertices@[v],
                g.vertices@[d.0 as int],
            ) >= 0,
        forall|k: int|
            0 <= k < route.len() ==> est.spec_estimate(
                g.vertices@[g.edges@[(#[trigger] route[k]).edge_id.0 as int].src_vertex_id.0
                    as int],
                g.vertices@[d.0 as int],
            ) <= spec_edge_cost(&route[k]) + est.spec_estimate(
                g.vertices@[g.edges@[route[k].edge_id.0 as int].dst_vertex_id.0 as int],
                g.vertices@[d.0 as int],
            ),
    ensures
        est.spec_estimate(g.vertices@[o.0 as int], g.vertices@[d.0 as int]) <= spec_route_cost(
            route,
        ) + est.spec_estimate(g.vertices@[m.0 as int], g.vertices@[d.0 as int]),
    decreases route.len(),
{
    if route.len() == 0 {
        assert(o == m);
    } else {
        let last = route.last();
        let prefix = route.drop_last();
        let mid = g.edges@[last.edge_id.0 as int].src_vertex_id;
        assert(g.edges@[last.edge_id.0 as int].dst_vertex_id == m);
        if prefix.len() == 0 {
            assert(route[0] == last);
            assert(mid == o);
        } else {
            assert(prefix[0] == route[0]);
            assert(prefix[prefix.len() - 1] == route[route.len() - 2]);
            assert(g.edges@[route[route.len() - 2].edge_id.0 as int].dst_vertex_id == mid);
            assert forall|k: int|
                0 <= k < prefix.len() - 1 implies g.edges@[(#[trigger] prefix[k]).edge_id.0
                as int].dst_vertex_id == g.edges@[prefix[k + 1].edge_id.0 as int].src_vertex_id by {
                assert(prefix[k] == route[k]);
                assert(prefix[k + 1] == route[k + 1]);
            }
            assert forall|k: int|
                0 <= k < prefix.len() implies (#[trigger] prefix[k]).edge_id.0
                < g.edges@.len() by {
                assert(prefix[k] == route[k]);
            }
        }
        assert(spec_route_connected(g, prefix, o, mid));
        assert forall|k: int|
            0 <= k < prefix.len() implies est.spec_estimate(
            g.vertices@[g.edges@[(#[trigger] prefix[k]).edge_id.0 as int].src_vertex_id.0 as int],
            g.vertices@[d.0 as int],
        ) <= spec_edge_cost(&prefix[k]) + est.spec_estimate(
            g.vertices@[g.edges@[prefix[k].edge_id.0 as int].dst_vertex_id.0 as int],
            g.vertices@[d.0 as int],
        ) by {
            assert(prefix[k] == route[k]);
        }
        lemma_estimate_along_route(est, g, prefix, o, mid, d);
        assert(route[route.len() - 1] == last);
        assert(est.spec_estimate(g.vertices@[mid.0 as int], g.vertices@[d.0 as int])
            <= spec_edge_cost(&last) + est.spec_estimate(
            g.vertices@[m.0 as int],
            g.vertices@[d.0 as int],
        ));
    }
}

/// Admissibility of a consistent estimator: along any route from `o` to
/// `d`, an estimator that is consistent on the route's edges, non-negative,
/// and exact at the destination never exceeds the route's cost.
pub proof fn lemma_heuristic_admissible<H: CostEstimator>(
    est: &H,
    g: &Graph,
    route: Seq<EdgeTraversal>,
    o: VertexId,
    d: VertexId,
)
    requires
        graph_wf(g),
        o.0 < g.vertices@.len(),
        d.0 < g.vertices@.len(),
        spec_route_connected(g, route, o, d),
        est.spec_estimate(g.vertices@[o.0 as int], g.vertices@[d.0 as int]) <= u64::MAX,
        est.spec_estimate(g.vertices@[d.0 as int], g.vertices@[d.0 as int]) == 0,
        forall|v: int|
            0 <= v < g.vertices@.len() ==> est.spec_estimate(
                #[trigger] g.vertices@[v],
                g.vertices@[d.0 as int],
            ) >= 0,
        forall|k: int|
            0 <= k < route.len() ==> est.spec_estimate(
                g.vertices@[g.edges@[(#[trigger] route[k]).edge_id.0 as int].src_vertex_id.0
                    as int],
                g.vertices@[d.0 as int],
            ) <= spec_edge_cost(&route[k]) + est.spec_estimate(
                g.vertices@[g.edges@[route[k].edge_id.0 as int].dst_vertex_id.0 as int],
                g.vertices@[d.0 as int],
            ),
    ensures
        est.spec_estimate(g.vertices@[o.0 as int], g.vertices@[d.0 as int]) <= spec_route_cost(
            route,
        ),
{
    lemma_estimate_along_route(est, g, route, o, d, d);
}

/// Admissibility of the baseline estimator: along any route whose edges the
/// straight-line-over-speed estimate is consistent with, the estimate at the
/// origin never exceeds the route's cost.
pub proof fn lemma_haversine_admissible(
    est: &Haversine,
    g: &Graph,
    route: Seq<EdgeTraversal>,
    o: VertexId,
    d: VertexId,
)
    requires
        graph_wf(g),
        est.wf(),
        o.0 < g.vertices@.len(),
        d.0 < g.vertices@.len(),
        spec_route_connected(g, route, o, d),
        forall|k: int|
            0 <= k < route.len() ==> est.spec_estimate(
                g.vertices@[g.edges@[(#[trigger] route[k]).edge_id.0 as int].src_vertex_id.0
                    as int],
                g.vertices@[d.0 as int],
            ) <= spec_edge_cost(&route[k]) + est.spec_estimate(
                g.vertices@[g.edges@[route[k].edge_id.0 as int].dst_vertex_id.0 as int],
                g.vertices@[d.0 as int],
            ),
    ensures
        est.spec_estimate(g.vertices@[o.0 as int], g.vertices@[d.0 as int]) <= spec_route_cost(
            route,
        ),
{
    assert forall|v: int|
        0 <= v < g.vertices@.len() implies est.spec_estimate(
        #[trigger] g.vertices@[v],
        g.vertices@[d.0 as int],
    ) >= 0 by {
        lemma_haversine_estimate_bounds(est, g.vertices@[v], g.vertices@[d.0 as int]);
    }
    lemma_haversine_estimate_bounds(
        est,
        g.vertices@[o.0 as int],
        g.vertices@[d.0 as int],
    );
    lemma_haversine_estimate_bounds(
        est,
        g.vertices@[d.0 as int],
        g.vertices@[d.0 as int],
    );
    lemma_heuristic_admissible(est, g, route, o, d);
}


/// Admissibility of the distance-objective estimator: along any route whose
/// edges the straight-line distance is consistent with, the estimate at the
/// origin never exceeds the route's cost.
pub proof fn lemma_straight_line_admissible(
    est: &StraightLineDistance,
    g: &Graph,
    route: Seq<EdgeTraversal>,
    o: VertexId,
    d: VertexId,
)
    requires
        graph_wf(g),
        o.0 < g.vertices@.len(),
        d.0 < g.vertices@.len(),
        spec_route_connected(g, route, o, d),
        est.spec_estimate(g.vertices@[o.0 as int], g.vertices@[d.0 as int]) <= u64::MAX,
        forall|k: int|
            0 <= k < route.len() ==> est.spec_estimate(
                g.vertices@[g.edges@[(#[trigger] route[k]).edge_id.0 as int].src_vertex_id.0
                    as int],
                g.vertices@[d.0 as int],
            ) <= spec_edge_cost(&route[k]) + est.spec_estimate(
                g.vertices@[g.edges@[route[k].edge_id.0 as int].dst_vertex_id.0 as int],
                g.vertices@[d.0 as int],
            ),
    ensures
        est.spec_estimate(g.vertices@[o.0 as int], g.vertices@[d.0 as int]) <= spec_route_cost(
            route,
        ),
{
    assert forall|v: int|
        0 <= v < g.vertices@.len() implies est.spec_estimate(
        #[trigger] g.vertices@[v],
        g.vertices@[d.0 as int],
    ) >= 0 by {
        lemma_coord_distance_bounds(
            g.vertices@[v].coordinate,
            g.vertices@[d.0 as int].coordinate,
            est.distance_unit,
        );
    }
    lemma_coord_distance_bounds(
        g.vertices@[d.0 as int].coordinate,
        g.vertices@[d.0 as int].coordinate,
        est.distance_unit,
    );
    lemma_heuristic_admissible(est, g, route, o, d);
}

/// The distance a route's edge contributes under the distance model, in the
/// schema feature's unit.
pub open spec fn spec_converted_edge_distance(
    g: &Graph,
    t: EdgeTraversal,
    mu: DistanceUnit,
    fu: DistanceUnit,
) -> int {
    spec_convert_distance(
        spec_convert_distance(g.edges@[t.edge_id.0 as int].distance.0 as int, BASE_DISTANCE_UNIT,
            mu),
        mu,
        fu,
    )
}

/// The saturating sum of converted edge distances along a route.
pub open spec fn spec_distance_total(
    g: &Graph,
    route: Seq<EdgeTraversal>,
    mu: DistanceUnit,
    fu: DistanceUnit,
) -> int
    decreases route.len(),
{
    if route.len() == 0 {
        0
    } else {
        spec_cost_add(
            spec_distance_total(g, route.drop_last(), mu, fu),
            spec_converted_edge_distance(g, route.last(), mu, fu),
        )
    }
}

/// Distance-model law: when every edge of a route was costed by the
/// distance model, the route's cost is exactly the saturating sum of the
/// edges' distances in the model's unit.
pub proof fn lemma_distance_model_route_cost(
    m: &DistanceModel,
    g: &Graph,
    route: Seq<EdgeTraversal>,
    fu: DistanceUnit,
)
    requires
        forall|k: int|
            0 <= k < route.len() ==> {
                &&& (#[trigger] route[k]).edge_id.0 < g.edges@.len()
                &&& route[k].access_cost.0 == 0
                &&& route[k].traversal_cost.0 == spec_converted_edge_distance(
                    g,
                    route[k],
                    m.distance_unit,
                    fu,
                )
            },
    ensures
        spec_route_cost(route) == spec_distance_total(g, route, m.distance_unit, fu),
    decreases route.len(),
{
    if route.len() > 0 {
        assert(route[route.len() - 1] == route.last());
        assert forall|k: int|
            0 <= k < route.drop_last().len() implies {
            &&& (#[trigger] route.drop_last()[k]).edge_id.0 < g.edges@.len()
            &&& route.drop_last()[k].access_cost.0 == 0
            &&& route.drop_last()[k].traversal_cost.0 == spec_converted_edge_distance(
                g,
                route.drop_last()[k],
                m.distance_unit,
                fu,
            )
        } by {
            assert(route.drop_last()[k] == route[k]);
        }
        lemma_distance_model_route_cost(m, g, route.drop_last(), fu);
    }
}

/// The time a route's edge contributes under the speed model, in the schema
/// feature's unit.
pub open spec fn spec_converted_edge_time(
    m: &SpeedTraversalModel,
    g: &Graph,
    t: EdgeTraversal,
    fu: TimeUnit,
) -> int {
    spec_convert_time(m.spec_edge_time(g.edges@[t.edge_id.0 as int]), m.engine.time_unit, fu)
}

/// The saturating sum of per-edge travel times along a route.
pub open spec fn spec_time_total(
    m: &SpeedTraversalModel,
    g: &Graph,
    route: Seq<EdgeTraversal>,
    fu: TimeUnit,
) -> int
    decreases route.len(),
{
    if route.len() == 0 {
        0
    } else {
        spec_cost_add(
            spec_time_total(m, g, route.drop_last(), fu),
            spec_converted_edge_time(m, g, route.last(), fu),
        )
    }
}

/// Speed-model law: when every edge of a route was costed by the speed
/// model, the route's cost is exactly the saturating sum of the edges'
/// travel times, each the edge distance over its table speed expressed in
/// the configured time unit.
pub proof fn lemma_speed_model_route_time(
    m: &SpeedTraversalModel,
    g: &Graph,
    route: Seq<EdgeTraversal>,
    fu: TimeUnit,
)
    requires
        forall|k: int|
            0 <= k < route.len() ==> {
                &&& (#[trigger] route[k]).edge_id.0 < g.edges@.len()
                &&& route[k].access_cost.0 == 0
                &&& route[k].traversal_cost.0 == spec_converted_edge_time(m, g, route[k], fu)
            },
    ensures
        spec_route_cost(route) == spec_time_total(m, g, route, fu),
    decreases route.len(),
{
    if route.len() > 0 {
        assert(route[route.len() - 1] == route.last());
        assert forall|k: int|
            0 <= k < route.drop_last().len() implies {
            &&& (#[trigger] route.drop_last()[k]).edge_id.0 < g.edges@.len()
            &&& route.drop_last()[k].access_cost.0 == 0
            &&& route.drop_last()[k].traversal_cost.0 == spec_converted_edge_time(
                m,
                g,
                route.drop_last()[k],
                fu,
            )
        } by {
            assert(route.drop_last()[k] == route[k]);
        }
        lemma_speed_model_route_time(m, g, route.drop_last(), fu);
    }
}

/// Under the distance model, a model-priced record carries no access cost,
/// and its traversal cost is exactly its edge's distance converted into the
/// schema's unit.
pub proof fn lemma_distance_costed_edge(
    m: &DistanceModel,
    sm: &StateModel,
    obj: int,
    edge: Edge,
    t: &EdgeTraversal,
    fu: DistanceUnit,
)
    requires
        m.wf(),
        obj == sm.feature_index("distance"@),
        (sm.features()[obj] matches StateFeature::Distance { distance_unit, .. } && distance_unit
            == fu),
        spec_costed(m, sm, obj, edge, t),
    ensures
        t.access_cost.0 == 0,
        t.traversal_cost.0 == spec_convert_distance(
            spec_convert_distance(edge.distance.0 as int, BASE_DISTANCE_UNIT, m.distance_unit),
            m.distance_unit,
            fu,
        ),
{
    let (s0, s_mid) = choose|s0: Seq<StateVar>, s_mid: Seq<StateVar>|
        #![trigger sm.valid_state(s0), sm.valid_state(s_mid)]
        {
            &&& sm.valid_state(s0)
            &&& sm.valid_state(s_mid)
            &&& (s_mid == s0 || exists|prev: Edge| #![auto] m.access_ens(sm, prev, edge, s0, s_mid))
            &&& m.traverse_ens(sm, edge, s_mid, t.result_state@)
            &&& sm.valid_state(t.result_state@)
            &&& t.access_cost.0 == s_mid[obj].0 - s0[obj].0
            &&& t.traversal_cost.0 == t.result_state@[obj].0 - s_mid[obj].0
        };
    if s_mid != s0 {
        let prev = choose|prev: Edge| #![auto] m.access_ens(sm, prev, edge, s0, s_mid);
        assert(s_mid == s0);
    }
}

/// Distance-model law at the search surface: a model-priced route's cost is
/// the saturating sum of its edges' distances in the schema's unit.
pub proof fn lemma_distance_engine_route(
    m: &DistanceModel,
    sm: &StateModel,
    g: &Graph,
    obj: int,
    route: Seq<EdgeTraversal>,
    fu: DistanceUnit,
)
    requires
        m.wf(),
        obj == sm.feature_index("distance"@),
        (sm.features()[obj] matches StateFeature::Distance { distance_unit, .. } && distance_unit
            == fu),
        forall|k: int|
            0 <= k < route.len() ==> (#[trigger] route[k]).edge_id.0 < g.edges@.len()
                && spec_costed(m, sm, obj, g.edges@[route[k].edge_id.0 as int], &route[k]),
    ensures
        spec_route_cost(route) == spec_distance_total(g, route, m.distance_unit, fu),
{
    assert forall|k: int|
        0 <= k < route.len() implies {
        &&& (#[trigger] route[k]).edge_id.0 < g.edges@.len()
        &&& route[k].access_cost.0 == 0
        &&& route[k].traversal_cost.0 == spec_converted_edge_distance(
            g,
            route[k],
            m.distance_unit,
            fu,
        )
    } by {
        lemma_distance_costed_edge(m, sm, obj, g.edges@[route[k].edge_id.0 as int], &route[k], fu);
    }
    lemma_distance_model_route_cost(m, g, route, fu);
}

/// Under the speed model, a model-priced record carries no access cost, and
/// its traversal cost is exactly its edge's travel time converted into the
/// schema's unit.
pub proof fn lemma_speed_costed_edge(
    m: &SpeedTraversalModel,
    sm: &StateModel,
    obj: int,
    edge: Edge,
    t: &EdgeTraversal,
    fu: TimeUnit,
)
    requires
        m.wf(),
        obj == sm.feature_index("time"@),
        (sm.features()[obj] matches StateFeature::Time { time_unit, .. } && time_unit == fu),
        spec_costed(m, sm, obj, edge, t),
    ensures
        t.access_cost.0 == 0,
        t.traversal_cost.0 == spec_convert_time(m.spec_edge_time(edge), m.engine.time_unit, fu),
{
    let (s0, s_mid) = choose|s0: Seq<StateVar>, s_mid: Seq<StateVar>|
        #![trigger sm.valid_state(s0), sm.valid_state(s_mid)]
        {
            &&& sm.valid_state(s0)
            &&& sm.valid_state(s_mid)
            &&& (s_mid == s0 || exists|prev: Edge| #![auto] m.access_ens(sm, prev, edge, s0, s_mid))
            &&& m.traverse_ens(sm, edge, s_mid, t.result_state@)
            &&& sm.valid_state(t.result_state@)
            &&& t.access_cost.0 == s_mid[obj].0 - s0[obj].0
            &&& t.traversal_cost.0 == t.result_state@[obj].0 - s_mid[obj].0
        };
    if s_mid != s0 {
        let prev = choose|prev: Edge| #![auto] m.access_ens(sm, prev, edge, s0, s_mid);
        assert(s_mid == s0);
    }
}

/// Speed-model law at the search surface: a model-priced route's cost is the
/// saturating sum of its edges' travel times in the schema's unit.
pub proof fn lemma_speed_engine_route(
    m: &SpeedTraversalModel,
    sm: &StateModel,
    g: &Graph,
    obj: int,
    route: Seq<EdgeTraversal>,
    fu: TimeUnit,
)
    requires
        m.wf(),
        obj == sm.feature_index("time"@),
        (sm.features()[obj] matches StateFeature::Time { time_unit, .. } && time_unit == fu),
        forall|k: int|
            0 <= k < route.len() ==> (#[trigger] route[k]).edge_id.0 < g.edges@.len()
                && spec_costed(m, sm, obj, g.edges@[route[k].edge_id.0 as int], &route[k]),
    ensures
        spec_route_cost(route) == spec_time_total(m, g, route, fu),
{
    assert forall|k: int|
        0 <= k < route.len() implies {
        &&& (#[trigger] route[k]).edge_id.0 < g.edges@.len()
        &&& route[k].access_cost.0 == 0
        &&& route[k].traversal_cost.0 == spec_converted_edge_time(m, g, route[k], fu)
    } by {
        lemma_speed_costed_edge(m, sm, obj, g.edges@[route[k].edge_id.0 as int], &route[k], fu);
    }
    lemma_speed_model_route_time(m, g, route, fu);
}

} // verus!
