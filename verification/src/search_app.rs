//! Edge-oriented queries and the batch search front end.

use vstd::prelude::*;
use crate::cost::Cost;
use crate::frontier::FrontierModel;
use crate::graph::Graph;
use crate::graph::graph_wf;
use crate::heuristic::CostEstimator;
use crate::property::EdgeId;
use crate::property::VertexId;
use crate::search::EdgeTraversal;
use crate::search::SearchError;
use crate::search::SearchResult;
use crate::search::copy_state;
use crate::search::lemma_costed_transfer;
use crate::search::route_cost;
use crate::search::run_a_star;
use crate::search::spec_costed;
use crate::search::spec_route_connected;
use crate::search::spec_route_cost;
use crate::state::StateModel;
use crate::state::StateVar;
use crate::traversal::TraversalModel;

verus! {

/// Runs an edge-oriented query: the search connects the origin edge's head
/// to the destination edge's tail, and both endpoint edges join the route.
/// A query whose endpoints are the same edge yields an empty route of zero
/// cost. A given cancellation flag is read before each pop of the interior
/// search.
pub fn run_a_star_edge_oriented<T: TraversalModel, F: FrontierModel, H: CostEstimator>(
    graph: &Graph,
    traversal_model: &T,
    frontier_model: &F,
    estimator: &H,
    state_model: &StateModel,
    objective_index: usize,
    origin_edge: EdgeId,
    destination_edge: EdgeId,
    cancel: Option<&std::sync::atomic::AtomicBool>,
) -> (r: Result<SearchResult, SearchError>)
    requires
        graph_wf(graph),
        traversal_model.wf(),
        frontier_model.wf(),
        estimator.wf(),
        state_model.wf(),
        objective_index < state_model.spec_len(),
        origin_edge.0 < graph.edges@.len(),
        destination_edge.0 < graph.edges@.len(),
    ensures
        origin_edge == destination_edge ==> (r is Ok && r->Ok_0.route@.len() == 0
            && r->Ok_0.g_cost.0 == 0),
        origin_edge != destination_edge && r is Ok ==> {
            let res = r->Ok_0;
            &&& spec_route_connected(
                graph,
                res.route@,
                graph.edges@[origin_edge.0 as int].src_vertex_id,
                graph.edges@[destination_edge.0 as int].dst_vertex_id,
            )
            &&& res.route@.len() >= 2
            &&& res.route@[0].edge_id == origin_edge
            &&& res.route@[res.route@.len() - 1].edge_id == destination_edge
            &&& res.g_cost.0 == spec_route_cost(res.route@)
        },
        r is Err ==> (r->Err_0 is NoPathExists || r->Err_0 is TraversalError || r->Err_0
            is Cancelled),
        cancel is None ==> (r is Err ==> (r->Err_0 is NoPathExists || r->Err_0
            is TraversalError)),
        r is Ok ==> forall|k: int|
            0 <= k < r->Ok_0.route@.len() ==> spec_costed(
                traversal_model,
                state_model,
                objective_index as int,
                graph.edges@[(#[trigger] r->Ok_0.route@[k]).edge_id.0 as int],
                &r->Ok_0.route@[k],
            ),
{
    let initial_state: Vec<StateVar> = match state_model.initial_state() {
        Ok(s) => s,
        Err(_) => {
            // a well-formed schema always yields an initial state
            proof {
                assert(false);
            }
            return Err(SearchError::NoPathExists);
        },
    };
    if origin_edge.0 == destination_edge.0 {
        let o_src: VertexId = graph.edges[origin_edge.0].src_vertex_id;
        let o_dst: VertexId = graph.edges[origin_edge.0].dst_vertex_id;
        return Ok(
            SearchResult {
                origin: o_src,
                destination: o_dst,
                route: Vec::new(),
                g_cost: Cost(0),
                final_state: initial_state,
            },
        );
    }
    let o_src: VertexId = graph.edges[origin_edge.0].src_vertex_id;
    let o_dst: VertexId = graph.edges[origin_edge.0].dst_vertex_id;
    let d_src: VertexId = graph.edges[destination_edge.0].src_vertex_id;
    let d_dst: VertexId = graph.edges[destination_edge.0].dst_vertex_id;
    let mut st: Vec<StateVar> = initial_state;
    let ghost s0_o = st@;
    let before_obj: i64 = st[objective_index].0;
    match traversal_model.traverse_edge(
        (&graph.vertices[o_src.0], &graph.edges[origin_edge.0], &graph.vertices[o_dst.0]),
        &mut st,
        state_model,
    ) {
        Ok(()) => {},
        Err(e) => {
            return Err(SearchError::TraversalError(e));
        },
    }
    let after_obj: i64 = st[objective_index].0;
    let o_cost: Cost = Cost(((after_obj as i128) - (before_obj as i128)) as u64);
    let o_tr: EdgeTraversal = EdgeTraversal {
        edge_id: origin_edge,
        access_cost: Cost(0),
        traversal_cost: o_cost,
        result_state: copy_state(&st),
    };
    proof {
        assert(state_model.valid_state(s0_o));
        assert(o_tr.traversal_cost.0 == o_tr.result_state@[objective_index as int].0 - s0_o[
            objective_index as int].0);
        assert(spec_costed(
            traversal_model,
            state_model,
            objective_index as int,
            graph.edges@[origin_edge.0 as int],
            &o_tr,
        ));
    }
    let mid: SearchResult = match run_a_star(
        graph,
        traversal_model,
        frontier_model,
        estimator,
        state_model,
        objective_index,
        o_dst,
        d_src,
        cancel,
    ) {
        Ok(m) => m,
        Err(e) => {
            return Err(e);
        },
    };
    let mut st2: Vec<StateVar> = copy_state(&mid.final_state);
    let ghost s0_d = st2@;
    let before2: i64 = st2[objective_index].0;
    match traversal_model.traverse_edge(
        (&graph.vertices[d_src.0], &graph.edges[destination_edge.0], &graph.vertices[d_dst.0]),
        &mut st2,
        state_model,
    ) {
        Ok(()) => {},
        Err(e) => {
            return Err(SearchError::TraversalError(e));
        },
    }
    let after2: i64 = st2[objective_index].0;
    let d_cost: Cost = Cost(((after2 as i128) - (before2 as i128)) as u64);
    let d_tr: EdgeTraversal = EdgeTraversal {
        edge_id: destination_edge,
        access_cost: Cost(0),
        traversal_cost: d_cost,
        result_state: copy_state(&st2),
    };
    proof {
        assert(state_model.valid_state(s0_d));
        assert(d_tr.traversal_cost.0 == d_tr.result_state@[objective_index as int].0 - s0_d[
            objective_index as int].0);
        assert(spec_costed(
            traversal_model,
            state_model,
            objective_index as int,
            graph.edges@[destination_edge.0 as int],
            &d_tr,
        ));
    }
    let mut route: Vec<EdgeTraversal> = Vec::new();
    route.push(o_tr);
    let mut k: usize = 0;
    while k < mid.route.len()
        invariant
            k <= mid.route@.len(),
            route@.len() == 1 + k,
            route@[0].edge_id == origin_edge,
            forall|j: int|
                0 <= j < k ==> #[trigger] route@[j + 1].edge_id == mid.route@[j].edge_id,
            forall|j: int|
                0 <= j < mid.route@.len() ==> (#[trigger] mid.route@[j]).edge_id.0
                    < graph.edges@.len() && spec_costed(
                    traversal_model,
                    state_model,
                    objective_index as int,
                    graph.edges@[mid.route@[j].edge_id.0 as int],
                    &mid.route@[j],
                ),
            forall|j: int|
                0 <= j < route@.len() ==> (#[trigger] route@[j]).edge_id.0 < graph.edges@.len()
                    && spec_costed(
                    traversal_model,
                    state_model,
                    objective_index as int,
                    graph.edges@[route@[j].edge_id.0 as int],
                    &route@[j],
                ),
        decreases mid.route@.len() - k,
    {
        let et: EdgeTraversal = EdgeTraversal {
            edge_id: mid.route[k].edge_id,
            access_cost: mid.route[k].access_cost,
            traversal_cost: mid.route[k].traversal_cost,
            result_state: copy_state(&mid.route[k].result_state),
        };
        proof {
            assert(spec_costed(
                traversal_model,
                state_model,
                objective_index as int,
                graph.edges@[(mid.route@[k as int]).edge_id.0 as int],
                &mid.route@[k as int],
            ));
            lemma_costed_transfer(
                traversal_model,
                state_model,
                objective_index as int,
                graph.edges@[et.edge_id.0 as int],
                &mid.route@[k as int],
                &et,
            );
        }
        route.push(et);
        k = k + 1;
    }
    route.push(d_tr);
    let ghost n_mid = mid.route@.len();
    proof {
        assert(route@.len() == n_mid + 2);
        assert(route@[route@.len() - 1].edge_id == destination_edge);
        assert(spec_route_connected(graph, mid.route@, o_dst, d_src));
        assert forall|j: int|
            0 <= j < route@.len() implies (#[trigger] route@[j]).edge_id.0
            < graph.edges@.len() by {
            if 1 <= j < n_mid + 1 {
                assert(route@[(j - 1) + 1].edge_id == mid.route@[j - 1].edge_id);
            }
        }
        assert forall|j: int|
            0 <= j < route@.len() - 1 implies graph.edges@[(#[trigger] route@[j]).edge_id.0 as int].dst_vertex_id
            == graph.edges@[route@[j + 1].edge_id.0 as int].src_vertex_id by {
            if j == 0 {
                if n_mid == 0 {
                    assert(o_dst == d_src);
                } else {
                    assert(route@[0int + 1].edge_id == mid.route@[0int].edge_id);
                    assert(graph.edges@[mid.route@[0].edge_id.0 as int].src_vertex_id == o_dst);
                }
            } else if j < n_mid {
                assert(route@[(j - 1) + 1].edge_id == mid.route@[j - 1].edge_id);
                assert(route@[j + 1].edge_id == mid.route@[j].edge_id);
                assert(graph.edges@[mid.route@[j - 1].edge_id.0 as int].dst_vertex_id
                    == graph.edges@[mid.route@[j].edge_id.0 as int].src_vertex_id);
            } else {
                assert(j == n_mid);
                assert(route@[(j - 1) + 1].edge_id == mid.route@[j - 1].edge_id);
                assert(graph.edges@[mid.route@[n_mid - 1].edge_id.0 as int].dst_vertex_id
                    == d_src);
            }
        }
    }
    let g: Cost = route_cost(&route);
    Ok(
        SearchResult {
            origin: o_src,
            destination: d_dst,
            route,
            g_cost: g,
            final_state: st2,
        },
    )
}

/// The wired-up application: one graph, one model set, many queries.
pub struct SearchApp<T, F, H> {
    pub graph: Graph,
    pub traversal_model: T,
    pub frontier_model: F,
    pub estimator: H,
    pub state_model: StateModel,
    pub objective_index: usize,
}

impl<T: TraversalModel, F: FrontierModel, H: CostEstimator> SearchApp<T, F, H> {
    /// Everything a search needs, well-formed together.
    pub open spec fn wf(&self) -> bool {
        &&& graph_wf(&self.graph)
        &&& self.traversal_model.wf()
        &&& self.frontier_model.wf()
        &&& self.estimator.wf()
        &&& self.state_model.wf()
        &&& self.objective_index < self.state_model.spec_len()
    }

    /// Wires the graph and models together.
    pub fn new(
        graph: Graph,
        traversal_model: T,
        frontier_model: F,
        estimator: H,
        state_model: StateModel,
        objective_index: usize,
    ) -> (r: SearchApp<T, F, H>)
        requires
            graph_wf(&graph),
            traversal_model.wf(),
            frontier_model.wf(),
            estimator.wf(),
            state_model.wf(),
            objective_index < state_model.spec_len(),
        ensures
            r.wf(),
            r.graph == graph,
    {
        SearchApp { graph, traversal_model, frontier_model, estimator, state_model, objective_index }
    }

    /// Runs one edge-oriented query, rejecting edge ids outside the graph.
    pub fn run_one(&self, o: EdgeId, d: EdgeId) -> (r: Result<SearchResult, SearchError>)
        requires
            self.wf(),
        ensures
            r is Ok ==> {
                let res = r->Ok_0;
                &&& o.0 < self.graph.edges@.len()
                &&& d.0 < self.graph.edges@.len()
                &&& res.g_cost.0 == spec_route_cost(res.route@)
                &&& (o != d ==> spec_route_connected(
                    &self.graph,
                    res.route@,
                    self.graph.edges@[o.0 as int].src_vertex_id,
                    self.graph.edges@[d.0 as int].dst_vertex_id,
                ))
                &&& (o == d ==> res.route@.len() == 0 && res.g_cost.0 == 0)
                &&& forall|k: int|
                    0 <= k < res.route@.len() ==> spec_costed(
                        &self.traversal_model,
                        &self.state_model,
                        self.objective_index as int,
                        self.graph.edges@[(#[trigger] res.route@[k]).edge_id.0 as int],
                        &res.route@[k],
                    )
            },
            (r matches Err(SearchError::InvalidQueryEdge(e))) <==> (o.0 >= self.graph.edges@.len()
                || d.0 >= self.graph.edges@.len()),
            (r matches Err(SearchError::InvalidQueryEdge(e)) ==> ((e == o && o.0
                >= self.graph.edges@.len()) || (e == d && d.0 >= self.graph.edges@.len()))),
            o == d && o.0 < self.graph.edges@.len() ==> (r is Ok && r->Ok_0.route@.len() == 0
                && r->Ok_0.g_cost.0 == 0),
    {
        if o.0 >= self.graph.edges.len() {
            return Err(SearchError::InvalidQueryEdge(o));
        }
        if d.0 >= self.graph.edges.len() {
            return Err(SearchError::InvalidQueryEdge(d));
        }
        run_a_star_edge_oriented(
            &self.graph,
            &self.traversal_model,
            &self.frontier_model,
            &self.estimator,
            &self.state_model,
            self.objective_index,
            o,
            d,
            None,
        )
    }

    /// Runs a batch of edge-oriented queries in order; each query's slot
    /// holds its route or its error, and one failure aborts nothing else.
    pub fn run_edge_oriented(&self, queries: &Vec<(EdgeId, EdgeId)>) -> (r: Vec<
        Result<SearchResult, SearchError>,
    >)
        requires
            self.wf(),
        ensures
            r@.len() == queries@.len(),
            forall|i: int|
                0 <= i < queries@.len() ==> ({
                    let res = r@[i]->Ok_0;
                    let q = queries@[i];
                    &&& ((#[trigger] r@[i]) is Ok ==> {
                        &&& q.0.0 < self.graph.edges@.len()
                        &&& q.1.0 < self.graph.edges@.len()
                        &&& res.g_cost.0 == spec_route_cost(res.route@)
                        &&& (q.0 != q.1 ==> spec_route_connected(
                            &self.graph,
                            res.route@,
                            self.graph.edges@[q.0.0 as int].src_vertex_id,
                            self.graph.edges@[q.1.0 as int].dst_vertex_id,
                        ))
                        &&& (q.0 == q.1 ==> res.route@.len() == 0 && res.g_cost.0 == 0)
                        &&& forall|k: int|
                            0 <= k < res.route@.len() ==> spec_costed(
                                &self.traversal_model,
                                &self.state_model,
                                self.objective_index as int,
                                self.graph.edges@[(#[trigger] res.route@[k]).edge_id.0 as int],
                                &res.route@[k],
                            )
                    })
                    &&& ((r@[i] matches Err(SearchError::InvalidQueryEdge(e))) <==> (q.0.0
                        >= self.graph.edges@.len() || q.1.0 >= self.graph.edges@.len()))
                    &&& (q.0 == q.1 && q.0.0 < self.graph.edges@.len() ==> (r@[i] is Ok
                        && res.route@.len() == 0 && res.g_cost.0 == 0))
                }),
    {
        let mut out: Vec<Result<SearchResult, SearchError>> = Vec::new();
        let mut i: usize = 0;
        while i < queries.len()
            invariant
                self.wf(),
                i <= queries@.len(),
                out@.len() == i,
                forall|p: int|
                    0 <= p < i ==> ({
                        let res = out@[p]->Ok_0;
                        let q = queries@[p];
                        &&& ((#[trigger] out@[p]) is Ok ==> {
                            &&& q.0.0 < self.graph.edges@.len()
                            &&& q.1.0 < self.graph.edges@.len()
                            &&& res.g_cost.0 == spec_route_cost(res.route@)
                            &&& (q.0 != q.1 ==> spec_route_connected(
                                &self.graph,
                                res.route@,
                                self.graph.edges@[q.0.0 as int].src_vertex_id,
                                self.graph.edges@[q.1.0 as int].dst_vertex_id,
                            ))
                            &&& (q.0 == q.1 ==> res.route@.len() == 0 && res.g_cost.0 == 0)
                            &&& forall|k: int|
                                0 <= k < res.route@.len() ==> spec_costed(
                                    &self.traversal_model,
                                    &self.state_model,
                                    self.objective_index as int,
                                    self.graph.edges@[(#[trigger] res.route@[k]).edge_id.0
                                        as int],
                                    &res.route@[k],
                                )
                        })
                        &&& ((out@[p] matches Err(SearchError::InvalidQueryEdge(e))) <==> (q.0.0
                            >= self.graph.edges@.len() || q.1.0 >= self.graph.edges@.len()))
                        &&& (q.0 == q.1 && q.0.0 < self.graph.edges@.len() ==> (out@[p] is Ok
                            && res.route@.len() == 0 && res.g_cost.0 == 0))
                    }),
            decreases queries@.len() - i,
        {
            let (o, d): (EdgeId, EdgeId) = queries[i];
            let one: Result<SearchResult, SearchError> = self.run_one(o, d);
            let ghost out_before = out@;
            out.push(one);
            proof {
                assert forall|p: int|
                    0 <= p < i + 1 implies ({
                    let res = out@[p]->Ok_0;
                    let q = queries@[p];
                    &&& ((#[trigger] out@[p]) is Ok ==> {
                        &&& q.0.0 < self.graph.edges@.len()
                        &&& q.1.0 < self.graph.edges@.len()
                        &&& res.g_cost.0 == spec_route_cost(res.route@)
                        &&& (q.0 != q.1 ==> spec_route_connected(
                            &self.graph,
                            res.route@,
                            self.graph.edges@[q.0.0 as int].src_vertex_id,
                            self.graph.edges@[q.1.0 as int].dst_vertex_id,
                        ))
                        &&& (q.0 == q.1 ==> res.route@.len() == 0 && res.g_cost.0 == 0)
                        &&& forall|k: int|
                            0 <= k < res.route@.len() ==> spec_costed(
                                &self.traversal_model,
                                &self.state_model,
                                self.objective_index as int,
                                self.graph.edges@[(#[trigger] res.route@[k]).edge_id.0 as int],
                                &res.route@[k],
                            )
                    })
                    &&& ((out@[p] matches Err(SearchError::InvalidQueryEdge(e))) <==> (q.0.0
                        >= self.graph.edges@.len() || q.1.0 >= self.graph.edges@.len()))
                    &&& (q.0 == q.1 && q.0.0 < self.graph.edges@.len() ==> (out@[p] is Ok
                        && res.route@.len() == 0 && res.g_cost.0 == 0))
                }) by {
                    if p < i {
                        assert(out@[p] == out_before[p]);
                    } else {
                        assert(out@[p] == one);
                        if one is Ok {
                            let res = one->Ok_0;
                            assert forall|k: int|
                                0 <= k < res.route@.len() implies spec_costed(
                                &self.traversal_model,
                                &self.state_model,
                                self.objective_index as int,
                                self.graph.edges@[(#[trigger] res.route@[k]).edge_id.0 as int],
                                &res.route@[k],
                            ) by {
                                assert(spec_costed(
                                    &self.traversal_model,
                                    &self.state_model,
                                    self.objective_index as int,
                                    self.graph.edges@[(one->Ok_0.route@[k]).edge_id.0 as int],
                                    &one->Ok_0.route@[k],
                                ));
                            }
                        }
                    }
                }
            }
            i = i + 1;
        }
        out
    }
}

} // verus!
