//! The label-setting A* engine.
//!
//! The frontier keeps labels in insertion order and pops the first label of
//! minimum f-cost, so ties resolve first-in-first-out and runs are
//! reproducible. Stale labels are filtered on pop against `best_g` (lazy
//! deletion). A model failure inside one relaxation prunes that successor
//! only. The solution tree is kept well-founded by a ghost settling order,
//! so walking a route back from the destination provably terminates at the
//! origin.

use vstd::prelude::*;
use crate::cost::Cost;
use crate::cost::spec_cost_add;
use crate::frontier::FrontierModel;
use crate::graph::Graph;
use crate::graph::graph_wf;
use crate::heuristic::CostEstimator;
use crate::property::Edge;
use crate::property::EdgeId;
use crate::property::VertexId;
use crate::state::StateModel;
use crate::state::StateVar;
use crate::traversal::TraversalModel;

verus! {

/// The result of applying the traversal model to one edge.
pub struct EdgeTraversal {
    pub edge_id: EdgeId,
    pub access_cost: Cost,
    pub traversal_cost: Cost,
    pub result_state: Vec<StateVar>,
}

/// The best incoming branch recorded at a settled vertex.
pub struct SearchTreeBranch {
    pub terminal_vertex: VertexId,
    pub edge_traversal: EdgeTraversal,
}

/// One frontier entry.
pub struct Label {
    pub vertex_id: VertexId,
    pub g_cost: Cost,
    pub f_cost: Cost,
    pub state: Vec<StateVar>,
    pub prev_edge_id: Option<EdgeId>,
}

#[derive(Clone, Debug)]
pub enum SearchError {
    /// The frontier emptied before the destination was reached.
    NoPathExists,
    /// A solution tree broke while walking back from the destination; the
    /// engine's own tree is proven well-founded, so it never returns this.
    ReconstructionMissingVertex(VertexId),
    /// Reserved for callers that wrap a search with a cancellation signal.
    Cancelled,
    /// The traversal model failed on an endpoint edge of an edge-oriented
    /// query.
    TraversalError(crate::traversal::TraversalModelError),
    /// An edge-oriented query named an edge outside the graph.
    InvalidQueryEdge(EdgeId),
}

/// One edge's contribution to the route cost, saturating.
pub open spec fn spec_edge_cost(t: &EdgeTraversal) -> int {
    spec_cost_add(t.access_cost.0 as int, t.traversal_cost.0 as int)
}

/// The saturating sum of access and traversal costs along a route.
pub open spec fn spec_route_cost(route: Seq<EdgeTraversal>) -> int
    decreases route.len(),
{
    if route.len() == 0 {
        0
    } else {
        spec_cost_add(spec_route_cost(route.drop_last()), spec_edge_cost(&route.last()))
    }
}

/// The route's edges connect origin to destination through the graph:
/// consecutive edges share a vertex, the first leaves the origin, the last
/// enters the destination, and an empty route means origin == destination.
pub open spec fn spec_route_connected(
    g: &Graph,
    route: Seq<EdgeTraversal>,
    o: VertexId,
    d: VertexId,
) -> bool {
    &&& forall|k: int|
        0 <= k < route.len() ==> (#[trigger] route[k]).edge_id.0 < g.edges@.len()
    &&& forall|k: int|
        0 <= k < route.len() - 1 ==> g.edges@[(#[trigger] route[k]).edge_id.0 as int].dst_vertex_id
            == g.edges@[route[k + 1].edge_id.0 as int].src_vertex_id
    &&& (route.len() > 0 ==> g.edges@[route[0].edge_id.0 as int].src_vertex_id == o)
    &&& (route.len() > 0 ==> g.edges@[route[route.len() - 1].edge_id.0 as int].dst_vertex_id == d)
    &&& (route.len() == 0 ==> o == d)
}

/// The spanning-forest invariant of the solution map: each branch records a
/// real edge into its vertex, never into the origin, whose source is the
/// origin or itself settled.
pub open spec fn spec_tree_inv(
    g: &Graph,
    sol: Seq<Option<SearchTreeBranch>>,
    origin: VertexId,
) -> bool {
    &&& sol.len() == g.vertices@.len()
    &&& forall|w: int|
        0 <= w < sol.len() ==> ((#[trigger] sol[w]) matches Some(b) ==> {
            &&& b.edge_traversal.edge_id.0 < g.edges@.len()
            &&& g.edges@[b.edge_traversal.edge_id.0 as int].dst_vertex_id == VertexId(w as usize)
            &&& b.terminal_vertex == VertexId(w as usize)
            &&& w != origin.0
            &&& (g.edges@[b.edge_traversal.edge_id.0 as int].src_vertex_id == origin || sol[g.edges@[
                b.edge_traversal.edge_id.0 as int
            ].src_vertex_id.0 as int] is Some)
        })
}

/// A frontier label is for a real vertex, carries a schema-shaped state, a
/// real incoming edge, and is rooted: its vertex is the origin or settled.
pub open spec fn spec_label_wf(
    g: &Graph,
    sm: &StateModel,
    sol: Seq<Option<SearchTreeBranch>>,
    origin: VertexId,
    l: Label,
) -> bool {
    &&& l.vertex_id.0 < g.vertices@.len()
    &&& sm.valid_state(l.state@)
    &&& (l.prev_edge_id matches Some(pe) ==> pe.0 < g.edges@.len() && g.edges@[pe.0 as int].dst_vertex_id
        == l.vertex_id)
    &&& (l.vertex_id == origin || sol[l.vertex_id.0 as int] is Some)
}

/// The record was produced by the traversal model: its result state comes
/// from a model-priced relaxation of its edge, and its two costs are that
/// relaxation's objective-feature deltas.
pub open spec fn spec_costed<T: TraversalModel>(
    tm: &T,
    sm: &StateModel,
    obj: int,
    edge: Edge,
    t: &EdgeTraversal,
) -> bool {
    exists|s0: Seq<StateVar>, s_mid: Seq<StateVar>|
        #![trigger sm.valid_state(s0), sm.valid_state(s_mid)]
        {
            &&& sm.valid_state(s0)
            &&& sm.valid_state(s_mid)
            &&& (s_mid == s0 || exists|prev: Edge|
                #![auto]
                tm.access_ens(sm, prev, edge, s0, s_mid))
            &&& tm.traverse_ens(sm, edge, s_mid, t.result_state@)
            &&& sm.valid_state(t.result_state@)
            &&& t.access_cost.0 == s_mid[obj].0 - s0[obj].0
            &&& t.traversal_cost.0 == t.result_state@[obj].0 - s_mid[obj].0
        }
}

/// Every settled branch of the solution map is model-priced.
pub open spec fn spec_tree_costed<T: TraversalModel>(
    tm: &T,
    sm: &StateModel,
    obj: int,
    g: &Graph,
    sol: Seq<Option<SearchTreeBranch>>,
) -> bool {
    forall|w: int|
        0 <= w < sol.len() ==> ((#[trigger] sol[w]) matches Some(b)
            ==> b.edge_traversal.edge_id.0 < g.edges@.len() && spec_costed(
            tm,
            sm,
            obj,
            g.edges@[b.edge_traversal.edge_id.0 as int],
            &b.edge_traversal,
        ))
}

/// Being model-priced carries over to a record with the same fields.
pub proof fn lemma_costed_transfer<T: TraversalModel>(
    tm: &T,
    sm: &StateModel,
    obj: int,
    edge: Edge,
    t1: &EdgeTraversal,
    t2: &EdgeTraversal,
)
    requires
        spec_costed(tm, sm, obj, edge, t1),
        t2.access_cost == t1.access_cost,
        t2.traversal_cost == t1.traversal_cost,
        t2.result_state@ == t1.result_state@,
    ensures
        spec_costed(tm, sm, obj, edge, t2),
{
    let (s0, s_mid) = choose|s0: Seq<StateVar>, s_mid: Seq<StateVar>|
        #![trigger sm.valid_state(s0), sm.valid_state(s_mid)]
        {
            &&& sm.valid_state(s0)
            &&& sm.valid_state(s_mid)
            &&& (s_mid == s0 || exists|prev: Edge|
                #![auto]
                tm.access_ens(sm, prev, edge, s0, s_mid))
            &&& tm.traverse_ens(sm, edge, s_mid, t1.result_state@)
            &&& sm.valid_state(t1.result_state@)
            &&& t1.access_cost.0 == s_mid[obj].0 - s0[obj].0
            &&& t1.traversal_cost.0 == t1.result_state@[obj].0 - s_mid[obj].0
        };
    assert({
        &&& sm.valid_state(s0)
        &&& sm.valid_state(s_mid)
        &&& (s_mid == s0 || exists|prev: Edge| #![auto] tm.access_ens(sm, prev, edge, s0, s_mid))
        &&& tm.traverse_ens(sm, edge, s_mid, t2.result_state@)
        &&& sm.valid_state(t2.result_state@)
        &&& t2.access_cost.0 == s_mid[obj].0 - s0[obj].0
        &&& t2.traversal_cost.0 == t2.result_state@[obj].0 - s_mid[obj].0
    });
}

/// The solution tree is well-founded: along a branch's parent edge the pair
/// `(best g-cost, settling order)` strictly decreases, so parent chains
/// cannot cycle.
pub open spec fn spec_tree_ordered(
    g: &Graph,
    sol: Seq<Option<SearchTreeBranch>>,
    best_g: Seq<u64>,
    order: Seq<int>,
    origin: VertexId,
) -> bool {
    &&& best_g.len() == sol.len()
    &&& order.len() == sol.len()
    &&& forall|w: int|
        0 <= w < sol.len() ==> ((#[trigger] sol[w]) matches Some(b) ==> {
            let src = g.edges@[b.edge_traversal.edge_id.0 as int].src_vertex_id;
            &&& order[w] >= 0
            &&& best_g[src.0 as int] <= best_g[w]
            &&& (src == origin || best_g[src.0 as int] < best_g[w] || (best_g[src.0 as int]
                == best_g[w] && order[src.0 as int] < order[w]))
        })
}

/// The sum of all entries, for the termination measure.
pub open spec fn sum_best(s: Seq<u64>) -> int
    decreases s.len(),
{
    if s.len() == 0 {
        0
    } else {
        s[0] + sum_best(s.drop_first())
    }
}

proof fn lemma_sum_nonneg(s: Seq<u64>)
    ensures
        sum_best(s) >= 0,
    decreases s.len(),
{
    if s.len() > 0 {
        lemma_sum_nonneg(s.drop_first());
    }
}

proof fn lemma_sum_update(s: Seq<u64>, i: int, v: u64)
    requires
        0 <= i < s.len(),
    ensures
        sum_best(s.update(i, v)) == sum_best(s) - s[i] + v,
    decreases s.len(),
{
    if i == 0 {
        assert(s.update(0, v).drop_first() =~= s.drop_first());
    } else {
        assert(s.update(i, v).drop_first() =~= s.drop_first().update(i - 1, v));
        lemma_sum_update(s.drop_first(), i - 1, v);
    }
}

/// A fresh copy of a state vector.
pub fn copy_state(s: &Vec<StateVar>) -> (r: Vec<StateVar>)
    ensures
        r@ == s@,
{
    let mut out: Vec<StateVar> = Vec::new();
    let mut i: usize = 0;
    while i < s.len()
        invariant
            i <= s@.len(),
            out@ == s@.take(i as int),
        decreases s@.len() - i,
    {
        out.push(s[i]);
        proof {
            assert(out@ =~= s@.take(i + 1));
        }
        i = i + 1;
    }
    proof {
        assert(out@ =~= s@);
    }
    out
}

/// A fresh copy of an edge traversal record.
fn copy_traversal(t: &EdgeTraversal) -> (r: EdgeTraversal)
    ensures
        r.edge_id == t.edge_id,
        r.access_cost == t.access_cost,
        r.traversal_cost == t.traversal_cost,
        r.result_state@ == t.result_state@,
{
    EdgeTraversal {
        edge_id: t.edge_id,
        access_cost: t.access_cost,
        traversal_cost: t.traversal_cost,
        result_state: copy_state(&t.result_state),
    }
}

/// The saturating total of access and traversal costs along `route`.
pub fn route_cost(route: &Vec<EdgeTraversal>) -> (r: Cost)
    ensures
        r.0 == spec_route_cost(route@),
{
    let mut acc: Cost = Cost(0);
    let mut k: usize = 0;
    while k < route.len()
        invariant
            k <= route@.len(),
            acc.0 == spec_route_cost(route@.take(k as int)),
        decreases route@.len() - k,
    {
        let ec: Cost = route[k].access_cost.saturating_add(route[k].traversal_cost);
        acc = acc.saturating_add(ec);
        proof {
            assert(route@.take(k + 1).drop_last() =~= route@.take(k as int));
            assert(route@.take(k + 1).last() == route@[k as int]);
        }
        k = k + 1;
    }
    proof {
        assert(route@.take(route@.len() as int) =~= route@);
    }
    acc
}

/// The index of the first label with minimum f-cost: ties resolve to the
/// earliest-pushed label.
fn pop_min_index(frontier: &Vec<Label>) -> (i: usize)
    requires
        frontier@.len() > 0,
    ensures
        i < frontier@.len(),
        forall|j: int|
            0 <= j < frontier@.len() ==> frontier@[i as int].f_cost.0 <= (#[trigger] frontier@[j]).f_cost.0,
        forall|j: int| 0 <= j < i ==> (#[trigger] frontier@[j]).f_cost.0 > frontier@[i as int].f_cost.0,
{
    let mut best: usize = 0;
    let mut j: usize = 1;
    while j < frontier.len()
        invariant
            best < j <= frontier@.len(),
            frontier@.len() > 0,
            forall|p: int|
                0 <= p < j ==> frontier@[best as int].f_cost.0 <= (#[trigger] frontier@[p]).f_cost.0,
            forall|p: int| 0 <= p < best ==> (#[trigger] frontier@[p]).f_cost.0 > frontier@[best as int].f_cost.0,
        decreases frontier@.len() - j,
    {
        if frontier[j].f_cost.0 < frontier[best].f_cost.0 {
            best = j;
        }
        j = j + 1;
    }
    best
}

/// Walks the solution tree back from `destination`, emitting the route in
/// forward order; the well-founded tree order guarantees the walk reaches
/// the origin, so reconstruction cannot fail.
fn backtrack<T: TraversalModel>(
    graph: &Graph,
    traversal_model: &T,
    state_model: &StateModel,
    objective_index: usize,
    solution: &Vec<Option<SearchTreeBranch>>,
    best_g: Ghost<Seq<u64>>,
    order: Ghost<Seq<int>>,
    origin: VertexId,
    destination: VertexId,
) -> (r: Result<Vec<EdgeTraversal>, SearchError>)
    requires
        graph_wf(graph),
        spec_tree_inv(graph, solution@, origin),
        spec_tree_costed(traversal_model, state_model, objective_index as int, graph, solution@),
        spec_tree_ordered(graph, solution@, best_g@, order@, origin),
        origin.0 < graph.vertices@.len(),
        destination.0 < graph.vertices@.len(),
        destination == origin || solution@[destination.0 as int] is Some,
    ensures
        r is Ok,
        r is Ok ==> spec_route_connected(graph, r->Ok_0@, origin, destination),
        r is Ok ==> forall|k: int|
            0 <= k < r->Ok_0@.len() ==> spec_costed(
                traversal_model,
                state_model,
                objective_index as int,
                graph.edges@[(#[trigger] r->Ok_0@[k]).edge_id.0 as int],
                &r->Ok_0@[k],
            ),
{
    let mut rev_route: Vec<EdgeTraversal> = Vec::new();
    let mut v: VertexId = destination;
    while v.0 != origin.0
        invariant
            graph_wf(graph),
            spec_tree_inv(graph, solution@, origin),
            spec_tree_ordered(graph, solution@, best_g@, order@, origin),
            origin.0 < graph.vertices@.len(),
            destination.0 < graph.vertices@.len(),
            v.0 < graph.vertices@.len(),
            v == origin || solution@[v.0 as int] is Some,
            forall|k: int|
                0 <= k < rev_route@.len() ==> (#[trigger] rev_route@[k]).edge_id.0
                    < graph.edges@.len(),
            forall|k: int|
                0 <= k < rev_route@.len() - 1 ==> graph.edges@[(#[trigger] rev_route@[k]).edge_id.0
                    as int].src_vertex_id == graph.edges@[rev_route@[k + 1].edge_id.0 as int].dst_vertex_id,
            rev_route@.len() > 0 ==> graph.edges@[rev_route@[0].edge_id.0 as int].dst_vertex_id
                == destination,
            rev_route@.len() > 0 ==> graph.edges@[rev_route@[rev_route@.len() - 1].edge_id.0 as int].src_vertex_id
                == v,
            rev_route@.len() == 0 ==> v == destination,
            spec_tree_costed(traversal_model, state_model, objective_index as int, graph,
                solution@),
            forall|k: int|
                0 <= k < rev_route@.len() ==> spec_costed(
                    traversal_model,
                    state_model,
                    objective_index as int,
                    graph.edges@[(#[trigger] rev_route@[k]).edge_id.0 as int],
                    &rev_route@[k],
                ),
        decreases
                best_g@[v.0 as int],
                (if v == origin {
                    0int
                } else {
                    1int
                }),
                order@[v.0 as int],
    {
        match &solution[v.0] {
            None => {
                // a vertex on the walk is settled or the origin, and the
                // loop leaves at the origin
                proof {
                    assert(false);
                }
                return Err(SearchError::ReconstructionMissingVertex(v));
            },
            Some(b) => {
                let et: EdgeTraversal = copy_traversal(&b.edge_traversal);
                proof {
                    lemma_costed_transfer(
                        traversal_model,
                        state_model,
                        objective_index as int,
                        graph.edges@[et.edge_id.0 as int],
                        &b.edge_traversal,
                        &et,
                    );
                }
                let src: VertexId = graph.edges[et.edge_id.0].src_vertex_id;
                rev_route.push(et);
                v = src;
            },
        }
    }
    let ghost rev0 = rev_route@;
    let ghost n = rev_route@.len();
    let mut route: Vec<EdgeTraversal> = Vec::new();
    loop
        invariant
            rev_route@ == rev0.take(rev0.len() - route@.len()),
            route@.len() <= rev0.len(),
            forall|k: int|
                0 <= k < route@.len() ==> #[trigger] route@[k] == rev0[rev0.len() - 1 - k],
        ensures
            route@.len() == rev0.len(),
            forall|k: int|
                0 <= k < route@.len() ==> #[trigger] route@[k] == rev0[rev0.len() - 1 - k],
        decreases rev_route@.len(),
    {
        match rev_route.pop() {
            Some(x) => {
                proof {
                    assert(rev_route@ =~= rev0.take(rev0.len() - route@.len() - 1));
                    assert(x == rev0[rev0.len() - 1 - route@.len() as int]);
                }
                route.push(x);
            },
            None => {
                break;
            },
        }
    }
    proof {
        assert forall|k: int|
            0 <= k < route@.len() - 1 implies graph.edges@[(#[trigger] route@[k]).edge_id.0 as int].dst_vertex_id
            == graph.edges@[route@[k + 1].edge_id.0 as int].src_vertex_id by {
            let j = rev0.len() - 2 - k;
            assert(route@[k + 1] == rev0[j]);
            assert(route@[k] == rev0[j + 1]);
            assert(graph.edges@[rev0[j].edge_id.0 as int].src_vertex_id == graph.edges@[rev0[j
                + 1].edge_id.0 as int].dst_vertex_id);
        }
        if route@.len() > 0 {
            assert(route@[0].edge_id == rev0[rev0.len() - 1].edge_id);
            assert(route@[route@.len() - 1].edge_id == rev0[0].edge_id);
        }
        assert forall|k: int|
            0 <= k < route@.len() implies spec_costed(
            traversal_model,
            state_model,
            objective_index as int,
            graph.edges@[(#[trigger] route@[k]).edge_id.0 as int],
            &route@[k],
        ) by {
            assert(route@[k] == rev0[rev0.len() - 1 - k]);
            assert(spec_costed(
                traversal_model,
                state_model,
                objective_index as int,
                graph.edges@[rev0[rev0.len() - 1 - k].edge_id.0 as int],
                &rev0[rev0.len() - 1 - k],
            ));
        }
    }
    Ok(route)
}

/// A finished search: the route from origin to destination, its saturating
/// total cost, and the state the search ended in.
pub struct SearchResult {
    pub origin: VertexId,
    pub destination: VertexId,
    pub route: Vec<EdgeTraversal>,
    pub g_cost: Cost,
    pub final_state: Vec<StateVar>,
}

/// Runs a label-setting A* search from `origin` to `destination`. On
/// success the route connects origin to destination through the graph and
/// the reported cost is the saturating sum of the route's access and
/// traversal costs; an origin equal to the destination yields an empty
/// route of zero cost. A model failure inside a relaxation prunes that
/// successor only. A cancellation flag, when given, is read before each
/// pop; a raised flag ends the search without a partial result.
pub fn run_a_star<T: TraversalModel, F: FrontierModel, H: CostEstimator>(
    graph: &Graph,
    traversal_model: &T,
    frontier_model: &F,
    estimator: &H,
    state_model: &StateModel,
    objective_index: usize,
    origin: VertexId,
    destination: VertexId,
    cancel: Option<&std::sync::atomic::AtomicBool>,
) -> (r: Result<SearchResult, SearchError>)
    requires
        graph_wf(graph),
        traversal_model.wf(),
        frontier_model.wf(),
        estimator.wf(),
        state_model.wf(),
        objective_index < state_model.spec_len(),
        origin.0 < graph.vertices@.len(),
        destination.0 < graph.vertices@.len(),
    ensures
        r is Ok ==> {
            let res = r->Ok_0;
            &&& res.origin == origin
            &&& res.destination == destination
            &&& spec_route_connected(graph, res.route@, origin, destination)
            &&& res.g_cost.0 == spec_route_cost(res.route@)
            &&& state_model.valid_state(res.final_state@)
        },
        r is Ok ==> forall|k: int|
            0 <= k < r->Ok_0.route@.len() ==> spec_costed(
                traversal_model,
                state_model,
                objective_index as int,
                graph.edges@[(#[trigger] r->Ok_0.route@[k]).edge_id.0 as int],
                &r->Ok_0.route@[k],
            ),
        origin == destination ==> (r is Ok && r->Ok_0.route@.len() == 0 && r->Ok_0.g_cost.0 == 0),
        r is Err ==> (r->Err_0 is NoPathExists || r->Err_0 is Cancelled),
        cancel is None ==> (r is Err ==> r->Err_0 is NoPathExists),
{
    let initial_state: Vec<StateVar> = match state_model.initial_state() {
        Ok(s) => s,
        Err(_) => {
            // a well-formed schema always yields an initial state
            proof {
                assert(false);
            }
            return Err(SearchError::NoPathExists);
        },
    };
    if origin.0 == destination.0 {
        return Ok(
            SearchResult {
                origin,
                destination,
                route: Vec::new(),
                g_cost: Cost(0),
                final_state: initial_state,
            },
        );
    }
    let h0: Cost = estimator.cost_estimate(
        &graph.vertices[origin.0],
        &graph.vertices[destination.0],
    );
    let mut frontier: Vec<Label> = Vec::new();
    frontier.push(
        Label {
            vertex_id: origin,
            g_cost: Cost(0),
            f_cost: h0,
            state: initial_state,
            prev_edge_id: None,
        },
    );
    let nv: usize = graph.vertices.len();
    let mut best_g: Vec<u64> = Vec::new();
    let mut i: usize = 0;
    while i < nv
        invariant
            i <= nv,
            best_g@.len() == i,
            forall|j: int| 0 <= j < i ==> best_g@[j] == u64::MAX,
        decreases nv - i,
    {
        best_g.push(u64::MAX);
        i = i + 1;
    }
    best_g[origin.0] = 0;
    let mut solution: Vec<Option<SearchTreeBranch>> = Vec::new();
    let mut i: usize = 0;
    while i < nv
        invariant
            i <= nv,
            solution@.len() == i,
            forall|j: int| 0 <= j < i ==> (#[trigger] solution@[j]) is None,
        decreases nv - i,
    {
        solution.push(None);
        i = i + 1;
    }
    let ghost mut order: Seq<int> = Seq::new(graph.vertices@.len() as nat, |i: int| 0int);
    let ghost mut tick: int = 1;
    while frontier.len() > 0
        invariant
            graph_wf(graph),
            traversal_model.wf(),
            frontier_model.wf(),
            estimator.wf(),
            state_model.wf(),
            objective_index < state_model.spec_len(),
            origin.0 < graph.vertices@.len(),
            destination.0 < graph.vertices@.len(),
            origin.0 != destination.0,
            best_g@.len() == graph.vertices@.len(),
            best_g@[origin.0 as int] == 0,
            spec_tree_inv(graph, solution@, origin),
            spec_tree_costed(traversal_model, state_model, objective_index as int, graph,
                solution@),
            spec_tree_ordered(graph, solution@, best_g@, order, origin),
            tick >= 1,
            forall|w: int|
                0 <= w < solution@.len() ==> ((#[trigger] solution@[w]) is Some ==> order[w]
                    < tick),
            forall|li: int|
                0 <= li < frontier@.len() ==> spec_label_wf(
                    graph,
                    state_model,
                    solution@,
                    origin,
                    #[trigger] frontier@[li],
                ),
            forall|li: int|
                0 <= li < frontier@.len() ==> best_g@[(#[trigger] frontier@[li]).vertex_id.0
                    as int] <= frontier@[li].g_cost.0,
        decreases sum_best(best_g@), frontier@.len(),
    {
        proof {
            lemma_sum_nonneg(best_g@);
        }
        let cancelled: bool = match cancel {
            Some(flag) => flag.load(std::sync::atomic::Ordering::Relaxed),
            None => false,
        };
        if cancelled {
            return Err(SearchError::Cancelled);
        }
        let li: usize = pop_min_index(&frontier);
        let ghost frontier_before = frontier@;
        let label: Label = frontier.remove(li);
        proof {
            assert forall|p: int|
                0 <= p < frontier@.len() implies spec_label_wf(
                graph,
                state_model,
                solution@,
                origin,
                #[trigger] frontier@[p],
            ) by {
                if p < li {
                    assert(frontier@[p] == frontier_before[p]);
                } else {
                    assert(frontier@[p] == frontier_before[p + 1]);
                }
            }
            assert(spec_label_wf(graph, state_model, solution@, origin, label));
            assert forall|p: int|
                0 <= p < frontier@.len() implies best_g@[(#[trigger] frontier@[p]).vertex_id.0
                as int] <= frontier@[p].g_cost.0 by {
                if p < li {
                    assert(frontier@[p] == frontier_before[p]);
                } else {
                    assert(frontier@[p] == frontier_before[p + 1]);
                }
            }
            assert(best_g@[label.vertex_id.0 as int] <= label.g_cost.0);
        }
        let v: VertexId = label.vertex_id;
        if v.0 == destination.0 {
            proof {
                assert(destination == origin || solution@[destination.0 as int] is Some);
            }
            let route: Vec<EdgeTraversal> = match backtrack(
                graph,
                traversal_model,
                state_model,
                objective_index,
                &solution,
                Ghost(best_g@),
                Ghost(order),
                origin,
                destination,
            ) {
                Ok(r) => r,
                Err(e) => {
                    return Err(e);
                },
            };
            let g: Cost = route_cost(&route);
            return Ok(
                SearchResult {
                    origin,
                    destination,
                    route,
                    g_cost: g,
                    final_state: label.state,
                },
            );
        }
        if label.g_cost.0 > best_g[v.0] {
            continue;
        }
        let ghost sum_top = sum_best(best_g@);
        let ghost len_after_pop = frontier@.len();
        let out_len: usize = graph.adj[v.0].len();
        let mut k: usize = 0;
        while k < out_len
            invariant
                graph_wf(graph),
                traversal_model.wf(),
                frontier_model.wf(),
                estimator.wf(),
                state_model.wf(),
                objective_index < state_model.spec_len(),
                origin.0 < graph.vertices@.len(),
                destination.0 < graph.vertices@.len(),
                origin.0 != destination.0,
                v.0 < graph.vertices@.len(),
                out_len == graph.adj@[v.0 as int]@.len(),
                state_model.valid_state(label.state@),
                (label.prev_edge_id matches Some(pe) ==> pe.0 < graph.edges@.len()
                    && graph.edges@[pe.0 as int].dst_vertex_id == v),
                v == origin || solution@[v.0 as int] is Some,
                best_g@.len() == graph.vertices@.len(),
                best_g@[origin.0 as int] == 0,
                spec_tree_inv(graph, solution@, origin),
                spec_tree_costed(traversal_model, state_model, objective_index as int, graph,
                    solution@),
                spec_tree_ordered(graph, solution@, best_g@, order, origin),
                tick >= 1,
                forall|w: int|
                    0 <= w < solution@.len() ==> ((#[trigger] solution@[w]) is Some ==> order[w]
                        < tick),
                best_g@[v.0 as int] <= label.g_cost.0,
                forall|li: int|
                    0 <= li < frontier@.len() ==> spec_label_wf(
                        graph,
                        state_model,
                        solution@,
                        origin,
                        #[trigger] frontier@[li],
                    ),
                forall|li: int|
                    0 <= li < frontier@.len() ==> best_g@[(#[trigger] frontier@[li]).vertex_id.0
                        as int] <= frontier@[li].g_cost.0,
                sum_best(best_g@) <= sum_top,
                sum_best(best_g@) >= 0,
                frontier@.len() >= len_after_pop,
                frontier@.len() > len_after_pop ==> sum_best(best_g@) < sum_top,
            decreases out_len - k,
        {
            let pair: (EdgeId, VertexId) = graph.adj[v.0][k];
            let eid: EdgeId = pair.0;
            let w: VertexId = pair.1;
            proof {
                assert(graph.adj@[v.0 as int]@[k as int] == pair);
                assert(eid.0 < graph.edges@.len());
                assert(graph.edges@[eid.0 as int].src_vertex_id.0 == v.0 as int);
                assert(graph.edges@[eid.0 as int].dst_vertex_id == w);
                assert(w.0 < graph.adj@.len());
            }
            let edge: &Edge = &graph.edges[eid.0];
            let prev_edge_opt: Option<&Edge> = match label.prev_edge_id {
                Some(pe) => Some(&graph.edges[pe.0]),
                None => None,
            };
            let valid: bool = match frontier_model.valid_frontier(
                edge,
                &label.state,
                prev_edge_opt,
                state_model,
            ) {
                Ok(b) => b,
                Err(_) => false,
            };
            if valid {
                let mut new_state: Vec<StateVar> = copy_state(&label.state);
                let ghost s_before = new_state@;
                let before_obj: i64 = new_state[objective_index].0;
                let mut relax_ok: bool = true;
                let ghost mut access_witness: Option<Edge> = None;
                match label.prev_edge_id {
                    Some(pe) => {
                        let prev_edge: &Edge = &graph.edges[pe.0];
                        let u: VertexId = prev_edge.src_vertex_id;
                        match traversal_model.access_edge(
                            (
                                &graph.vertices[u.0],
                                prev_edge,
                                &graph.vertices[v.0],
                                edge,
                                &graph.vertices[w.0],
                            ),
                            &mut new_state,
                            state_model,
                        ) {
                            Ok(()) => {
                                proof {
                                    access_witness = Some(graph.edges@[pe.0 as int]);
                                }
                            },
                            Err(_) => {
                                relax_ok = false;
                            },
                        }
                    },
                    None => {},
                }
                if relax_ok {
                    let ghost s_mid_g = new_state@;
                    let mid_obj: i64 = new_state[objective_index].0;
                    match traversal_model.traverse_edge(
                        (&graph.vertices[v.0], edge, &graph.vertices[w.0]),
                        &mut new_state,
                        state_model,
                    ) {
                        Ok(()) => {
                            let after_obj: i64 = new_state[objective_index].0;
                            let access_cost: Cost = Cost(
                                ((mid_obj as i128) - (before_obj as i128)) as u64,
                            );
                            let traversal_cost: Cost = Cost(
                                ((after_obj as i128) - (mid_obj as i128)) as u64,
                            );
                            let g_new: Cost = label.g_cost.saturating_add(
                                access_cost,
                            ).saturating_add(traversal_cost);
                            if g_new.0 < best_g[w.0] {
                                let hw: Cost = estimator.cost_estimate(
                                    &graph.vertices[w.0],
                                    &graph.vertices[destination.0],
                                );
                                let f_new: Cost = g_new.saturating_add(hw);
                                proof {
                                    lemma_sum_update(best_g@, w.0 as int, g_new.0);
                                    assert(w.0 != origin.0);
                                    assert(g_new.0 >= label.g_cost.0);
                                    assert(w.0 != v.0);
                                }
                                let ghost bg_before = best_g@;
                                best_g[w.0] = g_new.0;
                                proof {
                                    lemma_sum_nonneg(best_g@);
                                }
                                let branch_state: Vec<StateVar> = copy_state(&new_state);
                                let ghost sol_before = solution@;
                                let ghost order_before = order;
                                let ghost tick_before = tick;
                                proof {
                                    order = order.update(w.0 as int, tick);
                                    tick = tick + 1;
                                }
                                solution[w.0] = Some(
                                    SearchTreeBranch {
                                        terminal_vertex: w,
                                        edge_traversal: EdgeTraversal {
                                            edge_id: eid,
                                            access_cost,
                                            traversal_cost,
                                            result_state: branch_state,
                                        },
                                    },
                                );
                                proof {
                                    let b = solution@[w.0 as int]->Some_0;
                                    let edge_val = graph.edges@[eid.0 as int];
                                    assert(state_model.valid_state(s_before));
                                    assert(state_model.valid_state(s_mid_g));
                                    assert(s_mid_g == s_before || (exists|prev: Edge|
                                        #![auto]
                                        traversal_model.access_ens(
                                            state_model,
                                            prev,
                                            edge_val,
                                            s_before,
                                            s_mid_g,
                                        ))) by {
                                        if s_mid_g != s_before {
                                            let pw = access_witness->Some_0;
                                            assert(traversal_model.access_ens(
                                                state_model,
                                                pw,
                                                edge_val,
                                                s_before,
                                                s_mid_g,
                                            ));
                                        }
                                    }
                                    assert(traversal_model.traverse_ens(
                                        state_model,
                                        edge_val,
                                        s_mid_g,
                                        b.edge_traversal.result_state@,
                                    ));
                                    assert(b.edge_traversal.access_cost.0 == s_mid_g[
                                        objective_index as int].0 - s_before[
                                        objective_index as int].0);
                                    assert(b.edge_traversal.traversal_cost.0
                                        == b.edge_traversal.result_state@[
                                        objective_index as int].0 - s_mid_g[
                                        objective_index as int].0);
                                    assert(spec_costed(
                                        traversal_model,
                                        state_model,
                                        objective_index as int,
                                        edge_val,
                                        &b.edge_traversal,
                                    ));
                                    assert forall|x: int|
                                        0 <= x < solution@.len() implies ((#[trigger] solution@[x])
                                        matches Some(bb)
                                        ==> bb.edge_traversal.edge_id.0 < graph.edges@.len()
                                            && spec_costed(
                                            traversal_model,
                                            state_model,
                                            objective_index as int,
                                            graph.edges@[bb.edge_traversal.edge_id.0 as int],
                                            &bb.edge_traversal,
                                        )) by {
                                        if x != w.0 as int {
                                            assert(solution@[x] == sol_before[x]);
                                        }
                                    }
                                }
                                proof {
                                    assert forall|x: int|
                                        0 <= x < solution@.len() implies ((#[trigger] solution@[x])
                                        matches Some(b) ==> {
                                        &&& b.edge_traversal.edge_id.0 < graph.edges@.len()
                                        &&& graph.edges@[b.edge_traversal.edge_id.0 as int].dst_vertex_id
                                            == VertexId(x as usize)
                                        &&& b.terminal_vertex == VertexId(x as usize)
                                        &&& x != origin.0
                                        &&& (graph.edges@[b.edge_traversal.edge_id.0 as int].src_vertex_id
                                            == origin || solution@[graph.edges@[b.edge_traversal.edge_id.0
                                            as int].src_vertex_id.0 as int] is Some)
                                    }) by {
                                        if x != w.0 as int {
                                            assert(solution@[x] == sol_before[x]);
                                        }
                                    }
                                    assert forall|p: int|
                                        0 <= p < frontier@.len() implies spec_label_wf(
                                        graph,
                                        state_model,
                                        solution@,
                                        origin,
                                        #[trigger] frontier@[p],
                                    ) by {
                                        assert(spec_label_wf(
                                            graph,
                                            state_model,
                                            sol_before,
                                            origin,
                                            frontier@[p],
                                        ));
                                    }
                                }
                                frontier.push(
                                    Label {
                                        vertex_id: w,
                                        g_cost: g_new,
                                        f_cost: f_new,
                                        state: new_state,
                                        prev_edge_id: Some(eid),
                                    },
                                );
                            }
                        },
                        Err(_) => {},
                    }
                }
            }
            k = k + 1;
        }
    }
    Err(SearchError::NoPathExists)
}

} // verus!
