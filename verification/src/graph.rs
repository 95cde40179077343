//! The immutable directed graph store.
//!
//! Adjacency is held as one association list per vertex, in increasing
//! edge-id order, so that walking a vertex's out-edges is deterministic.

use vstd::prelude::*;
use crate::heuristic::valid_coordinate;
use crate::property::Edge;
use crate::property::EdgeId;
use crate::property::Vertex;
use crate::property::VertexId;

verus! {

#[derive(Clone, Debug)]
pub enum GraphError {
    /// A vertex carried a coordinate outside the WGS84 range.
    InvalidCoordinate(VertexId),
    /// An edge named a vertex outside the vertex table.
    AdjacencyVertexMissing(VertexId),
    /// An edge id outside the dense `0..n_edges` range, or a hole in it.
    EdgeIdNotFound(EdgeId),
    /// A vertex id outside the dense `0..n_vertices` range.
    VertexIdNotFound(VertexId),
    /// Two rows declared the same edge id.
    DuplicateEdgeId(EdgeId),
    /// An input table held no rows.
    EmptyFileSource { filename: String },
}

/// Where the graph tables come from and how large they are declared to be.
pub struct TomTomGraphConfig {
    pub edge_list_csv: String,
    pub vertex_list_csv: String,
    pub n_edges: Option<usize>,
    pub n_vertices: Option<usize>,
    pub verbose: bool,
}

impl TomTomGraphConfig {
    /// The declared edge count, or the counted data lines of the edge file
    /// (total lines minus the header) when none was declared.
    pub fn get_n_edges(&self, counted_lines: Option<usize>) -> (r: Option<usize>)
        ensures
            self.n_edges is Some ==> r == self.n_edges,
            self.n_edges is None ==> r == match counted_lines {
                Some(n) => if n >= 1 {
                    Some((n - 1) as usize)
                } else {
                    None::<usize>
                },
                None => None::<usize>,
            },
    {
        match self.n_edges {
            Some(n) => Some(n),
            None => match counted_lines {
                Some(n) => if n >= 1 {
                    Some(n - 1)
                } else {
                    None
                },
                None => None,
            },
        }
    }

    /// The declared vertex count, or the counted data lines of the vertex
    /// file (total lines minus the header) when none was declared.
    pub fn get_n_vertices(&self, counted_lines: Option<usize>) -> (r: Option<usize>)
        ensures
            self.n_vertices is Some ==> r == self.n_vertices,
            self.n_vertices is None ==> r == match counted_lines {
                Some(n) => if n >= 1 {
                    Some((n - 1) as usize)
                } else {
                    None::<usize>
                },
                None => None::<usize>,
            },
    {
        match self.n_vertices {
            Some(n) => Some(n),
            None => match counted_lines {
                Some(n) => if n >= 1 {
                    Some(n - 1)
                } else {
                    None
                },
                None => None,
            },
        }
    }

    /// Resolves both table sizes, treating an empty table as an error. The
    /// line counts come from whoever read the files.
    pub fn read_file_sizes(
        &self,
        edge_lines: Option<usize>,
        vertex_lines: Option<usize>,
    ) -> (r: Result<(usize, usize), GraphError>)
        ensures
            r is Ok ==> {
                let (ne, nv) = r->Ok_0;
                &&& Some(ne) == self.spec_n_edges(edge_lines)
                &&& Some(nv) == self.spec_n_vertices(vertex_lines)
                &&& ne >= 1
                &&& nv >= 1
            },
            r is Err <==> !((self.spec_n_edges(edge_lines) matches Some(ne) && ne >= 1) && (
            self.spec_n_vertices(vertex_lines) matches Some(nv) && nv >= 1)),
            r is Err ==> r->Err_0 is EmptyFileSource,
            (r matches Err(GraphError::EmptyFileSource { filename }) ==> ((filename
                == self.edge_list_csv && !(self.spec_n_edges(edge_lines) matches Some(ne) && ne
                >= 1)) || (filename == self.vertex_list_csv && !(self.spec_n_vertices(
                vertex_lines,
            ) matches Some(nv) && nv >= 1)))),
    {
        let n_edges = match self.get_n_edges(edge_lines) {
            Some(n) => n,
            None => {
                return Err(GraphError::EmptyFileSource { filename: self.edge_list_csv.clone() });
            },
        };
        let n_vertices = match self.get_n_vertices(vertex_lines) {
            Some(n) => n,
            None => {
                return Err(GraphError::EmptyFileSource { filename: self.vertex_list_csv.clone() });
            },
        };
        if n_edges < 1 {
            return Err(GraphError::EmptyFileSource { filename: self.edge_list_csv.clone() });
        }
        if n_vertices < 1 {
            return Err(GraphError::EmptyFileSource { filename: self.vertex_list_csv.clone() });
        }
        Ok((n_edges, n_vertices))
    }

    /// What `get_n_edges` returns.
    pub open spec fn spec_n_edges(&self, counted_lines: Option<usize>) -> Option<usize> {
        match self.n_edges {
            Some(n) => Some(n),
            None => match counted_lines {
                Some(n) => if n >= 1 {
                    Some((n - 1) as usize)
                } else {
                    None
                },
                None => None,
            },
        }
    }

    /// What `get_n_vertices` returns.
    pub open spec fn spec_n_vertices(&self, counted_lines: Option<usize>) -> Option<usize> {
        match self.n_vertices {
            Some(n) => Some(n),
            None => match counted_lines {
                Some(n) => if n >= 1 {
                    Some((n - 1) as usize)
                } else {
                    None
                },
                None => None,
            },
        }
    }
}

/// The edge table with forward and reverse adjacency, before vertices join.
pub struct TomTomEdgeList {
    pub edges: Vec<Edge>,
    pub adj: Vec<Vec<(EdgeId, VertexId)>>,
    pub rev: Vec<Vec<(EdgeId, VertexId)>>,
}

/// Parsed edge rows together with the declared table sizes.
pub struct TomTomEdgeListConfig<'a> {
    pub rows: &'a Vec<Edge>,
    pub n_edges: usize,
    pub n_vertices: usize,
}

/// Both adjacency directions agree with the edge table: every forward pair
/// `(e, w)` at vertex `v` is a real edge `v -> w`, every edge appears under
/// its source and under its destination, and edge ids are dense.
pub open spec fn edge_list_wf(edges: Seq<Edge>, adj: Seq<Vec<(EdgeId, VertexId)>>, rev: Seq<
    Vec<(EdgeId, VertexId)>,
>) -> bool {
    &&& adj.len() == rev.len()
    &&& forall|i: int|
        0 <= i < edges.len() ==> (#[trigger] edges[i]).edge_id == EdgeId(i as usize)
    &&& forall|i: int|
        0 <= i < edges.len() ==> (#[trigger] edges[i]).src_vertex_id.0 < adj.len() && edges[
            i
        ].dst_vertex_id.0 < adj.len()
    &&& forall|i: int|
        0 <= i < edges.len() ==> #[trigger] adj[edges[i].src_vertex_id.0 as int]@.contains(
            (EdgeId(i as usize), edges[i].dst_vertex_id),
        )
    &&& forall|i: int|
        0 <= i < edges.len() ==> #[trigger] rev[edges[i].dst_vertex_id.0 as int]@.contains(
            (EdgeId(i as usize), edges[i].src_vertex_id),
        )
    &&& forall|v: int, k: int|
        0 <= v < adj.len() && 0 <= k < adj[v]@.len() ==> {
            let p = #[trigger] adj[v]@[k];
            &&& p.0.0 < edges.len()
            &&& edges[p.0.0 as int].src_vertex_id.0 == v
            &&& edges[p.0.0 as int].dst_vertex_id == p.1
        }
    &&& forall|v: int, k: int|
        0 <= v < rev.len() && 0 <= k < rev[v]@.len() ==> {
            let p = #[trigger] rev[v]@[k];
            &&& p.0.0 < edges.len()
            &&& edges[p.0.0 as int].dst_vertex_id.0 == v
            &&& edges[p.0.0 as int].src_vertex_id == p.1
        }
}

/// Some row among the first `k` of `rows` carries edge id `id`.
pub open spec fn spec_row_with_id(rows: Seq<Edge>, k: int, id: int) -> bool {
    exists|i: int| 0 <= i < k && (#[trigger] rows[i]).edge_id.0 == id
}

/// The rows a strict load accepts: edge ids fill the dense `0..n_edges`
/// range exactly once and every endpoint is inside the vertex table.
pub open spec fn spec_rows_admissible(rows: Seq<Edge>, n_edges: int, n_vertices: int) -> bool {
    &&& forall|i: int|
        0 <= i < rows.len() ==> (#[trigger] rows[i]).edge_id.0 < n_edges && rows[
            i
        ].src_vertex_id.0 < n_vertices && rows[i].dst_vertex_id.0 < n_vertices
    &&& forall|i: int, j: int|
        0 <= i < j < rows.len() ==> (#[trigger] rows[i]).edge_id != (#[trigger] rows[j]).edge_id
    &&& forall|id: int|
        0 <= id < n_edges ==> #[trigger] spec_row_with_id(rows, rows.len() as int, id)
}

impl TomTomEdgeList {
    /// Builds the dense edge table and both adjacency lists from parsed rows.
    /// Succeeds exactly on admissible row sets; an id outside the declared
    /// range or a hole in it, a duplicate id, and a missing endpoint each
    /// name their cause.
    pub fn try_from(c: TomTomEdgeListConfig) -> (r: Result<TomTomEdgeList, GraphError>)
        ensures
            r is Ok <==> spec_rows_admissible(c.rows@, c.n_edges as int, c.n_vertices as int),
            r is Ok ==> {
                let g = r->Ok_0;
                &&& edge_list_wf(g.edges@, g.adj@, g.rev@)
                &&& g.edges@.len() == c.n_edges
                &&& g.adj@.len() == c.n_vertices
                &&& g.rev@.len() == c.n_vertices
                &&& forall|i: int|
                    0 <= i < g.edges@.len() ==> c.rows@.contains(#[trigger] g.edges@[i])
            },
            (r matches Err(GraphError::AdjacencyVertexMissing(v)) ==> v.0 >= c.n_vertices
                && exists|i: int|
                0 <= i < c.rows@.len() && ((#[trigger] c.rows@[i]).src_vertex_id == v
                    || c.rows@[i].dst_vertex_id == v)),
            (r matches Err(GraphError::DuplicateEdgeId(e)) ==> exists|i: int, j: int|
                0 <= i < j < c.rows@.len() && (#[trigger] c.rows@[i]).edge_id == e && (
                #[trigger] c.rows@[j]).edge_id == e),
            (r matches Err(GraphError::EdgeIdNotFound(e)) ==> (e.0 >= c.n_edges && exists|i: int|
                0 <= i < c.rows@.len() && (#[trigger] c.rows@[i]).edge_id == e) || (e.0
                < c.n_edges && forall|i: int|
                0 <= i < c.rows@.len() ==> (#[trigger] c.rows@[i]).edge_id != e)),
            r is Err ==> (r->Err_0 is AdjacencyVertexMissing || r->Err_0 is DuplicateEdgeId
                || r->Err_0 is EdgeIdNotFound),
    {
        let rows = c.rows;
        let mut slots: Vec<Option<Edge>> = Vec::new();
        let mut i: usize = 0;
        while i < c.n_edges
            invariant
                i <= c.n_edges,
                slots@.len() == i,
                forall|j: int| 0 <= j < i ==> slots@[j] is None,
            decreases c.n_edges - i,
        {
            slots.push(None);
            i = i + 1;
        }
        let mut k: usize = 0;
        while k < rows.len()
            invariant
                rows == c.rows,
                k <= rows@.len(),
                slots@.len() == c.n_edges,
                forall|j: int|
                    0 <= j < c.n_edges ==> ((#[trigger] slots@[j]) matches Some(e) ==> {
                        &&& e.edge_id == EdgeId(j as usize)
                        &&& e.src_vertex_id.0 < c.n_vertices
                        &&& e.dst_vertex_id.0 < c.n_vertices
                        &&& rows@.contains(e)
                    }),
                forall|i: int|
                    0 <= i < k ==> (#[trigger] rows@[i]).edge_id.0 < c.n_edges && rows@[
                        i
                    ].src_vertex_id.0 < c.n_vertices && rows@[i].dst_vertex_id.0 < c.n_vertices,
                forall|i: int, j: int|
                    0 <= i < j < k ==> (#[trigger] rows@[i]).edge_id != (#[trigger] rows@[j]).edge_id,
                forall|j: int|
                    0 <= j < c.n_edges ==> ((#[trigger] slots@[j]) is Some <==> spec_row_with_id(
                        rows@,
                        k as int,
                        j,
                    )),
            decreases rows@.len() - k,
        {
            let e: Edge = rows[k];
            if e.edge_id.0 >= c.n_edges {
                proof {
                    assert(rows@[k as int].edge_id == e.edge_id);
                }
                return Err(GraphError::EdgeIdNotFound(e.edge_id));
            }
            if e.src_vertex_id.0 >= c.n_vertices {
                proof {
                    assert(rows@[k as int].src_vertex_id == e.src_vertex_id);
                }
                return Err(GraphError::AdjacencyVertexMissing(e.src_vertex_id));
            }
            if e.dst_vertex_id.0 >= c.n_vertices {
                proof {
                    assert(rows@[k as int].dst_vertex_id == e.dst_vertex_id);
                }
                return Err(GraphError::AdjacencyVertexMissing(e.dst_vertex_id));
            }
            if slots[e.edge_id.0].is_some() {
                proof {
                    assert(spec_row_with_id(rows@, k as int, e.edge_id.0 as int));
                    let prior = choose|i: int|
                        0 <= i < k && (#[trigger] rows@[i]).edge_id.0 == e.edge_id.0 as int;
                    assert(rows@[prior].edge_id == e.edge_id);
                    assert(rows@[k as int].edge_id == e.edge_id);
                }
                return Err(GraphError::DuplicateEdgeId(e.edge_id));
            }
            proof {
                assert(rows@.contains(e)) by {
                    assert(rows@[k as int] == e);
                }
                assert(!spec_row_with_id(rows@, k as int, e.edge_id.0 as int));
                assert forall|i: int, j: int|
                    0 <= i < j < k + 1 implies (#[trigger] rows@[i]).edge_id != (
                #[trigger] rows@[j]).edge_id by {
                    if j == k as int {
                        if rows@[i].edge_id == e.edge_id {
                            assert(rows@[i].edge_id.0 == e.edge_id.0);
                        }
                    }
                }
            }
            slots[e.edge_id.0] = Some(e);
            k = k + 1;
        }
        let mut edges: Vec<Edge> = Vec::new();
        let mut i: usize = 0;
        while i < slots.len()
            invariant
                rows == c.rows,
                i <= slots@.len(),
                slots@.len() == c.n_edges,
                edges@.len() == i,
                forall|j: int| 0 <= j < i ==> (#[trigger] slots@[j]) is Some,
                forall|i2: int|
                    0 <= i2 < rows@.len() ==> (#[trigger] rows@[i2]).edge_id.0 < c.n_edges
                        && rows@[i2].src_vertex_id.0 < c.n_vertices && rows@[i2].dst_vertex_id.0
                        < c.n_vertices,
                forall|i2: int, j2: int|
                    0 <= i2 < j2 < rows@.len() ==> (#[trigger] rows@[i2]).edge_id != (
                    #[trigger] rows@[j2]).edge_id,
                forall|j: int|
                    0 <= j < c.n_edges ==> ((#[trigger] slots@[j]) matches Some(e) ==> {
                        &&& e.edge_id == EdgeId(j as usize)
                        &&& e.src_vertex_id.0 < c.n_vertices
                        &&& e.dst_vertex_id.0 < c.n_vertices
                        &&& rows@.contains(e)
                    }),
                forall|j: int|
                    0 <= j < c.n_edges ==> ((#[trigger] slots@[j]) is Some <==> spec_row_with_id(
                        rows@,
                        rows@.len() as int,
                        j,
                    )),
                forall|j: int|
                    0 <= j < i ==> {
                        &&& (#[trigger] edges@[j]).edge_id == EdgeId(j as usize)
                        &&& edges@[j].src_vertex_id.0 < c.n_vertices
                        &&& edges@[j].dst_vertex_id.0 < c.n_vertices
                        &&& rows@.contains(edges@[j])
                    },
            decreases slots@.len() - i,
        {
            match slots[i] {
                Some(e) => {
                    edges.push(e);
                },
                None => {
                    proof {
                        assert(!spec_row_with_id(rows@, rows@.len() as int, i as int));
                        assert forall|p: int|
                            0 <= p < rows@.len() implies (#[trigger] rows@[p]).edge_id != EdgeId(
                            i,
                        ) by {
                            if rows@[p].edge_id == EdgeId(i) {
                                assert(rows@[p].edge_id.0 == i as int);
                            }
                        }
                    }
                    return Err(GraphError::EdgeIdNotFound(EdgeId(i)));
                },
            }
            i = i + 1;
        }
        proof {
            assert forall|id: int|
                0 <= id < c.n_edges implies #[trigger] spec_row_with_id(
                c.rows@,
                c.rows@.len() as int,
                id,
            ) by {
                assert(slots@[id] is Some);
            }
        }
        let (adj, rev) = build_adjacency(&edges, c.n_vertices);
        Ok(TomTomEdgeList { edges, adj, rev })
    }
}

/// The immutable graph store: edge and vertex tables with both adjacency
/// directions. Read-only after construction.
pub struct Graph {
    pub edges: Vec<Edge>,
    pub vertices: Vec<Vertex>,
    pub adj: Vec<Vec<(EdgeId, VertexId)>>,
    pub rev: Vec<Vec<(EdgeId, VertexId)>>,
}

/// The graph store invariant: adjacency agrees with the edge table, ids are
/// dense, and every edge endpoint resolves to a vertex.
pub open spec fn graph_wf(g: &Graph) -> bool {
    &&& edge_list_wf(g.edges@, g.adj@, g.rev@)
    &&& g.adj@.len() == g.vertices@.len()
    &&& forall|i: int|
        0 <= i < g.vertices@.len() ==> (#[trigger] g.vertices@[i]).vertex_id == VertexId(
            i as usize,
        )
    &&& forall|i: int|
        0 <= i < g.vertices@.len() ==> valid_coordinate((#[trigger] g.vertices@[i]).coordinate)
}

impl Graph {
    /// Joins an edge list with its vertex table, checking that vertex ids
    /// are dense and that the tables agree on the vertex count.
    pub fn new(edge_list: TomTomEdgeList, vertices: Vec<Vertex>) -> (r: Result<Graph, GraphError>)
        requires
            edge_list_wf(edge_list.edges@, edge_list.adj@, edge_list.rev@),
        ensures
            r is Ok ==> {
                let g = r->Ok_0;
                &&& graph_wf(&g)
                &&& g.edges@ == edge_list.edges@
                &&& g.vertices@ == vertices@
            },
            r is Ok <==> edge_list.adj@.len() == vertices@.len() && (forall|i: int|
                0 <= i < vertices@.len() ==> (#[trigger] vertices@[i]).vertex_id == VertexId(
                    i as usize,
                )) && (forall|i: int|
                0 <= i < vertices@.len() ==> valid_coordinate(
                    (#[trigger] vertices@[i]).coordinate,
                )),
    {
        if edge_list.adj.len() != vertices.len() {
            return Err(GraphError::VertexIdNotFound(VertexId(vertices.len())));
        }
        let mut i: usize = 0;
        while i < vertices.len()
            invariant
                i <= vertices@.len(),
                forall|j: int|
                    0 <= j < i ==> (#[trigger] vertices@[j]).vertex_id == VertexId(j as usize),
                forall|j: int|
                    0 <= j < i ==> valid_coordinate((#[trigger] vertices@[j]).coordinate),
            decreases vertices@.len() - i,
        {
            if vertices[i].vertex_id.0 != i {
                return Err(GraphError::VertexIdNotFound(vertices[i].vertex_id));
            }
            let c = vertices[i].coordinate;
            if c.lat_micro < -90000000 || c.lat_micro > 90000000 || c.lon_micro < -180000000
                || c.lon_micro > 180000000 {
                return Err(GraphError::InvalidCoordinate(vertices[i].vertex_id));
            }
            i = i + 1;
        }
        Ok(
            Graph {
                edges: edge_list.edges,
                vertices,
                adj: edge_list.adj,
                rev: edge_list.rev,
            },
        )
    }

    pub fn n_edges(&self) -> (r: usize)
        ensures
            r == self.edges@.len(),
    {
        self.edges.len()
    }

    pub fn n_vertices(&self) -> (r: usize)
        ensures
            r == self.vertices@.len(),
    {
        self.vertices.len()
    }

    /// The edge under `id`, or `EdgeIdNotFound` for an id outside the table.
    pub fn edge(&self, id: EdgeId) -> (r: Result<&Edge, GraphError>)
        ensures
            r is Ok <==> id.0 < self.edges@.len(),
            r is Ok ==> *r->Ok_0 == self.edges@[id.0 as int],
            r is Err ==> (r->Err_0 matches GraphError::EdgeIdNotFound(e) && e == id),
    {
        if id.0 < self.edges.len() {
            Ok(&self.edges[id.0])
        } else {
            Err(GraphError::EdgeIdNotFound(id))
        }
    }

    /// The vertex under `id`, or `VertexIdNotFound` for an id outside the
    /// table.
    pub fn vertex(&self, id: VertexId) -> (r: Result<&Vertex, GraphError>)
        ensures
            r is Ok <==> id.0 < self.vertices@.len(),
            r is Ok ==> *r->Ok_0 == self.vertices@[id.0 as int],
            r is Err ==> (r->Err_0 matches GraphError::VertexIdNotFound(v) && v == id),
    {
        if id.0 < self.vertices.len() {
            Ok(&self.vertices[id.0])
        } else {
            Err(GraphError::VertexIdNotFound(id))
        }
    }

    /// The `(edge, destination)` pairs leaving `v`, in edge-id order.
    pub fn out_edges(&self, v: VertexId) -> (r: Result<&Vec<(EdgeId, VertexId)>, GraphError>)
        ensures
            r is Ok <==> v.0 < self.adj@.len(),
            r is Ok ==> *r->Ok_0 == self.adj@[v.0 as int],
            r is Err ==> (r->Err_0 matches GraphError::VertexIdNotFound(w) && w == v),
    {
        if v.0 < self.adj.len() {
            Ok(&self.adj[v.0])
        } else {
            Err(GraphError::VertexIdNotFound(v))
        }
    }

    /// The `(edge, source)` pairs entering `v`, in edge-id order.
    pub fn in_edges(&self, v: VertexId) -> (r: Result<&Vec<(EdgeId, VertexId)>, GraphError>)
        ensures
            r is Ok <==> v.0 < self.rev@.len(),
            r is Ok ==> *r->Ok_0 == self.rev@[v.0 as int],
            r is Err ==> (r->Err_0 matches GraphError::VertexIdNotFound(w) && w == v),
    {
        if v.0 < self.rev.len() {
            Ok(&self.rev[v.0])
        } else {
            Err(GraphError::VertexIdNotFound(v))
        }
    }
}

/// Some row among the first `k` of `rows` leaves vertex `v` as pair `p`.
pub open spec fn pair_from_rows(rows: Seq<Edge>, k: int, v: int, p: (EdgeId, VertexId)) -> bool {
    exists|i: int|
        0 <= i < k && (#[trigger] rows[i]).edge_id == p.0 && rows[i].dst_vertex_id == p.1
            && rows[i].src_vertex_id.0 == v
}

/// Some row among the first `k` of `rows` enters vertex `v` as pair `p`.
pub open spec fn pair_into_rows(rows: Seq<Edge>, k: int, v: int, p: (EdgeId, VertexId)) -> bool {
    exists|i: int|
        0 <= i < k && (#[trigger] rows[i]).edge_id == p.0 && rows[i].src_vertex_id == p.1
            && rows[i].dst_vertex_id.0 == v
}

/// An edge table with adjacency keyed by the rows' own ids: ids need not be
/// dense, but every endpoint must resolve to a vertex.
pub struct EdgeLoader {
    pub edges: Vec<Edge>,
    pub adj: Vec<Vec<(EdgeId, VertexId)>>,
    pub rev: Vec<Vec<(EdgeId, VertexId)>>,
}

/// Parsed edge rows with the declared table sizes, for the id-keyed loader.
pub struct EdgeLoaderConfig<'a> {
    pub rows: &'a Vec<Edge>,
    pub n_edges: usize,
    pub n_vertices: usize,
}

impl EdgeLoader {
    /// Keeps every row and records both adjacency directions; an endpoint
    /// outside the vertex table fails the whole load, naming the vertex.
    pub fn try_from(c: EdgeLoaderConfig) -> (r: Result<EdgeLoader, GraphError>)
        ensures
            r is Ok <==> forall|i: int|
                0 <= i < c.rows@.len() ==> (#[trigger] c.rows@[i]).src_vertex_id.0 < c.n_vertices
                    && c.rows@[i].dst_vertex_id.0 < c.n_vertices,
            r is Ok ==> {
                let g = r->Ok_0;
                &&& g.edges@ == c.rows@
                &&& g.adj@.len() == c.n_vertices
                &&& g.rev@.len() == c.n_vertices
                &&& forall|i: int|
                    0 <= i < c.rows@.len() ==> g.adj@[(#[trigger] c.rows@[i]).src_vertex_id.0
                        as int]@.contains((c.rows@[i].edge_id, c.rows@[i].dst_vertex_id))
                &&& forall|i: int|
                    0 <= i < c.rows@.len() ==> g.rev@[(#[trigger] c.rows@[i]).dst_vertex_id.0
                        as int]@.contains((c.rows@[i].edge_id, c.rows@[i].src_vertex_id))
                &&& forall|v: int, k: int|
                    0 <= v < c.n_vertices && 0 <= k < g.adj@[v]@.len() ==> pair_from_rows(
                        c.rows@,
                        c.rows@.len() as int,
                        v,
                        #[trigger] g.adj@[v]@[k],
                    )
                &&& forall|v: int, k: int|
                    0 <= v < c.n_vertices && 0 <= k < g.rev@[v]@.len() ==> pair_into_rows(
                        c.rows@,
                        c.rows@.len() as int,
                        v,
                        #[trigger] g.rev@[v]@[k],
                    )
            },
            (r matches Err(GraphError::AdjacencyVertexMissing(v)) ==> v.0 >= c.n_vertices
                && exists|i: int|
                0 <= i < c.rows@.len() && ((#[trigger] c.rows@[i]).src_vertex_id == v
                    || c.rows@[i].dst_vertex_id == v)),
            r is Err ==> r->Err_0 is AdjacencyVertexMissing,
    {
        let rows = c.rows;
        let mut edges: Vec<Edge> = Vec::new();
        let mut adj: Vec<Vec<(EdgeId, VertexId)>> = Vec::new();
        let mut rev: Vec<Vec<(EdgeId, VertexId)>> = Vec::new();
        let mut i: usize = 0;
        while i < c.n_vertices
            invariant
                i <= c.n_vertices,
                adj@.len() == i,
                rev@.len() == i,
                forall|j: int| 0 <= j < i ==> (#[trigger] adj@[j])@.len() == 0,
                forall|j: int| 0 <= j < i ==> (#[trigger] rev@[j])@.len() == 0,
            decreases c.n_vertices - i,
        {
            adj.push(Vec::new());
            rev.push(Vec::new());
            i = i + 1;
        }
        let mut k: usize = 0;
        while k < rows.len()
            invariant
                rows == c.rows,
                k <= rows@.len(),
                edges@ == rows@.take(k as int),
                adj@.len() == c.n_vertices,
                rev@.len() == c.n_vertices,
                forall|i: int|
                    0 <= i < k ==> (#[trigger] rows@[i]).src_vertex_id.0 < c.n_vertices
                        && rows@[i].dst_vertex_id.0 < c.n_vertices,
                forall|i: int|
                    0 <= i < k ==> adj@[(#[trigger] rows@[i]).src_vertex_id.0 as int]@.contains(
                        (rows@[i].edge_id, rows@[i].dst_vertex_id),
                    ),
                forall|i: int|
                    0 <= i < k ==> rev@[(#[trigger] rows@[i]).dst_vertex_id.0 as int]@.contains(
                        (rows@[i].edge_id, rows@[i].src_vertex_id),
                    ),
                forall|v: int, j: int|
                    0 <= v < c.n_vertices && 0 <= j < adj@[v]@.len() ==> pair_from_rows(
                        rows@,
                        k as int,
                        v,
                        #[trigger] adj@[v]@[j],
                    ),
                forall|v: int, j: int|
                    0 <= v < c.n_vertices && 0 <= j < rev@[v]@.len() ==> pair_into_rows(
                        rows@,
                        k as int,
                        v,
                        #[trigger] rev@[v]@[j],
                    ),
            decreases rows@.len() - k,
        {
            let e: Edge = rows[k];
            if e.src_vertex_id.0 >= c.n_vertices {
                proof {
                    assert(rows@[k as int].src_vertex_id == e.src_vertex_id);
                }
                return Err(GraphError::AdjacencyVertexMissing(e.src_vertex_id));
            }
            if e.dst_vertex_id.0 >= c.n_vertices {
                proof {
                    assert(rows@[k as int].dst_vertex_id == e.dst_vertex_id);
                }
                return Err(GraphError::AdjacencyVertexMissing(e.dst_vertex_id));
            }
            edges.push(e);
            let ghost old_adj = adj@;
            let ghost old_rev = rev@;
            adj[e.src_vertex_id.0].push((e.edge_id, e.dst_vertex_id));
            rev[e.dst_vertex_id.0].push((e.edge_id, e.src_vertex_id));
            proof {
                assert(edges@ =~= rows@.take(k + 1));
                assert forall|i: int|
                    0 <= i < k + 1 implies adj@[(#[trigger] rows@[i]).src_vertex_id.0
                    as int]@.contains((rows@[i].edge_id, rows@[i].dst_vertex_id)) by {
                    let vi = rows@[i].src_vertex_id.0 as int;
                    if i < k {
                        assert(old_adj[vi]@.contains((rows@[i].edge_id, rows@[i].dst_vertex_id)));
                        let w = choose|w: int|
                            0 <= w < old_adj[vi]@.len() && old_adj[vi]@[w] == (
                            rows@[i].edge_id,
                            rows@[i].dst_vertex_id,
                            );
                        assert(adj@[vi]@[w] == (rows@[i].edge_id, rows@[i].dst_vertex_id));
                    } else {
                        assert(adj@[vi]@[adj@[vi]@.len() - 1] == (e.edge_id, e.dst_vertex_id));
                    }
                }
                assert forall|i: int|
                    0 <= i < k + 1 implies rev@[(#[trigger] rows@[i]).dst_vertex_id.0
                    as int]@.contains((rows@[i].edge_id, rows@[i].src_vertex_id)) by {
                    let vi = rows@[i].dst_vertex_id.0 as int;
                    if i < k {
                        assert(old_rev[vi]@.contains((rows@[i].edge_id, rows@[i].src_vertex_id)));
                        let w = choose|w: int|
                            0 <= w < old_rev[vi]@.len() && old_rev[vi]@[w] == (
                            rows@[i].edge_id,
                            rows@[i].src_vertex_id,
                            );
                        assert(rev@[vi]@[w] == (rows@[i].edge_id, rows@[i].src_vertex_id));
                    } else {
                        assert(rev@[vi]@[rev@[vi]@.len() - 1] == (e.edge_id, e.src_vertex_id));
                    }
                }
                assert forall|v: int, j: int|
                    0 <= v < c.n_vertices && 0 <= j < adj@[v]@.len() implies pair_from_rows(
                    rows@,
                    k + 1,
                    v,
                    #[trigger] adj@[v]@[j],
                ) by {
                    if v == e.src_vertex_id.0 as int && j == adj@[v]@.len() - 1 {
                        assert((#[trigger] rows@[k as int]).edge_id == adj@[v]@[j].0 && rows@[
                            k as int
                        ].dst_vertex_id == adj@[v]@[j].1 && rows@[k as int].src_vertex_id.0 == v);
                    } else {
                        assert(old_adj[v]@[j] == adj@[v]@[j]);
                        assert(pair_from_rows(rows@, k as int, v, old_adj[v]@[j]));
                        let i = choose|i: int|
                            0 <= i < k && (#[trigger] rows@[i]).edge_id == old_adj[v]@[j].0
                                && rows@[i].dst_vertex_id == old_adj[v]@[j].1 && rows@[
                            i
                            ].src_vertex_id.0 == v;
                        assert((#[trigger] rows@[i]).edge_id == adj@[v]@[j].0 && rows@[
                            i
                        ].dst_vertex_id == adj@[v]@[j].1 && rows@[i].src_vertex_id.0 == v);
                    }
                }
                assert forall|v: int, j: int|
                    0 <= v < c.n_vertices && 0 <= j < rev@[v]@.len() implies pair_into_rows(
                    rows@,
                    k + 1,
                    v,
                    #[trigger] rev@[v]@[j],
                ) by {
                    if v == e.dst_vertex_id.0 as int && j == rev@[v]@.len() - 1 {
                        assert((#[trigger] rows@[k as int]).edge_id == rev@[v]@[j].0 && rows@[
                            k as int
                        ].src_vertex_id == rev@[v]@[j].1 && rows@[k as int].dst_vertex_id.0 == v);
                    } else {
                        assert(old_rev[v]@[j] == rev@[v]@[j]);
                        assert(pair_into_rows(rows@, k as int, v, old_rev[v]@[j]));
                        let i = choose|i: int|
                            0 <= i < k && (#[trigger] rows@[i]).edge_id == old_rev[v]@[j].0
                                && rows@[i].src_vertex_id == old_rev[v]@[j].1 && rows@[
                            i
                            ].dst_vertex_id.0 == v;
                        assert((#[trigger] rows@[i]).edge_id == rev@[v]@[j].0 && rows@[
                            i
                        ].src_vertex_id == rev@[v]@[j].1 && rows@[i].dst_vertex_id.0 == v);
                    }
                }
            }
            k = k + 1;
        }
        proof {
            assert(edges@ =~= rows@);
        }
        Ok(EdgeLoader { edges, adj, rev })
    }
}

/// Builds forward and reverse association lists for `edges`, walking the
/// edge table in id order.
fn build_adjacency(edges: &Vec<Edge>, n_vertices: usize) -> (r: (
    Vec<Vec<(EdgeId, VertexId)>>,
    Vec<Vec<(EdgeId, VertexId)>>,
))
    requires
        forall|i: int|
            0 <= i < edges@.len() ==> (#[trigger] edges@[i]).edge_id == EdgeId(i as usize),
        forall|i: int|
            0 <= i < edges@.len() ==> (#[trigger] edges@[i]).src_vertex_id.0 < n_vertices
                && edges@[i].dst_vertex_id.0 < n_vertices,
    ensures
        r.0@.len() == n_vertices,
        r.1@.len() == n_vertices,
        edge_list_wf(edges@, r.0@, r.1@),
{
    let mut adj: Vec<Vec<(EdgeId, VertexId)>> = Vec::new();
    let mut rev: Vec<Vec<(EdgeId, VertexId)>> = Vec::new();
    let mut i: usize = 0;
    while i < n_vertices
        invariant
            i <= n_vertices,
            adj@.len() == i,
            rev@.len() == i,
            forall|j: int| 0 <= j < i ==> (#[trigger] adj@[j])@.len() == 0,
            forall|j: int| 0 <= j < i ==> (#[trigger] rev@[j])@.len() == 0,
        decreases n_vertices - i,
    {
        adj.push(Vec::new());
        rev.push(Vec::new());
        i = i + 1;
    }
    let mut k: usize = 0;
    while k < edges.len()
        invariant
            k <= edges@.len(),
            adj@.len() == n_vertices,
            rev@.len() == n_vertices,
            forall|i: int|
                0 <= i < edges@.len() ==> (#[trigger] edges@[i]).edge_id == EdgeId(i as usize),
            forall|i: int|
                0 <= i < edges@.len() ==> (#[trigger] edges@[i]).src_vertex_id.0 < n_vertices
                    && edges@[i].dst_vertex_id.0 < n_vertices,
            forall|i: int|
                0 <= i < k ==> #[trigger] adj@[edges@[i].src_vertex_id.0 as int]@.contains(
                    (EdgeId(i as usize), edges@[i].dst_vertex_id),
                ),
            forall|i: int|
                0 <= i < k ==> #[trigger] rev@[edges@[i].dst_vertex_id.0 as int]@.contains(
                    (EdgeId(i as usize), edges@[i].src_vertex_id),
                ),
            forall|v: int, j: int|
                0 <= v < n_vertices && 0 <= j < adj@[v]@.len() ==> {
                    let p = #[trigger] adj@[v]@[j];
                    &&& p.0.0 < edges@.len()
                    &&& edges@[p.0.0 as int].src_vertex_id.0 == v
                    &&& edges@[p.0.0 as int].dst_vertex_id == p.1
                },
            forall|v: int, j: int|
                0 <= v < n_vertices && 0 <= j < rev@[v]@.len() ==> {
                    let p = #[trigger] rev@[v]@[j];
                    &&& p.0.0 < edges@.len()
                    &&& edges@[p.0.0 as int].dst_vertex_id.0 == v
                    &&& edges@[p.0.0 as int].src_vertex_id == p.1
                },
        decreases edges@.len() - k,
    {
        let e: Edge = edges[k];
        let s: usize = e.src_vertex_id.0;
        let d: usize = e.dst_vertex_id.0;
        let ghost old_adj = adj@;
        let ghost old_rev = rev@;
        adj[s].push((EdgeId(k), e.dst_vertex_id));
        rev[d].push((EdgeId(k), e.src_vertex_id));
        proof {
            assert forall|i: int|
                0 <= i < k + 1 implies #[trigger] adj@[edges@[i].src_vertex_id.0 as int]@.contains(
                (EdgeId(i as usize), edges@[i].dst_vertex_id),
            ) by {
                let vi = edges@[i].src_vertex_id.0 as int;
                if i < k {
                    assert(old_adj[vi]@.contains((EdgeId(i as usize), edges@[i].dst_vertex_id)));
                    let w = choose|w: int|
                        0 <= w < old_adj[vi]@.len() && old_adj[vi]@[w] == (
                        EdgeId(i as usize),
                        edges@[i].dst_vertex_id,
                        );
                    assert(adj@[vi]@[w] == (EdgeId(i as usize), edges@[i].dst_vertex_id));
                } else {
                    assert(adj@[s as int]@[adj@[s as int]@.len() - 1] == (
                        EdgeId(k),
                        e.dst_vertex_id,
                    ));
                }
            }
            assert forall|i: int|
                0 <= i < k + 1 implies #[trigger] rev@[edges@[i].dst_vertex_id.0 as int]@.contains(
                (EdgeId(i as usize), edges@[i].src_vertex_id),
            ) by {
                let vi = edges@[i].dst_vertex_id.0 as int;
                if i < k {
                    assert(old_rev[vi]@.contains((EdgeId(i as usize), edges@[i].src_vertex_id)));
                    let w = choose|w: int|
                        0 <= w < old_rev[vi]@.len() && old_rev[vi]@[w] == (
                        EdgeId(i as usize),
                        edges@[i].src_vertex_id,
                        );
                    assert(rev@[vi]@[w] == (EdgeId(i as usize), edges@[i].src_vertex_id));
                } else {
                    assert(rev@[d as int]@[rev@[d as int]@.len() - 1] == (
                        EdgeId(k),
                        e.src_vertex_id,
                    ));
                }
            }
        }
        k = k + 1;
    }
    (adj, rev)
}

} // verus!
