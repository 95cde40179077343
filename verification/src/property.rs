//! Vertices, edges and their identifiers.

use vstd::prelude::*;
use crate::units::Distance;
use crate::units::Grade;

verus! {

/// Dense non-negative handle of an edge: an index into the edge table.
#[derive(Clone, Copy, PartialEq, Eq, Structural, Hash, Debug)]
pub struct EdgeId(pub usize);

/// Dense non-negative handle of a vertex: an index into the vertex table.
#[derive(Clone, Copy, PartialEq, Eq, Structural, Hash, Debug)]
pub struct VertexId(pub usize);

/// Enumerated road category, as a small code from the edge table.
#[derive(Clone, Copy, PartialEq, Eq, Structural, Hash, Debug)]
pub struct RoadClass(pub u8);

/// A WGS84 position in integer microdegrees (1e-6 degree).
#[derive(Clone, Copy, PartialEq, Eq, Structural, Debug)]
pub struct Coordinate {
    pub lat_micro: i64,
    pub lon_micro: i64,
}

/// A junction of the road network.
#[derive(Clone, Copy, PartialEq, Eq, Structural, Debug)]
pub struct Vertex {
    pub vertex_id: VertexId,
    pub coordinate: Coordinate,
}

/// A road segment. `distance` is in milli-units of `BASE_DISTANCE_UNIT`;
/// `grade` is a signed milli-ratio.
#[derive(Clone, Copy, PartialEq, Eq, Structural, Debug)]
pub struct Edge {
    pub edge_id: EdgeId,
    pub src_vertex_id: VertexId,
    pub dst_vertex_id: VertexId,
    pub road_class: RoadClass,
    pub distance: Distance,
    pub grade: Grade,
}

} // verus!
