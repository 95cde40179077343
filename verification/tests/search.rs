use compass::frontier::NoRestriction;
use compass::frontier::RoadClassRestriction;
use compass::frontier::TruckParameters;
use compass::frontier::TruckRestriction;
use compass::frontier::TruckRestrictionFrontierModel;
use compass::frontier::TruckRestrictionFrontierService;
use compass::frontier::FrontierModel;
use compass::graph::EdgeLoader;
use compass::graph::EdgeLoaderConfig;
use compass::graph::Graph;
use compass::graph::GraphError;
use compass::graph::TomTomEdgeList;
use compass::graph::TomTomEdgeListConfig;
use compass::graph::TomTomGraphConfig;
use compass::heuristic::CostEstimator;
use compass::heuristic::Haversine;
use compass::heuristic::StraightLineDistance;
use compass::heuristic::coord_distance;
use compass::property::Coordinate;
use compass::property::Edge;
use compass::property::EdgeId;
use compass::property::RoadClass;
use compass::property::Vertex;
use compass::property::VertexId;
use compass::search::SearchError;
use compass::search::run_a_star;
use compass::search_app::SearchApp;
use compass::search_app::run_a_star_edge_oriented;
use compass::speed::SpeedTraversalEngine;
use compass::speed::SpeedTraversalModel;
use compass::state::StateFeature;
use compass::state::StateModel;
use compass::traversal::DistanceModel;
use compass::traversal::TraversalModel;
use compass::units::Distance;
use compass::units::DistanceUnit;
use compass::units::Speed;
use compass::units::SpeedUnit;
use compass::units::Time;
use compass::units::TimeUnit;

fn vertex(id: usize, lat_micro: i64, lon_micro: i64) -> Vertex {
    Vertex { vertex_id: VertexId(id), coordinate: Coordinate { lat_micro, lon_micro } }
}

fn edge(id: usize, src: usize, dst: usize, distance_milli_m: u64, road_class: u8) -> Edge {
    Edge {
        edge_id: EdgeId(id),
        src_vertex_id: VertexId(src),
        dst_vertex_id: VertexId(dst),
        road_class: RoadClass(road_class),
        distance: Distance(distance_milli_m),
        grade: compass::units::Grade(0),
    }
}

fn build_graph(rows: Vec<Edge>, vertices: Vec<Vertex>) -> Graph {
    let n_edges = rows.len();
    let n_vertices = vertices.len();
    let list = TomTomEdgeList::try_from(TomTomEdgeListConfig {
        rows: &rows,
        n_edges,
        n_vertices,
    })
    .unwrap();
    Graph::new(list, vertices).unwrap()
}

/// The triangle network: distances carried in milli-meters so a cost of
/// 100_000 reads as 100 meters.
fn triangle(road_class_edge0: u8) -> Graph {
    let rows = vec![
        edge(0, 0, 1, 100_000, road_class_edge0),
        edge(1, 1, 2, 100_000, 0),
        edge(2, 0, 2, 250_000, 0),
    ];
    let vertices = vec![vertex(0, 0, 0), vertex(1, 0, 1), vertex(2, 1, 1)];
    build_graph(rows, vertices)
}

fn distance_setup() -> (DistanceModel, StateModel, usize) {
    let model = DistanceModel::new(Some(DistanceUnit::Meters));
    let sm = StateModel::empty().extend(model.state_features()).unwrap();
    let obj = sm.index_of(&String::from("distance")).unwrap();
    (model, sm, obj)
}

/// The estimator matching the distance objective's unit.
fn straight_line() -> StraightLineDistance {
    StraightLineDistance { distance_unit: DistanceUnit::Meters }
}

fn haversine() -> Haversine {
    Haversine { travel_speed: Speed(40_000), output_time_unit: TimeUnit::Seconds }
}

#[test]
fn triangle_distance_route_takes_two_hops() {
    let graph = triangle(0);
    let (model, sm, obj) = distance_setup();
    let result = run_a_star(
        &graph,
        &model,
        &NoRestriction {},
        &straight_line(),
        &sm,
        obj,
        VertexId(0),
        VertexId(2),
        None,
    )
    .unwrap();
    let ids: Vec<usize> = result.route.iter().map(|t| t.edge_id.0).collect();
    assert_eq!(ids, vec![0, 1]);
    assert_eq!(result.g_cost.0, 200_000); // 200 meters
}

#[test]
fn triangle_restricted_road_class_detours() {
    let graph = triangle(1);
    let (model, sm, obj) = distance_setup();
    let restriction = RoadClassRestriction { forbidden: vec![RoadClass(1)] };
    let result = run_a_star(
        &graph,
        &model,
        &restriction,
        &straight_line(),
        &sm,
        obj,
        VertexId(0),
        VertexId(2),
        None,
    )
    .unwrap();
    let ids: Vec<usize> = result.route.iter().map(|t| t.edge_id.0).collect();
    assert_eq!(ids, vec![2]);
    assert_eq!(result.g_cost.0, 250_000); // 250 meters
}

#[test]
fn linear_speed_route_time_is_nine_seconds() {
    // four vertices chained by edges of 10 meters each, speeds 10/20/10 kph
    let rows = vec![
        edge(0, 0, 1, 10_000, 0),
        edge(1, 1, 2, 10_000, 0),
        edge(2, 2, 3, 10_000, 0),
    ];
    let vertices = vec![
        vertex(0, 0, 0),
        vertex(1, 0, 100),
        vertex(2, 0, 200),
        vertex(3, 0, 300),
    ];
    let graph = build_graph(rows, vertices);
    let engine = SpeedTraversalEngine::new(
        vec![Speed(10_000), Speed(20_000), Speed(10_000)],
        SpeedUnit::KilometersPerHour,
        None,
        Some(TimeUnit::Seconds),
    )
    .unwrap();
    let model = SpeedTraversalModel::new(engine);
    let sm = StateModel::empty()
        .extend(vec![(
            String::from("time"),
            StateFeature::Time { time_unit: TimeUnit::Seconds, initial: Time(0) },
        )])
        .unwrap();
    let obj = sm.index_of(&String::from("time")).unwrap();
    let result = run_a_star(
        &graph,
        &model,
        &NoRestriction {},
        &haversine(),
        &sm,
        obj,
        VertexId(0),
        VertexId(3),
        None,
    )
    .unwrap();
    // (0.01/10 + 0.01/20 + 0.01/10) hours = 9.0 seconds
    assert_eq!(result.g_cost.0, 9_000); // milli-seconds
    assert_eq!(result.g_cost.0 as f64 / 1000.0, 9.0);
}

#[test]
fn disconnected_vertices_have_no_path() {
    let graph = build_graph(
        vec![edge(0, 0, 0, 1_000, 0)],
        vec![vertex(0, 0, 0), vertex(1, 0, 1)],
    );
    let (model, sm, obj) = distance_setup();
    let outcome = run_a_star(
        &graph,
        &model,
        &NoRestriction {},
        &straight_line(),
        &sm,
        obj,
        VertexId(0),
        VertexId(1),
        None,
    );
    let err = match outcome {
        Err(e) => e,
        Ok(_) => panic!("a disconnected pair must have no path"),
    };
    assert!(matches!(err, SearchError::NoPathExists));
}

#[test]
fn zero_length_query_is_empty_and_free() {
    let graph = triangle(0);
    let (model, sm, obj) = distance_setup();
    let result = run_a_star(
        &graph,
        &model,
        &NoRestriction {},
        &straight_line(),
        &sm,
        obj,
        VertexId(1),
        VertexId(1),
        None,
    )
    .unwrap();
    assert_eq!(result.route.len(), 0);
    assert_eq!(result.g_cost.0, 0);
}

#[test]
fn edge_oriented_query_splices_endpoint_edges() {
    let graph = triangle(0);
    let (model, sm, obj) = distance_setup();
    let result = run_a_star_edge_oriented(
        &graph,
        &model,
        &NoRestriction {},
        &straight_line(),
        &sm,
        obj,
        EdgeId(0),
        EdgeId(1),
        None,
    )
    .unwrap();
    // the searched interior is a single shared vertex, so the route is the
    // origin edge followed by the destination edge
    let ids: Vec<usize> = result.route.iter().map(|t| t.edge_id.0).collect();
    assert_eq!(ids, vec![0, 1]);
    assert_eq!(result.g_cost.0, 200_000);
}

#[test]
fn edge_oriented_same_edge_is_empty() {
    let graph = triangle(0);
    let (model, sm, obj) = distance_setup();
    let result = run_a_star_edge_oriented(
        &graph,
        &model,
        &NoRestriction {},
        &straight_line(),
        &sm,
        obj,
        EdgeId(2),
        EdgeId(2),
        None,
    )
    .unwrap();
    assert_eq!(result.route.len(), 0);
    assert_eq!(result.g_cost.0, 0);
}

#[test]
fn repeated_queries_are_deterministic() {
    let graph = triangle(0);
    let (model, sm, obj) = distance_setup();
    let app = SearchApp::new(graph, model, NoRestriction {}, straight_line(), sm, obj);
    let queries = vec![(EdgeId(0), EdgeId(1)), (EdgeId(0), EdgeId(1))];
    let results = app.run_edge_oriented(&queries);
    assert_eq!(results.len(), 2);
    let first = results[0].as_ref().unwrap();
    let second = results[1].as_ref().unwrap();
    let ids_a: Vec<usize> = first.route.iter().map(|t| t.edge_id.0).collect();
    let ids_b: Vec<usize> = second.route.iter().map(|t| t.edge_id.0).collect();
    assert_eq!(ids_a, ids_b);
    assert_eq!(first.g_cost.0, second.g_cost.0);
    assert_eq!(first.final_state, second.final_state);
}

#[test]
fn batch_results_preserve_input_order_and_errors() {
    let graph = triangle(0);
    let (model, sm, obj) = distance_setup();
    let app = SearchApp::new(graph, model, NoRestriction {}, straight_line(), sm, obj);
    let queries = vec![(EdgeId(0), EdgeId(1)), (EdgeId(0), EdgeId(9))];
    let results = app.run_edge_oriented(&queries);
    assert_eq!(results.len(), 2);
    assert!(results[0].is_ok());
    assert!(matches!(results[1], Err(SearchError::InvalidQueryEdge(EdgeId(9)))));
}

#[test]
fn heuristic_consistency_on_collinear_vertices() {
    // A, B, C on one meridian with B between A and C
    let a = vertex(0, 0, 0);
    let b = vertex(1, 0, 500_000);
    let c = vertex(2, 0, 1_000_000);
    let h = haversine();
    let h_ac = h.cost_estimate(&a, &c).0;
    let h_ab = h.cost_estimate(&a, &b).0;
    let h_bc = h.cost_estimate(&b, &c).0;
    // the straight-line cost of the A-B leg is exactly h(A,B) here
    assert!(h_ac <= h_ab + h_bc);
    assert!(h_ab > 0 && h_bc > 0);
}

#[test]
fn heuristic_estimate_is_distance_over_speed() {
    // one degree of longitude at the equator, at 40 kph, in seconds
    let a = vertex(0, 0, 0);
    let b = vertex(1, 0, 1_000_000);
    let h = haversine();
    // 111 km at 40 kph = 2.775 h = 9990 s
    assert_eq!(h.cost_estimate(&a, &b).0, 9_990_000);
    assert_eq!(h.cost_estimate(&a, &a).0, 0);
    let d = coord_distance(a.coordinate, b.coordinate, DistanceUnit::Kilometers);
    assert_eq!(d.0, 111_000); // milli-km
}

#[test]
fn adjacency_matches_edge_table() {
    let graph = triangle(0);
    let out0 = graph.out_edges(VertexId(0)).unwrap();
    assert_eq!(out0.as_slice(), &[(EdgeId(0), VertexId(1)), (EdgeId(2), VertexId(2))]);
    let into2 = graph.in_edges(VertexId(2)).unwrap();
    assert_eq!(into2.as_slice(), &[(EdgeId(1), VertexId(1)), (EdgeId(2), VertexId(0))]);
    for e in 0..graph.n_edges() {
        let ed = *graph.edge(EdgeId(e)).unwrap();
        assert!(graph
            .out_edges(ed.src_vertex_id)
            .unwrap()
            .contains(&(ed.edge_id, ed.dst_vertex_id)));
        assert!(graph
            .in_edges(ed.dst_vertex_id)
            .unwrap()
            .contains(&(ed.edge_id, ed.src_vertex_id)));
    }
}

#[test]
fn strict_loader_rejects_bad_rows() {
    let vertices_ok = vec![vertex(0, 0, 0), vertex(1, 0, 1)];
    // an endpoint outside the vertex range
    let err = match TomTomEdgeList::try_from(TomTomEdgeListConfig {
        rows: &vec![edge(0, 0, 5, 1_000, 0)],
        n_edges: 1,
        n_vertices: vertices_ok.len(),
    }) {
        Err(e) => e,
        Ok(_) => panic!("a missing endpoint must be rejected"),
    };
    assert!(matches!(err, GraphError::AdjacencyVertexMissing(VertexId(5))));
    // two rows with one id
    let err = match TomTomEdgeList::try_from(TomTomEdgeListConfig {
        rows: &vec![edge(0, 0, 1, 1_000, 0), edge(0, 1, 0, 1_000, 0)],
        n_edges: 2,
        n_vertices: 2,
    }) {
        Err(e) => e,
        Ok(_) => panic!("a duplicate edge id must be rejected"),
    };
    assert!(matches!(err, GraphError::DuplicateEdgeId(EdgeId(0))));
    // a hole in the id range
    let err = match TomTomEdgeList::try_from(TomTomEdgeListConfig {
        rows: &vec![edge(1, 0, 1, 1_000, 0)],
        n_edges: 2,
        n_vertices: 2,
    }) {
        Err(e) => e,
        Ok(_) => panic!("a hole in the id range must be rejected"),
    };
    assert!(matches!(err, GraphError::EdgeIdNotFound(EdgeId(0))));
}

#[test]
fn id_keyed_loader_rejects_missing_vertices() {
    // the second row's head is outside the vertex table
    let rows = vec![edge(0, 0, 0, 1_000, 0), edge(1, 0, 5, 2_000, 0)];
    let err = match EdgeLoader::try_from(EdgeLoaderConfig {
        rows: &rows,
        n_edges: rows.len(),
        n_vertices: 1,
    }) {
        Err(e) => e,
        Ok(_) => panic!("a missing endpoint must fail the load"),
    };
    assert!(matches!(err, GraphError::AdjacencyVertexMissing(VertexId(5))));
}

#[test]
fn id_keyed_loader_accepts_sparse_ids() {
    // ids need not be dense here, unlike the strict loader
    let rows = vec![edge(7, 0, 1, 1_000, 0), edge(3, 1, 0, 2_000, 0)];
    let loader = EdgeLoader::try_from(EdgeLoaderConfig {
        rows: &rows,
        n_edges: rows.len(),
        n_vertices: 2,
    })
    .unwrap();
    assert_eq!(loader.edges.len(), 2);
    assert_eq!(loader.adj[0].as_slice(), &[(EdgeId(7), VertexId(1))]);
    assert_eq!(loader.adj[1].as_slice(), &[(EdgeId(3), VertexId(0))]);
    assert_eq!(loader.rev[0].as_slice(), &[(EdgeId(3), VertexId(1))]);
    assert_eq!(loader.rev[1].as_slice(), &[(EdgeId(7), VertexId(0))]);
}

#[test]
fn graph_config_resolves_sizes() {
    let config = TomTomGraphConfig {
        edge_list_csv: String::from("edges.csv.gz"),
        vertex_list_csv: String::from("vertices.csv"),
        n_edges: Some(7),
        n_vertices: None,
        verbose: false,
    };
    assert_eq!(config.get_n_edges(None), Some(7));
    // a counted file of 11 lines holds 10 rows after the header
    assert_eq!(config.get_n_vertices(Some(11)), Some(10));
    assert_eq!(config.read_file_sizes(None, Some(11)).unwrap(), (7, 10));
    let empty = TomTomGraphConfig {
        edge_list_csv: String::from("edges.csv"),
        vertex_list_csv: String::from("vertices.csv"),
        n_edges: None,
        n_vertices: Some(3),
        verbose: false,
    };
    assert!(matches!(
        empty.read_file_sizes(Some(1), None),
        Err(GraphError::EmptyFileSource { .. })
    ));
}

#[test]
fn truck_restrictions_prune_by_dimension() {
    let service = TruckRestrictionFrontierService {
        truck_restriction_lookup: vec![vec![TruckRestriction::MaxHeight(4_000)]],
    };
    let tall = TruckRestrictionFrontierModel {
        service,
        truck_parameters: TruckParameters {
            truck_weight: 10_000_000,
            truck_height: 4_500,
            truck_width: 2_500,
            truck_length: 12_000,
        },
    };
    let sm = StateModel::empty();
    let state = sm.initial_state().unwrap();
    let e0 = edge(0, 0, 1, 1_000, 0);
    let e1 = edge(1, 1, 0, 1_000, 0);
    assert_eq!(tall.valid_frontier(&e0, &state, None, &sm).unwrap(), false);
    // an edge without restrictions stays open
    assert_eq!(tall.valid_frontier(&e1, &state, None, &sm).unwrap(), true);
    let service = TruckRestrictionFrontierService {
        truck_restriction_lookup: vec![vec![TruckRestriction::MaxHeight(4_000)]],
    };
    let low = TruckRestrictionFrontierModel {
        service,
        truck_parameters: TruckParameters {
            truck_weight: 10_000_000,
            truck_height: 3_500,
            truck_width: 2_500,
            truck_length: 12_000,
        },
    };
    assert_eq!(low.valid_frontier(&e0, &state, None, &sm).unwrap(), true);
}

#[test]
fn traversal_costs_sum_to_route_cost() {
    let graph = triangle(0);
    let (model, sm, obj) = distance_setup();
    let result = run_a_star(
        &graph,
        &model,
        &NoRestriction {},
        &straight_line(),
        &sm,
        obj,
        VertexId(0),
        VertexId(2),
        None,
    )
    .unwrap();
    let mut total: u64 = 0;
    for t in &result.route {
        total = total
            .saturating_add(t.access_cost.0)
            .saturating_add(t.traversal_cost.0);
    }
    assert_eq!(total, result.g_cost.0);
}

#[test]
fn vertex_table_must_be_dense_and_plausible() {
    let rows = vec![edge(0, 0, 1, 1_000, 0)];
    let list = TomTomEdgeList::try_from(TomTomEdgeListConfig {
        rows: &rows,
        n_edges: 1,
        n_vertices: 2,
    })
    .unwrap();
    // vertex ids out of order
    let err = match Graph::new(list, vec![vertex(1, 0, 0), vertex(0, 0, 1)]) {
        Err(e) => e,
        Ok(_) => panic!("out-of-order vertex ids must be rejected"),
    };
    assert!(matches!(err, GraphError::VertexIdNotFound(VertexId(1))));
    let list = TomTomEdgeList::try_from(TomTomEdgeListConfig {
        rows: &rows,
        n_edges: 1,
        n_vertices: 2,
    })
    .unwrap();
    // a latitude beyond the pole
    let err = match Graph::new(list, vec![vertex(0, 95_000_000, 0), vertex(1, 0, 1)]) {
        Err(e) => e,
        Ok(_) => panic!("an impossible coordinate must be rejected"),
    };
    assert!(matches!(err, GraphError::InvalidCoordinate(VertexId(0))));
}

#[test]
fn edge_oriented_wraps_model_failures() {
    let graph = triangle(0);
    // a speed table that does not cover edge 2
    let engine = SpeedTraversalEngine::new(
        vec![Speed(10_000), Speed(10_000)],
        SpeedUnit::KilometersPerHour,
        None,
        Some(TimeUnit::Seconds),
    )
    .unwrap();
    let model = SpeedTraversalModel::new(engine);
    let sm = StateModel::empty()
        .extend(vec![(
            String::from("time"),
            StateFeature::Time { time_unit: TimeUnit::Seconds, initial: Time(0) },
        )])
        .unwrap();
    let obj = sm.index_of(&String::from("time")).unwrap();
    let outcome = run_a_star_edge_oriented(
        &graph,
        &model,
        &NoRestriction {},
        &haversine(),
        &sm,
        obj,
        EdgeId(2),
        EdgeId(1),
        None,
    );
    let err = match outcome {
        Err(e) => e,
        Ok(_) => panic!("a failing endpoint traversal must surface"),
    };
    assert!(matches!(err, SearchError::TraversalError(_)));
}

#[test]
fn straight_line_estimate_matches_distance() {
    let a = vertex(0, 0, 0);
    let b = vertex(1, 0, 1_000_000);
    let est = StraightLineDistance { distance_unit: DistanceUnit::Meters };
    // one degree of longitude at the equator, in milli-meters
    assert_eq!(est.cost_estimate(&a, &b).0, 111_000_000);
    assert_eq!(est.cost_estimate(&a, &a).0, 0);
}

#[test]
fn raised_cancel_flag_stops_the_search() {
    let graph = triangle(0);
    let (model, sm, obj) = distance_setup();
    let flag = std::sync::atomic::AtomicBool::new(true);
    let outcome = run_a_star(
        &graph,
        &model,
        &NoRestriction {},
        &straight_line(),
        &sm,
        obj,
        VertexId(0),
        VertexId(2),
        Some(&flag),
    );
    assert!(matches!(outcome, Err(SearchError::Cancelled)));
    // a lowered flag lets the same query finish
    flag.store(false, std::sync::atomic::Ordering::Relaxed);
    let result = run_a_star(
        &graph,
        &model,
        &NoRestriction {},
        &straight_line(),
        &sm,
        obj,
        VertexId(0),
        VertexId(2),
        Some(&flag),
    )
    .unwrap();
    assert_eq!(result.g_cost.0, 200_000);
}
