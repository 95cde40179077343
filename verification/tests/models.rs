use compass::energy::EdgeHeading;
use compass::energy::SpeedGradeEnergyModel;
use compass::energy::compute_headings_angle;
use compass::energy::get_grade;
use compass::energy::get_headings;
use compass::property::Coordinate;
use compass::property::Edge;
use compass::property::EdgeId;
use compass::property::RoadClass;
use compass::property::Vertex;
use compass::property::VertexId;
use compass::speed::SpeedTraversalEngine;
use compass::speed::SpeedTraversalModel;
use compass::speed::get_speed;
use compass::state::StateErrorKind;
use compass::state::StateFeature;
use compass::state::StateModel;
use compass::traversal::CombinedTraversalModel;
use compass::traversal::DistanceModel;
use compass::traversal::TraversalModel;
use compass::units::Distance;
use compass::units::DistanceUnit;
use compass::units::Energy;
use compass::units::EnergyRate;
use compass::units::EnergyRateUnit;
use compass::units::EnergyUnit;
use compass::units::Grade;
use compass::units::Speed;
use compass::units::SpeedUnit;
use compass::units::Time;
use compass::units::TimeUnit;
use compass::units::convert_distance;
use compass::units::convert_time;
use compass::units::energy_for_distance;
use compass::units::time_for_distance;

fn mock_vertex() -> Vertex {
    Vertex {
        vertex_id: VertexId(0),
        coordinate: Coordinate { lat_micro: 36_120_000, lon_micro: -86_670_000 },
    }
}

fn mock_edge(edge_id: usize) -> Edge {
    Edge {
        edge_id: EdgeId(edge_id),
        src_vertex_id: VertexId(0),
        dst_vertex_id: VertexId(1),
        road_class: RoadClass(0),
        distance: Distance(100_000), // 100 meters in milli-meters
        grade: Grade(0),
    }
}

fn approx_eq(a: f64, b: f64, error: f64) {
    let result = match (a, b) {
        (c, d) if c < d => d - c < error,
        (c, d) if c > d => c - d < error,
        (_, _) => true,
    };
    assert!(result, "{} ~= {} is not true within an error of {}", a, b, error);
}

fn seconds_state_model(time_unit: TimeUnit) -> StateModel {
    StateModel::empty()
        .extend(vec![
            (
                String::from("distance"),
                StateFeature::Distance {
                    distance_unit: DistanceUnit::Kilometers,
                    initial: Distance(0),
                },
            ),
            (String::from("time"), StateFeature::Time { time_unit, initial: Time(0) }),
        ])
        .unwrap()
}

#[test]
fn test_edge_cost_lookup_with_seconds_time_unit() {
    let engine = SpeedTraversalEngine::new(
        vec![Speed(10_000)], // edge 0 travels at 10 kph
        SpeedUnit::KilometersPerHour,
        None,
        Some(TimeUnit::Seconds),
    )
    .unwrap();
    let state_model = seconds_state_model(TimeUnit::Seconds);
    let model = SpeedTraversalModel::new(engine);
    let mut state = state_model.initial_state().unwrap();
    let v = mock_vertex();
    let e1 = mock_edge(0);
    // 100 meters @ 10kph should take 36 seconds ((0.1/10) * 3600)
    model.traverse_edge((&v, &e1, &v), &mut state, &state_model).unwrap();
    let expected = 36.0;
    approx_eq(state[1].0 as f64 / 1000.0, expected, 0.001);
}

#[test]
fn test_edge_cost_lookup_with_milliseconds_time_unit() {
    let engine = SpeedTraversalEngine::new(
        vec![Speed(10_000)],
        SpeedUnit::KilometersPerHour,
        None,
        Some(TimeUnit::Milliseconds),
    )
    .unwrap();
    let state_model = seconds_state_model(TimeUnit::Milliseconds);
    let model = SpeedTraversalModel::new(engine);
    let mut state = state_model.initial_state().unwrap();
    let v = mock_vertex();
    let e1 = mock_edge(0);
    // 100 meters @ 10kph should take 36,000 milliseconds ((0.1/10) * 3600000)
    model.traverse_edge((&v, &e1, &v), &mut state, &state_model).unwrap();
    let expected = 36000.0;
    approx_eq(state[1].0 as f64 / 1000.0, expected, 0.001);
}

#[test]
fn distance_conversions_are_exact() {
    // 2 km expressed in meters: 2000 milli-km -> 2_000_000 milli-m
    let r = convert_distance(Distance(2000), DistanceUnit::Kilometers, DistanceUnit::Meters);
    assert_eq!(r, Some(Distance(2_000_000)));
    // the reverse conversion truncates: 2500 milli-m -> 2 milli-km
    let r = convert_distance(Distance(2500), DistanceUnit::Meters, DistanceUnit::Kilometers);
    assert_eq!(r, Some(Distance(2)));
}

#[test]
fn time_conversions_are_exact() {
    let r = convert_time(Time(36_000), TimeUnit::Seconds, TimeUnit::Milliseconds);
    assert_eq!(r, Some(Time(36_000_000)));
    let r = convert_time(Time(1000), TimeUnit::Hours, TimeUnit::Seconds);
    assert_eq!(r, Some(Time(3_600_000)));
}

#[test]
fn time_for_distance_matches_formula() {
    // 0.1 km at 10 kph is 36 seconds
    let t = time_for_distance(
        Speed(10_000),
        SpeedUnit::KilometersPerHour,
        Distance(100_000),
        DistanceUnit::Meters,
        TimeUnit::Seconds,
    );
    assert_eq!(t, Some(Time(36_000)));
    // zero speed has no answer
    let t = time_for_distance(
        Speed(0),
        SpeedUnit::KilometersPerHour,
        Distance(100_000),
        DistanceUnit::Meters,
        TimeUnit::Seconds,
    );
    assert_eq!(t, None);
}

#[test]
fn energy_for_distance_matches_formula() {
    // 100 Wh/km over 2 km is 200 Wh
    let e = energy_for_distance(
        EnergyRate(100_000),
        EnergyRateUnit::WattHoursPerKilometer,
        Distance(2000),
        DistanceUnit::Kilometers,
        EnergyUnit::WattHours,
    );
    assert_eq!(e, Some(Energy(200_000)));
}

#[test]
fn state_model_rejects_duplicate_names() {
    let base = seconds_state_model(TimeUnit::Seconds);
    let attempt = base.extend(vec![(
        String::from("time"),
        StateFeature::Time { time_unit: TimeUnit::Seconds, initial: Time(0) },
    )]);
    let err = match attempt {
        Err(e) => e,
        Ok(_) => panic!("a duplicate feature name must be rejected"),
    };
    assert_eq!(err.kind, StateErrorKind::DuplicateName);
}

#[test]
fn state_model_rejects_unknown_feature() {
    let sm = seconds_state_model(TimeUnit::Seconds);
    let state = sm.initial_state().unwrap();
    let err = sm.get(&state, &String::from("energy")).unwrap_err();
    assert_eq!(err.kind, StateErrorKind::UnknownFeature);
}

#[test]
fn state_model_rejects_unit_mismatch() {
    let sm = seconds_state_model(TimeUnit::Seconds);
    let mut state = sm.initial_state().unwrap();
    // adding distance into the time slot is a kind mismatch
    let err = sm
        .add_distance(&mut state, &String::from("time"), &Distance(5), &DistanceUnit::Meters)
        .unwrap_err();
    assert_eq!(err.kind, StateErrorKind::UnitMismatch);
}

#[test]
fn state_model_accumulates_with_conversion() {
    let sm = seconds_state_model(TimeUnit::Seconds);
    let mut state = sm.initial_state().unwrap();
    // 1,500,000 milli-m is 1.5 km, stored as 1500 milli-km
    sm.add_distance(&mut state, &String::from("distance"), &Distance(1_500_000), &DistanceUnit::Meters)
        .unwrap();
    assert_eq!(state[0].0, 1500);
}

#[test]
fn distance_model_accumulates_edge_distance() {
    let model = DistanceModel::new(Some(DistanceUnit::Meters));
    let sm = StateModel::empty()
        .extend(model.state_features())
        .unwrap();
    let mut state = sm.initial_state().unwrap();
    let v = mock_vertex();
    let e = mock_edge(0);
    let before = state.clone();
    model.traverse_edge((&v, &e, &v), &mut state, &sm).unwrap();
    // monotone accumulators: no component decreased
    for i in 0..state.len() {
        assert!(state[i].0 >= before[i].0);
    }
    assert_eq!(state[0].0, 100_000); // 100 m in milli-meters
}

#[test]
fn speed_lookup_reports_missing_edge() {
    let table = vec![Speed(10_000)];
    assert_eq!(get_speed(&table, EdgeId(0)).unwrap(), Speed(10_000));
    assert!(get_speed(&table, EdgeId(9)).is_err());
}

#[test]
fn grade_lookup_defaults_to_flat() {
    assert_eq!(get_grade(&None, EdgeId(7)).unwrap(), Grade(0));
    let table = Some(vec![Grade(-50), Grade(125)]);
    assert_eq!(get_grade(&table, EdgeId(1)).unwrap(), Grade(125));
    assert!(get_grade(&table, EdgeId(2)).is_err());
}

#[test]
fn headings_lookup_and_angle() {
    let table = vec![
        EdgeHeading { start_heading: 0, end_heading: 90 },
        EdgeHeading { start_heading: 180, end_heading: 350 },
    ];
    assert_eq!(get_headings(&table, EdgeId(1)).unwrap().start_heading, 180);
    assert!(get_headings(&table, EdgeId(2)).is_err());
    let a = EdgeHeading { start_heading: 0, end_heading: 90 };
    let b = EdgeHeading { start_heading: 180, end_heading: 0 };
    assert_eq!(compute_headings_angle(a, b), 90);
    let c = EdgeHeading { start_heading: 0, end_heading: 10 };
    let d = EdgeHeading { start_heading: 350, end_heading: 0 };
    assert_eq!(compute_headings_angle(c, d), -20);
}

#[test]
fn energy_model_adds_time_and_energy() {
    let engine = SpeedTraversalEngine::new(
        vec![Speed(10_000)],
        SpeedUnit::KilometersPerHour,
        Some(DistanceUnit::Kilometers),
        Some(TimeUnit::Seconds),
    )
    .unwrap();
    let model = SpeedGradeEnergyModel::new(
        engine,
        vec![EnergyRate(100_000)], // 100 Wh per km
        EnergyRateUnit::WattHoursPerKilometer,
        EnergyUnit::WattHours,
    )
    .unwrap();
    let sm = StateModel::empty()
        .extend(vec![
            (
                String::from("time"),
                StateFeature::Time { time_unit: TimeUnit::Seconds, initial: Time(0) },
            ),
            (
                String::from("energy"),
                StateFeature::Energy { energy_unit: EnergyUnit::WattHours, initial: Energy(0) },
            ),
        ])
        .unwrap();
    let mut state = sm.initial_state().unwrap();
    let v = mock_vertex();
    let mut e = mock_edge(0);
    e.distance = Distance(10_000); // 10 meters
    model.traverse_edge((&v, &e, &v), &mut state, &sm).unwrap();
    // 10 m @ 10 kph = 3.6 s; 100 Wh/km * 0.01 km = 1 Wh
    assert_eq!(state[0].0, 3600);
    assert_eq!(state[1].0, 1000);
}

#[test]
fn state_model_rejects_out_of_range_accumulation() {
    let sm = StateModel::empty()
        .extend(vec![(
            String::from("distance"),
            StateFeature::Distance {
                distance_unit: DistanceUnit::Meters,
                initial: Distance(i64::MAX as u64),
            },
        )])
        .unwrap();
    let mut state = sm.initial_state().unwrap();
    let err = sm
        .add_distance(&mut state, &String::from("distance"), &Distance(1), &DistanceUnit::Meters)
        .unwrap_err();
    assert_eq!(err.kind, StateErrorKind::ValueOutOfRange);
    // the failed addition left the state untouched
    assert_eq!(state[0].0, i64::MAX);
}

#[test]
fn combined_model_applies_children_in_order() {
    let distance = DistanceModel::new(Some(DistanceUnit::Kilometers));
    let engine = SpeedTraversalEngine::new(
        vec![Speed(10_000)],
        SpeedUnit::KilometersPerHour,
        None,
        Some(TimeUnit::Seconds),
    )
    .unwrap();
    let speed = SpeedTraversalModel::new(engine);
    let combined = CombinedTraversalModel { first: distance, second: speed };
    let sm = StateModel::empty()
        .extend(combined.state_features())
        .unwrap()
        .extend(vec![(
            String::from("time"),
            StateFeature::Time { time_unit: TimeUnit::Seconds, initial: Time(0) },
        )])
        .unwrap();
    let mut state = sm.initial_state().unwrap();
    let v = mock_vertex();
    let e = mock_edge(0);
    combined.traverse_edge((&v, &e, &v), &mut state, &sm).unwrap();
    // both contributions land on one state vector: 0.1 km and 36 s
    assert_eq!(state[0].0, 100); // milli-km
    assert_eq!(state[1].0, 36_000); // milli-seconds
}
