use osrm_parser::backend::{
    Annotation, OsrmRoute, OsrmRouteStep, OsrmWaypoint, RouteLeg, RouteResponse, StepManeuver,
    ViaWaypoint, VoiceInstruction,
};
use osrm_parser::geometry::{decode_geometry, get_coordinates_from_geometry, with_bounds};
use osrm_parser::models::{
    AnnotationValue, BoundingBox, GeographicCoordinate, Incident, IncidentType, ParsingError,
    Route, RouteStep, WaypointKind,
};
use osrm_parser::parser::{parse_with, OsrmResponseParser};
use osrm_parser::route::{classify_waypoints, passes_through, steps_of_legs, waypoint_kind};
use osrm_parser::scalar::Double;
use osrm_parser::steps::steps_of_leg;
use osrm_parser::utterance::UtteranceIdSource;

fn double(x: f64) -> Double {
    Double::from_bits(x.to_bits())
}

fn doubles(values: &[f64]) -> Vec<Double> {
    values.iter().map(|x| double(*x)).collect()
}

fn position(lat: f64, lng: f64) -> GeographicCoordinate {
    GeographicCoordinate { lat: double(lat), lng: double(lng) }
}

/// An encoded polyline of `count` coordinates at precision 6.
fn line(count: usize) -> String {
    let coordinates =
        (0..count).map(|i| geo::Coord { x: 13.0 + i as f64 * 0.001, y: 52.0 + i as f64 * 0.002 });
    polyline::encode_coordinates(coordinates, 6).expect("coordinates in range")
}

fn voice(text: &str) -> VoiceInstruction {
    VoiceInstruction {
        announcement: text.to_string(),
        ssml_announcement: None,
        distance_along_geometry: double(50.0),
    }
}

fn step(geometry: String, name: &str, voices: usize) -> OsrmRouteStep {
    OsrmRouteStep {
        geometry,
        maneuver: StepManeuver {
            instruction: Some(format!("Follow {}", name)),
            maneuver_type: None,
            modifier: None,
            location: position(52.0, 13.0),
        },
        banner_instructions: vec![],
        voice_instructions: (0..voices).map(|_| voice(name)).collect(),
        distance: double(120.5),
        duration: double(60.25),
        name: Some(name.to_string()),
    }
}

fn distances(values: &[f64]) -> Annotation {
    Annotation { distance: doubles(values), duration: vec![], speed: vec![], maxspeed: vec![] }
}

fn record(distance: f64) -> AnnotationValue {
    AnnotationValue { distance: Some(double(distance)), duration: None, speed: None, max_speed: None }
}

fn incident(id: &str, start: u64, end: Option<u64>) -> Incident {
    Incident {
        id: id.to_string(),
        incident_type: IncidentType::Accident,
        description: None,
        impact: None,
        closed: None,
        geometry_index_start: start,
        geometry_index_end: end,
    }
}

fn leg(steps: Vec<OsrmRouteStep>, annotation: Option<Annotation>) -> RouteLeg {
    RouteLeg { steps, annotation, incidents: vec![], via_waypoints: vec![] }
}

fn waypoint(lat: f64, lng: f64) -> OsrmWaypoint {
    OsrmWaypoint { name: None, location: position(lat, lng), distance: None }
}

fn route(legs: Vec<RouteLeg>) -> OsrmRoute {
    OsrmRoute { legs, geometry: line(6), distance: double(1886.25), duration: double(260.5) }
}

fn invalid_geometry(text: &str) -> ParsingError {
    ParsingError::InvalidGeometry { error: text.to_string() }
}

#[test]
fn each_step_gets_the_annotations_of_its_window() {
    let steps = vec![step(line(3), "a", 0), step(line(4), "b", 0), step(line(1), "c", 0)];
    let leg = leg(steps, Some(distances(&[0.0, 1.0, 2.0, 3.0, 4.0])));
    let mut ids = UtteranceIdSource::Random;
    let steps = steps_of_leg(&leg, 6, &mut ids).expect("steps");
    assert_eq!(steps.len(), 3);
    assert_eq!(steps[0].geometry.len(), 3);
    assert_eq!(steps[0].annotations, Some(vec![record(0.0), record(1.0)]));
    assert_eq!(steps[1].geometry.len(), 4);
    assert_eq!(steps[1].annotations, Some(vec![record(2.0), record(3.0), record(4.0)]));
    assert_eq!(steps[2].geometry.len(), 1);
    assert_eq!(steps[2].annotations, None);
    let on_steps: Vec<AnnotationValue> =
        steps.iter().flat_map(|step| step.annotations.clone().unwrap_or_default()).collect();
    assert_eq!(on_steps, (0..5).map(|i| record(i as f64)).collect::<Vec<_>>());
    let spans: usize = steps.iter().map(|step| step.geometry.len() - 1).sum();
    assert_eq!(spans, 5);
}

#[test]
fn an_arrival_step_of_two_coordinates_is_beyond_the_records() {
    let steps = vec![step(line(3), "a", 0), step(line(2), "arrive", 0)];
    let leg = leg(steps, Some(distances(&[0.0, 1.0])));
    let steps = steps_of_leg(&leg, 6, &mut UtteranceIdSource::Random).expect("steps");
    assert_eq!(steps[0].annotations, Some(vec![record(0.0), record(1.0)]));
    assert_eq!(steps[1].annotations, None);
}

#[test]
fn a_leg_without_annotation_has_steps_without_annotations() {
    let leg = leg(vec![step(line(3), "a", 0), step(line(2), "b", 0)], None);
    let steps = steps_of_leg(&leg, 6, &mut UtteranceIdSource::Random).expect("steps");
    assert!(steps.iter().all(|step| step.annotations.is_none()));
}

#[test]
fn a_step_carries_the_backends_values() {
    let leg = leg(vec![step(line(3), "Main Street", 1)], None);
    let mut ids = UtteranceIdSource::Sequential { next: 40 };
    let steps = steps_of_leg(&leg, 6, &mut ids).expect("steps");
    let first = &steps[0];
    assert_eq!(first.distance, double(120.5));
    assert_eq!(first.duration, double(60.25));
    assert_eq!(first.road_name, Some("Main Street".to_string()));
    assert_eq!(first.instruction, "Follow Main Street");
    assert_eq!(first.geometry, get_coordinates_from_geometry(&line(3), 6).expect("coordinates"));
    assert_eq!(first.spoken_instructions[0].utterance_id, 40);
    assert!(first.visual_instructions.is_empty());
}

#[test]
fn a_maneuver_without_wording_gives_an_empty_instruction() {
    let mut silent = step(line(2), "a", 0);
    silent.maneuver.instruction = None;
    silent.name = None;
    assert_eq!(silent.maneuver.get_instruction(), "");
    let steps = steps_of_leg(&leg(vec![silent], None), 6, &mut UtteranceIdSource::Random)
        .expect("steps");
    assert_eq!(steps[0].instruction, "");
    assert_eq!(steps[0].road_name, None);
}

#[test]
fn the_fold_step_gives_the_next_cursor() {
    let records = Some(vec![record(0.0), record(1.0), record(2.0), record(3.0)]);
    let incidents = vec![incident("inside", 2, Some(3)), incident("outside", 0, Some(1))];
    let mut ids = UtteranceIdSource::Sequential { next: 0 };
    let (built, next) =
        RouteStep::from_osrm_at(&step(line(3), "a", 2), 1, &records, &incidents, 6, &mut ids)
            .expect("a step");
    assert_eq!(next, 3);
    assert_eq!(built.annotations, Some(vec![record(1.0), record(2.0)]));
    assert_eq!(built.incidents, vec![incident("inside", 1, Some(2))]);
    assert_eq!(ids, UtteranceIdSource::Sequential { next: 2 });
    let (arrival, after) =
        RouteStep::from_osrm_at(&step(line(1), "b", 0), next, &records, &incidents, 6, &mut ids)
            .expect("a step");
    assert_eq!(after, 3);
    assert_eq!(arrival.annotations, None);
    assert_eq!(arrival.incidents, vec![]);
}

#[test]
fn a_step_is_built_from_its_parts() {
    let geometry = vec![position(1.0, 2.0), position(3.0, 4.0)];
    let mut ids = UtteranceIdSource::Sequential { next: 9 };
    let built = RouteStep::from_osrm_and_geom(
        &step(line(5), "a", 1),
        geometry.clone(),
        Some(vec![record(7.0)]),
        vec![incident("i", 0, None)],
        &mut ids,
    );
    assert_eq!(built.geometry, geometry);
    assert_eq!(built.annotations, Some(vec![record(7.0)]));
    assert_eq!(built.incidents, vec![incident("i", 0, None)]);
    assert_eq!(built.spoken_instructions.len(), 1);
    assert_eq!(built.spoken_instructions[0].utterance_id, 9);
    assert_eq!(built.spoken_instructions[0].text, "a");
}

#[test]
fn incidents_are_clipped_to_each_step() {
    let mut leg = leg(vec![step(line(4), "a", 0), step(line(3), "b", 0)], None);
    leg.incidents = vec![
        incident("on a", 1, Some(2)),
        incident("on b", 3, Some(5)),
        incident("across", 2, Some(4)),
        incident("at the joint", 3, None),
    ];
    let steps = steps_of_leg(&leg, 6, &mut UtteranceIdSource::Random).expect("steps");
    assert_eq!(
        steps[0].incidents,
        vec![incident("on a", 1, Some(2)), incident("at the joint", 3, None)]
    );
    assert_eq!(
        steps[1].incidents,
        vec![incident("on b", 0, Some(2)), incident("at the joint", 0, None)]
    );
    for step in &steps {
        let span = (step.geometry.len() - 1) as u64;
        for incident in &step.incidents {
            assert!(incident.geometry_index_start <= span);
            if let Some(end) = incident.geometry_index_end {
                assert!(end <= span);
            }
        }
    }
}

#[test]
fn the_cursor_starts_anew_in_every_leg() {
    let first = leg(vec![step(line(3), "a", 1)], Some(distances(&[0.0, 1.0])));
    let second = leg(vec![step(line(2), "b", 2)], Some(distances(&[10.0])));
    let mut ids = UtteranceIdSource::Sequential { next: 100 };
    let steps = steps_of_legs(&vec![first, second], 6, &mut ids).expect("steps");
    assert_eq!(steps.len(), 2);
    assert_eq!(steps[0].annotations, Some(vec![record(0.0), record(1.0)]));
    assert_eq!(steps[1].annotations, Some(vec![record(10.0)]));
    let drawn: Vec<u128> = steps
        .iter()
        .flat_map(|step| step.spoken_instructions.iter().map(|spoken| spoken.utterance_id))
        .collect();
    assert_eq!(drawn, vec![100, 101, 102]);
    assert_eq!(ids, UtteranceIdSource::Sequential { next: 103 });
}

#[test]
fn a_waypoint_is_via_exactly_if_a_leg_lists_its_index() {
    let via = |index: usize| ViaWaypoint {
        waypoint_index: index,
        distance_from_start: double(30.0),
        geometry_index: 2,
    };
    let mut first = leg(vec![], None);
    first.via_waypoints = vec![via(1)];
    let mut second = leg(vec![], None);
    second.via_waypoints = vec![via(3), via(1)];
    let legs = vec![first, second];
    assert!(passes_through(&legs[0], 1));
    assert!(!passes_through(&legs[0], 3));
    assert!(passes_through(&legs[1], 3));
    let kinds: Vec<WaypointKind> = (0..5).map(|index| waypoint_kind(&legs, index)).collect();
    assert_eq!(
        kinds,
        vec![
            WaypointKind::Break,
            WaypointKind::Via,
            WaypointKind::Break,
            WaypointKind::Via,
            WaypointKind::Break
        ]
    );
    let waypoints: Vec<OsrmWaypoint> = (0..4).map(|i| waypoint(50.0 + i as f64, 8.0)).collect();
    let classified = classify_waypoints(&waypoints, &legs);
    assert_eq!(classified.len(), 4);
    assert_eq!(classified[1].kind, WaypointKind::Via);
    assert_eq!(classified[2].kind, WaypointKind::Break);
    assert_eq!(classified[3].kind, WaypointKind::Via);
    assert_eq!(classified[3].coordinate, position(53.0, 8.0));
    assert!(classify_waypoints(&waypoints, &Vec::new())
        .iter()
        .all(|waypoint| waypoint.kind == WaypointKind::Break));
}

#[test]
fn a_route_is_assembled_from_its_parts() {
    let input = route(vec![
        leg(vec![step(line(3), "a", 1), step(line(1), "b", 0)], Some(distances(&[0.5, 1.5]))),
        leg(vec![step(line(2), "c", 1)], None),
    ]);
    let waypoints = vec![waypoint(52.0, 13.0), waypoint(52.01, 13.005)];
    let mut ids = UtteranceIdSource::Sequential { next: 1 };
    let assembled = Route::from_osrm(&input, &waypoints, 6, &mut ids).expect("a route");
    let (geometry, bbox) = decode_geometry(&line(6), 6).expect("geometry");
    assert_eq!(assembled.geometry, geometry);
    assert_eq!(assembled.geometry.len(), 6);
    assert_eq!(assembled.bbox, bbox);
    assert_eq!(assembled.bbox, BoundingBox { sw: position(52.0, 13.0), ne: position(52.01, 13.005) });
    assert_eq!(assembled.distance, double(1886.25));
    assert_eq!(assembled.duration, double(260.5));
    assert_eq!(assembled.waypoints.len(), 2);
    assert_eq!(assembled.steps.len(), 3);
    assert_eq!(assembled.steps[0].annotations, Some(vec![record(0.5), record(1.5)]));
    assert_eq!(assembled.steps[1].annotations, None);
    assert_eq!(assembled.steps[2].annotations, None);
    assert_eq!(assembled.steps[2].spoken_instructions[0].utterance_id, 2);
    assert_eq!(ids, UtteranceIdSource::Sequential { next: 3 });
}

#[test]
fn an_undecodable_route_geometry_is_an_error() {
    let mut input = route(vec![]);
    input.geometry = "invalid_polyline_that_should_be_handled_gracefully".to_string();
    let mut ids = UtteranceIdSource::Sequential { next: 5 };
    assert_eq!(
        Route::from_osrm(&input, &[], 5, &mut ids),
        Err(invalid_geometry("cannot decode character at index 12"))
    );
    input.geometry = "ugh_ugh".to_string();
    assert_eq!(
        Route::from_osrm(&input, &[], 5, &mut ids),
        Err(invalid_geometry("latitude out of bounds: 49775.95019 at position 0"))
    );
    input.geometry = "_ibE_seK_seK".to_string();
    assert_eq!(
        Route::from_osrm(&input, &[], 5, &mut ids),
        Err(invalid_geometry("no longitude to go with latitude at index: 8"))
    );
    assert_eq!(ids, UtteranceIdSource::Sequential { next: 5 });
}

#[test]
fn an_empty_geometry_is_an_error() {
    let mut input = route(vec![]);
    input.geometry = String::new();
    assert_eq!(
        Route::from_osrm(&input, &[], 6, &mut UtteranceIdSource::Random),
        Err(invalid_geometry("Bounding box could not be calculated"))
    );
    assert_eq!(
        get_coordinates_from_geometry("", 6),
        Err(invalid_geometry("Bounding box could not be calculated"))
    );
    assert_eq!(
        with_bounds(vec![], None),
        Err(invalid_geometry("Bounding box could not be calculated"))
    );
    let bbox = BoundingBox { sw: position(1.0, 2.0), ne: position(3.0, 4.0) };
    assert_eq!(
        with_bounds(vec![position(1.0, 2.0)], Some(bbox)),
        Ok((vec![position(1.0, 2.0)], bbox))
    );
}

#[test]
fn a_precision_out_of_range_is_an_error() {
    assert_eq!(
        decode_geometry(&line(2), 10),
        Err(invalid_geometry("Polyline precision is out of range"))
    );
    assert_eq!(
        decode_geometry(&line(2), u32::MAX),
        Err(invalid_geometry("Polyline precision is out of range"))
    );
    assert!(decode_geometry("??", 9).is_ok());
    assert!(decode_geometry("??", 0).is_ok());
}

#[test]
fn a_failing_step_fails_the_route_and_draws_no_identifier() {
    let input = route(vec![
        leg(vec![step(line(2), "a", 2)], None),
        leg(vec![step(line(2), "b", 1), step(String::new(), "c", 1)], None),
    ]);
    let mut ids = UtteranceIdSource::Sequential { next: 11 };
    assert_eq!(
        Route::from_osrm(&input, &[], 6, &mut ids),
        Err(invalid_geometry("Bounding box could not be calculated"))
    );
    assert_eq!(ids, UtteranceIdSource::Sequential { next: 11 });
    assert_eq!(
        steps_of_leg(&input.legs[1], 6, &mut ids),
        Err(invalid_geometry("Bounding box could not be calculated"))
    );
    assert_eq!(ids, UtteranceIdSource::Sequential { next: 11 });
}

#[test]
fn every_route_of_a_successful_response_is_returned_in_order() {
    let mut first = route(vec![leg(vec![step(line(2), "a", 1)], None)]);
    first.distance = double(1.0);
    let mut second = route(vec![]);
    second.distance = double(2.0);
    let mut third = route(vec![leg(vec![step(line(2), "c", 1)], None)]);
    third.distance = double(3.0);
    let response = RouteResponse {
        code: "Ok".to_string(),
        routes: vec![first, second, third],
        waypoints: vec![waypoint(52.0, 13.0)],
    };
    let parser = OsrmResponseParser::with_utterance_ids(6, UtteranceIdSource::Sequential { next: 0 });
    let routes = parser.parse_response(&response).expect("routes");
    assert_eq!(routes.len(), 3);
    let distances: Vec<Double> = routes.iter().map(|route| route.distance).collect();
    assert_eq!(distances, vec![double(1.0), double(2.0), double(3.0)]);
    assert_eq!(routes[0].steps[0].spoken_instructions[0].utterance_id, 0);
    assert_eq!(routes[2].steps[0].spoken_instructions[0].utterance_id, 1);
    assert_eq!(parser.parse_response(&response), Ok(routes));
    assert_eq!(parser.polyline_precision(), 6);
}

#[test]
fn a_response_without_routes_parses_to_none() {
    let response = RouteResponse { code: "Ok".to_string(), routes: vec![], waypoints: vec![] };
    assert_eq!(OsrmResponseParser::new(5).parse_response(&response), Ok(vec![]));
}

#[test]
fn another_status_code_is_carried_in_the_error() {
    let mut response = RouteResponse {
        code: "NoRoute".to_string(),
        routes: vec![route(vec![])],
        waypoints: vec![],
    };
    let parser = OsrmResponseParser::new(6);
    assert_eq!(
        parser.parse_response(&response),
        Err(ParsingError::InvalidStatusCode { code: "NoRoute".to_string() })
    );
    for code in ["", "ok", "OK", "Ok ", "InvalidValue"] {
        response.code = code.to_string();
        let error = parser.parse_response(&response).expect_err("no success");
        assert_eq!(error, ParsingError::InvalidStatusCode { code: code.to_string() });
        assert_eq!(error.message(), code);
    }
    response.routes[0].geometry = "invalid".to_string();
    response.code = "NoSegment".to_string();
    assert_eq!(
        parser.parse_response(&response),
        Err(ParsingError::InvalidStatusCode { code: "NoSegment".to_string() })
    );
}

#[test]
fn one_bad_route_fails_the_whole_response() {
    let mut bad = route(vec![]);
    bad.geometry = String::new();
    let response = RouteResponse {
        code: "Ok".to_string(),
        routes: vec![route(vec![leg(vec![step(line(2), "a", 3)], None)]), bad, route(vec![])],
        waypoints: vec![],
    };
    let mut ids = UtteranceIdSource::Sequential { next: 20 };
    let error = parse_with(&response, 6, &mut ids).expect_err("no routes");
    assert_eq!(error, invalid_geometry("Bounding box could not be calculated"));
    assert_eq!(error.message(), "Bounding box could not be calculated");
    assert_eq!(ids, UtteranceIdSource::Sequential { next: 20 });
}

#[test]
fn parsing_draws_from_the_given_source() {
    let response = RouteResponse {
        code: "Ok".to_string(),
        routes: vec![route(vec![leg(vec![step(line(2), "a", 2), step(line(2), "b", 1)], None)])],
        waypoints: vec![],
    };
    let mut ids = UtteranceIdSource::Sequential { next: u128::MAX - 1 };
    let routes = parse_with(&response, 6, &mut ids).expect("routes");
    let drawn: Vec<u128> = routes[0]
        .steps
        .iter()
        .flat_map(|step| step.spoken_instructions.iter().map(|spoken| spoken.utterance_id))
        .collect();
    assert_eq!(drawn, vec![u128::MAX - 1, u128::MAX, 0]);
    assert_eq!(ids, UtteranceIdSource::Sequential { next: 1 });
}
