use osrm::errors::{Issue, OsrmError, PointOption};
use osrm::map_match::MatchRequest;
use osrm::nearest::{NearestRequest, NearestRequestBuilder};
use osrm::point::Point;
use osrm::route::RouteRequest;
use osrm::scalar::Scalar;
use osrm::tables::TableRequest;
use osrm::trip::TripRequest;

fn s(x: f64) -> Scalar {
    Scalar::from_bits(x.to_bits())
}

fn p(lon: f64, lat: f64) -> Point {
    Point::new(s(lon), s(lat))
}

fn luxembourg() -> Vec<(Scalar, Scalar)> {
    vec![
        (s(6.1319), s(49.6116)),
        (s(6.1063), s(49.7508)),
        (s(5.9675), s(49.5009)),
    ]
}

#[test]
fn table_without_indices_uses_every_point() {
    let call = TableRequest::new(luxembourg()).prepare().unwrap();
    assert_eq!(call.sources, vec![0, 1, 2]);
    assert_eq!(call.destinations, vec![0, 1, 2]);
}

#[test]
fn table_with_one_source_and_two_destinations() {
    let mut req = TableRequest::new(luxembourg());
    req.sources_indices = Some(vec![0]);
    req.destinations_indices = Some(vec![1, 2]);
    let call = req.prepare().unwrap();
    assert_eq!(call.sources, vec![0]);
    assert_eq!(call.destinations, vec![1, 2]);
    assert_eq!(call.coordinates.len(), 6);
    assert_eq!(call.coordinates[2], s(6.1063));
    assert!(call.include_duration && call.include_distance && call.generate_hints);
    assert_eq!(call.fallback_speed, s(-1.0));
    assert_eq!(call.scale_factor, s(-1.0));
    assert!(call.options.bearings.is_none() && call.options.radiuses.is_none());
}

#[test]
fn table_passes_explicit_fallbacks() {
    let mut req = TableRequest::new(luxembourg());
    req.fallback_speed = Some(s(13.9));
    req.scale_factor = Some(s(2.0));
    req.fallback_coordinate = Some("snapped".to_string());
    let call = req.prepare().unwrap();
    assert_eq!(call.fallback_speed, s(13.9));
    assert_eq!(call.scale_factor, s(2.0));
    assert_eq!(call.fallback_coordinate, Some("snapped".to_string()));
}

#[test]
fn table_without_coordinates_is_rejected() {
    let err = TableRequest::new(Vec::new()).prepare().unwrap_err();
    assert_eq!(err, OsrmError::InvalidArgument(Issue::NoCoordinates));
}

#[test]
fn table_index_out_of_range_is_rejected() {
    let mut req = TableRequest::new(luxembourg());
    req.sources_indices = Some(vec![0, 3]);
    assert_eq!(req.prepare().unwrap_err(), OsrmError::InvalidArgument(Issue::SourceOutOfRange));
    let mut req = TableRequest::new(luxembourg());
    req.destinations_indices = Some(vec![5]);
    assert_eq!(
        req.prepare().unwrap_err(),
        OsrmError::InvalidArgument(Issue::DestinationOutOfRange)
    );
}

#[test]
fn per_point_list_of_wrong_length_is_rejected() {
    let mut req = TableRequest::new(luxembourg());
    req.bearings = Some(vec![Some((90, 10)), None]);
    assert_eq!(
        req.prepare().unwrap_err(),
        OsrmError::InvalidArgument(Issue::LengthMismatch(PointOption::Bearings))
    );
    let mut req = TableRequest::new(luxembourg());
    req.radiuses = Some(vec![None, None, None, None]);
    assert_eq!(
        req.prepare().unwrap_err(),
        OsrmError::InvalidArgument(Issue::LengthMismatch(PointOption::Radiuses))
    );
    let mut req = RouteRequest::new(vec![p(6.1319, 49.6116), p(6.1063, 49.7508)]);
    req.hints = Some(vec![None]);
    assert_eq!(
        req.prepare().unwrap_err(),
        OsrmError::InvalidArgument(Issue::LengthMismatch(PointOption::Hints))
    );
    let mut req = RouteRequest::new(vec![p(6.1319, 49.6116), p(6.1063, 49.7508)]);
    req.approaches = Some(vec![None, None, None]);
    assert_eq!(
        req.prepare().unwrap_err(),
        OsrmError::InvalidArgument(Issue::LengthMismatch(PointOption::Approaches))
    );
}

#[test]
fn non_finite_coordinate_is_rejected() {
    let req = TableRequest::new(vec![(s(f64::NAN), s(49.6))]);
    assert_eq!(req.prepare().unwrap_err(), OsrmError::InvalidArgument(Issue::NonFiniteCoordinate));
    let req = RouteRequest::new(vec![p(6.1, f64::INFINITY)]);
    assert_eq!(req.prepare().unwrap_err(), OsrmError::InvalidArgument(Issue::NonFiniteCoordinate));
}

#[test]
fn route_between_two_points() {
    let req = RouteRequest::between(p(6.1319, 49.6116), p(6.1063, 49.7508));
    assert_eq!(req.points.len(), 2);
    assert!(req.generate_hints);
    let call = req.prepare().unwrap();
    assert_eq!(call.coordinates, vec![s(6.1319), s(49.6116), s(6.1063), s(49.7508)]);
    assert!(call.snapping.is_none());
}

#[test]
fn route_options_are_encoded_densely() {
    let mut req = RouteRequest::new(vec![p(6.1319, 49.6116), p(6.1063, 49.7508)]);
    req.bearings = Some(vec![None, Some((45, 20))]);
    req.radiuses = Some(vec![Some(s(30.0)), None]);
    req.hints = Some(vec![Some("h0".to_string()), None]);
    req.approaches = Some(vec![None, Some("curb".to_string())]);
    req.snapping = Some("any".to_string());
    let call = req.prepare().unwrap();
    assert_eq!(call.options.bearings, Some(vec![-1, -1, 45, 20]));
    assert_eq!(call.options.radiuses, Some(vec![s(30.0), s(-1.0)]));
    assert_eq!(call.options.hints, Some(vec!["h0".to_string(), String::new()]));
    assert_eq!(call.options.approaches, Some(vec![String::new(), "curb".to_string()]));
    assert_eq!(call.snapping, Some("any".to_string()));
}

#[test]
fn route_and_trip_without_points_are_rejected() {
    let err = RouteRequest::new(Vec::new()).prepare().unwrap_err();
    assert_eq!(err, OsrmError::InvalidArgument(Issue::NoCoordinates));
    let err = TripRequest::new(Vec::new()).prepare().unwrap_err();
    assert_eq!(err, OsrmError::InvalidArgument(Issue::NoCoordinates));
}

#[test]
fn trip_carries_the_coordinates() {
    let req = TripRequest::new(vec![p(6.1319, 49.6116), p(6.1063, 49.7508), p(5.9675, 49.5009)]);
    assert!(req.roundtrip);
    let call = req.prepare().unwrap();
    assert_eq!(call.coordinates.len(), 6);
    assert_eq!(call.coordinates[5], s(49.5009));
}

#[test]
fn match_with_fewer_timestamps_is_left_to_the_engine() {
    let mut req = MatchRequest::new(vec![p(6.1319, 49.6116), p(6.1063, 49.7508), p(5.9675, 49.5009)]);
    req.timestamps = Some(vec![1_700_000_000, 1_700_000_060]);
    req.waypoints = Some(vec![0, 2]);
    req.gaps = Some("ignore".to_string());
    req.tidy = true;
    let call = req.prepare().unwrap();
    assert_eq!(call.timestamps, Some(vec![1_700_000_000, 1_700_000_060]));
    assert_eq!(call.waypoints, Some(vec![0, 2]));
    assert_eq!(call.gaps, Some("ignore".to_string()));
    assert!(call.tidy);
}

#[test]
fn match_without_points_is_rejected() {
    let err = MatchRequest::new(Vec::new()).prepare().unwrap_err();
    assert_eq!(err, OsrmError::InvalidArgument(Issue::NoCoordinates));
}

#[test]
fn nearest_asks_for_the_requested_number() {
    let req = NearestRequestBuilder::new(p(6.1319, 49.6116)).number(3).build();
    let call = req.prepare().unwrap();
    assert_eq!(call.number, 3);
    assert_eq!(call.coordinates, vec![s(6.1319), s(49.6116)]);
}

#[test]
fn nearest_defaults_to_one_result() {
    let req = NearestRequest::new(p(6.1319, 49.6116));
    assert_eq!(req.number, Some(1));
    assert_eq!(req.prepare().unwrap().number, 1);
    let mut req = NearestRequest::new(p(6.1319, 49.6116));
    req.number = None;
    assert_eq!(req.prepare().unwrap().number, 1);
}

#[test]
fn nearest_builder_sets_each_option() {
    let req = NearestRequestBuilder::new(p(6.0, 49.0))
        .bearings(vec![Some((10, 5))])
        .radiuses(vec![None])
        .hints(vec![Some("h".to_string())])
        .generate_hints(false)
        .approaches(vec![Some("unrestricted".to_string())])
        .snapping("default".to_string())
        .build();
    assert_eq!(req.bearings, Some(vec![Some((10, 5))]));
    assert!(!req.generate_hints);
    let call = req.prepare().unwrap();
    assert_eq!(call.options.bearings, Some(vec![10, 5]));
    assert_eq!(call.options.radiuses, Some(vec![s(-1.0)]));
    assert!(!call.generate_hints);
    assert_eq!(call.snapping, Some("default".to_string()));
}

#[test]
fn nearest_options_must_have_one_entry() {
    let req = NearestRequestBuilder::new(p(6.0, 49.0)).bearings(vec![None, None]).build();
    assert_eq!(
        req.prepare().unwrap_err(),
        OsrmError::InvalidArgument(Issue::LengthMismatch(PointOption::Bearings))
    );
}
