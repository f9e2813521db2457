use osrm::errors::{Capability, OsrmError};
use osrm::geometry::Geometry;
use osrm::reply::read_reply;
use osrm::route::{Leg, Route, RouteResponse, SimpleRouteResponse};
use osrm::scalar::Scalar;
use osrm::waypoints::{node_id_signed, node_id_unsigned, node_ids_signed, node_ids_unsigned, NodeNumber};

fn s(x: f64) -> Scalar {
    Scalar::from_bits(x.to_bits())
}

fn leg(distance: f64, duration: f64) -> Leg {
    Leg {
        steps: Vec::new(),
        weight: s(duration),
        summary: String::new(),
        duration: s(duration),
        distance: s(distance),
        annotation: None,
    }
}

fn route(legs: Vec<Leg>) -> Route {
    Route {
        legs,
        weight_name: "routability".to_string(),
        geometry: Geometry::Polyline("_p~iF~ps|U".to_string()),
        weight: s(1.0),
        duration: s(1.0),
        distance: s(1.0),
    }
}

#[test]
fn missing_or_empty_message_is_an_empty_result() {
    assert_eq!(read_reply(0, None), Err(OsrmError::EmptyResult));
    assert_eq!(read_reply(0, Some(String::new())), Err(OsrmError::EmptyResult));
    assert_eq!(read_reply(1, None), Err(OsrmError::EmptyResult));
}

#[test]
fn engine_failure_keeps_its_message() {
    let msg = "{\"code\":\"InvalidValue\",\"message\":\"Number of timestamps does not match\"}";
    assert_eq!(read_reply(1, Some(msg.to_string())), Err(OsrmError::EngineError(msg.to_string())));
    assert_eq!(read_reply(-3, Some("x".to_string())), Err(OsrmError::EngineError("x".to_string())));
}

#[test]
fn success_hands_back_the_payload() {
    assert_eq!(read_reply(0, Some("{\"code\":\"Ok\"}".to_string())), Ok("{\"code\":\"Ok\"}".to_string()));
}

#[test]
fn simple_route_without_routes_reports_no_route() {
    let resp = RouteResponse { code: "NoRoute".to_string(), routes: Vec::new(), waypoints: None };
    let err = SimpleRouteResponse::from_route_response(&resp).unwrap_err();
    assert_eq!(err, OsrmError::ApiError("no route found".to_string()));
    let resp = RouteResponse { code: "Ok".to_string(), routes: vec![route(Vec::new())], waypoints: None };
    assert!(matches!(SimpleRouteResponse::from_route_response(&resp), Err(OsrmError::ApiError(_))));
}

#[test]
fn simple_route_takes_the_first_leg_of_the_first_route() {
    let resp = RouteResponse {
        code: "Ok".to_string(),
        routes: vec![route(vec![leg(25812.4, 1602.3), leg(1.0, 2.0)]), route(vec![leg(9.0, 9.0)])],
        waypoints: None,
    };
    let simple = SimpleRouteResponse::from_route_response(&resp).unwrap();
    assert_eq!(simple.code, "Ok");
    assert_eq!(f64::from_bits(simple.distance.to_bits()), 25812.4);
    assert_eq!(f64::from_bits(simple.durations.to_bits()), 1602.3);
    assert!(simple.distance.is_positive() && simple.durations.is_positive());
}

#[test]
fn geometry_variants() {
    assert!(Geometry::Absent.is_absent());
    assert!(!Geometry::Polyline("abc".to_string()).is_absent());
    let object = serde_json::from_str::<serde_json::Value>("{\"type\":\"LineString\",\"coordinates\":[]}").unwrap();
    assert!(!Geometry::GeoJson(object).is_absent());
}

#[test]
fn node_ids_are_coerced_without_wrapping() {
    assert_eq!(node_id_signed(NodeNumber::Int(10985247230)), Some(10985247230));
    assert_eq!(node_id_signed(NodeNumber::UInt(u64::MAX)), None);
    assert_eq!(node_id_signed(NodeNumber::UInt(42)), Some(42));
    assert_eq!(node_id_signed(NodeNumber::Truncated(10985247230)), Some(10985247230));
    assert_eq!(node_id_signed(NodeNumber::Truncated(i128::MAX)), None);
    assert_eq!(node_id_unsigned(NodeNumber::Int(-1)), None);
    assert_eq!(node_id_unsigned(NodeNumber::Int(7)), Some(7));
    assert_eq!(node_id_unsigned(NodeNumber::UInt(u64::MAX)), Some(u64::MAX));
    assert_eq!(node_id_unsigned(NodeNumber::Truncated(-5)), None);
}

#[test]
fn node_id_lists_report_the_first_bad_entry() {
    let list = vec![NodeNumber::Int(1), NodeNumber::Truncated(2), NodeNumber::UInt(3)];
    assert_eq!(node_ids_signed(&list), Ok(vec![1, 2, 3]));
    assert_eq!(node_ids_unsigned(&list), Ok(vec![1, 2, 3]));
    let list = vec![NodeNumber::Int(1), NodeNumber::Int(-2), NodeNumber::UInt(u64::MAX)];
    assert_eq!(node_ids_unsigned(&list), Err(1));
    assert_eq!(node_ids_signed(&list), Err(2));
    assert_eq!(node_ids_signed(&Vec::new()), Ok(Vec::new()));
}

#[test]
fn capability_names() {
    assert_eq!(Capability::Table.name(), "table");
    assert_eq!(Capability::Route.name(), "route");
    assert_eq!(Capability::Trip.name(), "trip");
    assert_eq!(Capability::Match.name(), "match");
    assert_eq!(Capability::Nearest.name(), "nearest");
}
