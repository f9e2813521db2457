//! Point-to-point routes.
use crate::codec::{encode_optional_text, interleave, optional_text, text_of};
use crate::errors::{Issue, OsrmError};
use crate::geometry::Geometry;
use crate::options::{encode_points, options_encoded, points_issue, EncodedOptions};
use crate::point::{lon_lat_of, Point};
use crate::scalar::Scalar;
use crate::waypoints::Waypoint;
use vstd::prelude::*;

verus! {

/// A route query through the given points, in order.
#[derive(Clone, Debug)]
pub struct RouteRequest {
    pub points: Vec<Point>,
    pub bearings: Option<Vec<Option<(i16, i16)>>>,
    pub radiuses: Option<Vec<Option<Scalar>>>,
    pub hints: Option<Vec<Option<String>>>,
    pub generate_hints: bool,
    pub approaches: Option<Vec<Option<String>>>,
    pub snapping: Option<String>,
    pub steps: bool,
    pub alternatives: Option<i32>,
    pub annotations: Option<Vec<String>>,
    pub geometries: Option<String>,
    pub overview: Option<String>,
    pub continue_straight: bool,
    pub exclude: Option<Vec<String>>,
    pub waypoints: Option<Vec<usize>>,
    pub skip_waypoints: bool,
}

/// The arguments of the native route call.
#[derive(Clone, Debug)]
pub struct RouteCall {
    /// `[lon0, lat0, lon1, lat1, ...]`.
    pub coordinates: Vec<Scalar>,
    pub options: EncodedOptions,
    pub generate_hints: bool,
    pub snapping: Option<String>,
}

/// Why a route query is rejected before it reaches the engine, if it is.
pub open spec fn route_issue(req: RouteRequest) -> Option<Issue> {
    points_issue(req.points@, req.bearings, req.radiuses, req.hints, req.approaches)
}

/// `call` carries exactly what the route query asks for.
pub open spec fn route_call_of(req: RouteRequest, call: RouteCall) -> bool {
    &&& call.coordinates@ == interleave(lon_lat_of(req.points@))
    &&& options_encoded(req.bearings, req.radiuses, req.hints, req.approaches, call.options)
    &&& call.generate_hints == req.generate_hints
    &&& text_of(call.snapping) == optional_text(req.snapping)
}

/// A route query whose options are all at their defaults: no per-point
/// constraint, hints generated, no steps, alternatives or annotations.
pub open spec fn is_default_route(r: RouteRequest) -> bool {
    &&& r.bearings is None && r.radiuses is None && r.hints is None && r.approaches is None
    &&& r.generate_hints
    &&& r.snapping is None && !r.steps && r.alternatives is None && r.annotations is None
    &&& r.geometries is None && r.overview is None && !r.continue_straight
    &&& r.exclude is None && r.waypoints is None && !r.skip_waypoints
}

impl RouteRequest {
    /// A route query through the given points with every option at its default.
    pub fn new(points: Vec<Point>) -> (r: RouteRequest)
        ensures
            r.points == points,
            is_default_route(r),
    {
        RouteRequest {
            points,
            bearings: None,
            radiuses: None,
            hints: None,
            generate_hints: true,
            approaches: None,
            snapping: None,
            steps: false,
            alternatives: None,
            annotations: None,
            geometries: None,
            overview: None,
            continue_straight: false,
            exclude: None,
            waypoints: None,
            skip_waypoints: false,
        }
    }

    /// The default route query from one point to another.
    pub fn between(from: Point, to: Point) -> (r: RouteRequest)
        ensures
            r.points@ == seq![from, to],
            is_default_route(r),
    {
        let mut points: Vec<Point> = Vec::new();
        points.push(from);
        points.push(to);
        RouteRequest::new(points)
    }

    /// Validates the query and builds the arguments of the native route call.
    pub fn prepare(&self) -> (r: Result<RouteCall, OsrmError>)
        ensures
            match r {
                Ok(call) => route_issue(*self) is None && route_call_of(*self, call),
                Err(e) => route_issue(*self) is Some && e == OsrmError::InvalidArgument(
                    route_issue(*self)->0,
                ),
            },
    {
        match encode_points(&self.points, &self.bearings, &self.radiuses, &self.hints, &self.approaches) {
            Ok((coordinates, options)) => Ok(RouteCall {
                coordinates,
                options,
                generate_hints: self.generate_hints,
                snapping: encode_optional_text(&self.snapping),
            }),
            Err(issue) => Err(OsrmError::InvalidArgument(issue)),
        }
    }
}

/// The reply to a route query.
#[derive(Debug)]
pub struct RouteResponse {
    pub code: String,
    pub routes: Vec<Route>,
    /// Left out when the query skips waypoints.
    pub waypoints: Option<Vec<Waypoint>>,
}

/// A route reply whose waypoints are always present.
#[derive(Debug)]
pub struct OsrmResponse {
    pub code: String,
    pub routes: Vec<Route>,
    pub waypoints: Vec<Waypoint>,
}

/// One route candidate.
#[derive(Debug)]
pub struct Route {
    pub legs: Vec<Leg>,
    pub weight_name: String,
    pub geometry: Geometry,
    pub weight: Scalar,
    /// Seconds.
    pub duration: Scalar,
    /// Meters.
    pub distance: Scalar,
}

/// The part of a route between two consecutive waypoints.
#[derive(Debug)]
pub struct Leg {
    pub steps: Vec<Step>,
    pub weight: Scalar,
    pub summary: String,
    /// Seconds.
    pub duration: Scalar,
    /// Meters.
    pub distance: Scalar,
    pub annotation: Option<Annotation>,
}

/// Per-edge data of a leg; each list is there only when it was asked for.
#[derive(Clone, Debug)]
pub struct Annotation {
    pub duration: Option<Vec<Scalar>>,
    pub distance: Option<Vec<Scalar>>,
    pub speed: Option<Vec<Scalar>>,
    pub weight: Option<Vec<Scalar>>,
    pub datasources: Option<Vec<u32>>,
    /// Graph node identifiers, which may exceed 32 bits.
    pub nodes: Option<Vec<i64>>,
}

/// One maneuver of a leg.
#[derive(Debug)]
pub struct Step {
    pub distance: Option<Scalar>,
    pub duration: Option<Scalar>,
    pub geometry: Geometry,
    pub name: Option<String>,
    pub mode: Option<String>,
    pub maneuver: Option<serde_json::Value>,
    pub weight: Option<Scalar>,
}

/// Distance and duration of the best route between two points.
#[derive(Clone, Debug)]
pub struct SimpleRouteResponse {
    pub code: String,
    /// Seconds.
    pub durations: Scalar,
    /// Meters.
    pub distance: Scalar,
}

/// The reported condition when the engine returns no route.
pub open spec fn no_route_message() -> Seq<char> {
    "no route found"@
}

/// What a route reply stands for as a simple route: the first leg of the first
/// route, or the "no route" condition where there is none.
pub open spec fn simple_route_outcome(resp: RouteResponse, r: Result<SimpleRouteResponse, OsrmError>) -> bool {
    if resp.routes@.len() == 0 || resp.routes@[0].legs@.len() == 0 {
        r is Err && r->Err_0 is ApiError && r->Err_0->ApiError_0@ == no_route_message()
    } else {
        let leg = resp.routes@[0].legs@[0];
        r is Ok && r->Ok_0.code@ == resp.code@ && r->Ok_0.distance == leg.distance
            && r->Ok_0.durations == leg.duration
    }
}

impl SimpleRouteResponse {
    /// Projects a route reply onto the distance and duration of its first
    /// route's first leg.
    pub fn from_route_response(resp: &RouteResponse) -> (r: Result<SimpleRouteResponse, OsrmError>)
        ensures
            simple_route_outcome(*resp, r),
    {
        if resp.routes.len() == 0 || resp.routes[0].legs.len() == 0 {
            return Err(OsrmError::ApiError("no route found".to_owned()));
        }
        let leg = &resp.routes[0].legs[0];
        Ok(SimpleRouteResponse {
            code: resp.code.clone(),
            durations: leg.duration,
            distance: leg.distance,
        })
    }
}

} // verus!
