//! Round trips through a set of points.
use crate::codec::interleave;
use crate::errors::{Issue, OsrmError};
use crate::options::{encode_points, points_issue};
use crate::point::{lon_lat_of, Point};
use crate::route::Route;
use crate::scalar::Scalar;
use crate::waypoints::Waypoint;
use vstd::prelude::*;

verus! {

/// A trip query visiting the given points.
#[derive(Clone, Debug)]
pub struct TripRequest {
    pub points: Vec<Point>,
    pub bearings: Option<Vec<Option<(i16, i16)>>>,
    pub radiuses: Option<Vec<Option<Scalar>>>,
    pub hints: Option<Vec<Option<String>>>,
    pub generate_hints: bool,
    pub approaches: Option<Vec<Option<String>>>,
    pub snapping: Option<String>,
    pub roundtrip: bool,
    pub source: Option<String>,
    pub destination: Option<String>,
    pub steps: bool,
    pub annotations: Option<Vec<String>>,
    pub geometries: Option<String>,
    pub overview: Option<String>,
    pub exclude: Option<Vec<String>>,
}

/// The arguments of the native trip call, which takes the coordinates alone.
#[derive(Clone, Debug)]
pub struct TripCall {
    /// `[lon0, lat0, lon1, lat1, ...]`.
    pub coordinates: Vec<Scalar>,
}

/// Why a trip query is rejected before it reaches the engine, if it is.
pub open spec fn trip_issue(req: TripRequest) -> Option<Issue> {
    points_issue(req.points@, req.bearings, req.radiuses, req.hints, req.approaches)
}

impl TripRequest {
    /// A trip query through the given points with every option at its default:
    /// hints generated, a round trip, no steps or annotations.
    pub fn new(points: Vec<Point>) -> (r: TripRequest)
        ensures
            r.points == points,
            r.bearings is None && r.radiuses is None && r.hints is None && r.approaches is None,
            r.generate_hints && r.roundtrip && !r.steps,
            r.snapping is None && r.source is None && r.destination is None,
            r.annotations is None && r.geometries is None && r.overview is None,
            r.exclude is None,
    {
        TripRequest {
            points,
            bearings: None,
            radiuses: None,
            hints: None,
            generate_hints: true,
            approaches: None,
            snapping: None,
            roundtrip: true,
            source: None,
            destination: None,
            steps: false,
            annotations: None,
            geometries: None,
            overview: None,
            exclude: None,
        }
    }

    /// Validates the query and builds the arguments of the native trip call.
    pub fn prepare(&self) -> (r: Result<TripCall, OsrmError>)
        ensures
            match r {
                Ok(call) => trip_issue(*self) is None && call.coordinates@ == interleave(
                    lon_lat_of(self.points@),
                ),
                Err(e) => trip_issue(*self) is Some && e == OsrmError::InvalidArgument(
                    trip_issue(*self)->0,
                ),
            },
    {
        match encode_points(&self.points, &self.bearings, &self.radiuses, &self.hints, &self.approaches) {
            Ok((coordinates, _)) => Ok(TripCall { coordinates }),
            Err(issue) => Err(OsrmError::InvalidArgument(issue)),
        }
    }
}

/// The reply to a trip query.
#[derive(Debug)]
pub struct TripResponse {
    pub code: String,
    pub trips: Vec<Route>,
    pub waypoints: Vec<Waypoint>,
}

} // verus!
