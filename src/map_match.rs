//! Matching GPS traces to the road network.
use crate::codec::{copy_list, encode_optional_text, interleave, list_view, optional_text, text_of};
use crate::errors::{Issue, OsrmError};
use crate::geometry::Geometry;
use crate::route::Leg;
use crate::options::{encode_points, options_encoded, points_issue, EncodedOptions};
use crate::point::{lon_lat_of, Point};
use crate::scalar::Scalar;
use crate::waypoints::Waypoint;
use vstd::prelude::*;

verus! {

/// A map-matching query over a GPS trace.
#[derive(Clone, Debug)]
pub struct MatchRequest {
    /// The trace, in order.
    pub points: Vec<Point>,
    /// One UNIX-like timestamp in seconds per point. The engine, not this
    /// library, checks that there is one per point.
    pub timestamps: Option<Vec<u32>>,
    /// Standard deviation of the GPS precision per point, in meters.
    pub radiuses: Option<Vec<Option<Scalar>>>,
    pub bearings: Option<Vec<Option<(i16, i16)>>>,
    pub hints: Option<Vec<Option<String>>>,
    pub generate_hints: bool,
    pub approaches: Option<Vec<Option<String>>>,
    /// `"split"` or `"ignore"`.
    pub gaps: Option<String>,
    pub tidy: bool,
    /// Indices of the points treated as waypoints; the engine requires the
    /// first and the last.
    pub waypoints: Option<Vec<usize>>,
    pub snapping: Option<String>,
    pub steps: bool,
    pub annotations: Option<Vec<String>>,
    pub geometries: Option<String>,
    pub overview: Option<String>,
    pub exclude: Option<Vec<String>>,
}

/// The arguments of the native map-matching call.
#[derive(Clone, Debug)]
pub struct MatchCall {
    /// `[lon0, lat0, lon1, lat1, ...]`.
    pub coordinates: Vec<Scalar>,
    pub timestamps: Option<Vec<u32>>,
    pub options: EncodedOptions,
    pub generate_hints: bool,
    pub gaps: Option<String>,
    pub tidy: bool,
    pub waypoints: Option<Vec<usize>>,
    pub snapping: Option<String>,
}

/// Why a map-matching query is rejected before it reaches the engine, if it
/// is. Timestamps and waypoints are left to the engine.
pub open spec fn match_issue(req: MatchRequest) -> Option<Issue> {
    points_issue(req.points@, req.bearings, req.radiuses, req.hints, req.approaches)
}

/// `call` carries exactly what the map-matching query asks for.
pub open spec fn match_call_of(req: MatchRequest, call: MatchCall) -> bool {
    &&& call.coordinates@ == interleave(lon_lat_of(req.points@))
    &&& list_view(call.timestamps) == list_view(req.timestamps)
    &&& options_encoded(req.bearings, req.radiuses, req.hints, req.approaches, call.options)
    &&& call.generate_hints == req.generate_hints
    &&& text_of(call.gaps) == optional_text(req.gaps)
    &&& call.tidy == req.tidy
    &&& list_view(call.waypoints) == list_view(req.waypoints)
    &&& text_of(call.snapping) == optional_text(req.snapping)
}

impl MatchRequest {
    /// A map-matching query over the given trace with every option at its
    /// default: no timestamps or per-point constraints, hints generated.
    pub fn new(points: Vec<Point>) -> (r: MatchRequest)
        ensures
            r.points == points,
            r.timestamps is None && r.radiuses is None && r.bearings is None,
            r.hints is None && r.approaches is None && r.gaps is None && r.waypoints is None,
            r.generate_hints && !r.tidy && !r.steps,
            r.snapping is None && r.annotations is None && r.geometries is None,
            r.overview is None && r.exclude is None,
    {
        MatchRequest {
            points,
            timestamps: None,
            radiuses: None,
            bearings: None,
            hints: None,
            generate_hints: true,
            approaches: None,
            gaps: None,
            tidy: false,
            waypoints: None,
            snapping: None,
            steps: false,
            annotations: None,
            geometries: None,
            overview: None,
            exclude: None,
        }
    }

    /// Validates the query and builds the arguments of the native
    /// map-matching call.
    pub fn prepare(&self) -> (r: Result<MatchCall, OsrmError>)
        ensures
            match r {
                Ok(call) => match_issue(*self) is None && match_call_of(*self, call),
                Err(e) => match_issue(*self) is Some && e == OsrmError::InvalidArgument(
                    match_issue(*self)->0,
                ),
            },
    {
        match encode_points(&self.points, &self.bearings, &self.radiuses, &self.hints, &self.approaches) {
            Ok((coordinates, options)) => Ok(MatchCall {
                coordinates,
                timestamps: copy_list(&self.timestamps),
                options,
                generate_hints: self.generate_hints,
                gaps: encode_optional_text(&self.gaps),
                tidy: self.tidy,
                waypoints: copy_list(&self.waypoints),
                snapping: encode_optional_text(&self.snapping),
            }),
            Err(issue) => Err(OsrmError::InvalidArgument(issue)),
        }
    }
}

/// A matched stretch of the trace, with the engine's confidence in it.
#[derive(Debug)]
pub struct Matching {
    pub legs: Vec<Leg>,
    pub weight_name: String,
    pub geometry: Geometry,
    pub weight: Scalar,
    /// Seconds.
    pub duration: Scalar,
    /// Meters.
    pub distance: Scalar,
    /// Between 0 and 1.
    pub confidence: Scalar,
}

/// The reply to a map-matching query.
#[derive(Debug)]
pub struct MatchResponse {
    pub code: String,
    pub matchings: Vec<Matching>,
    /// One entry per point of the trace; `None` where a point was not matched.
    pub tracepoints: Vec<Option<Waypoint>>,
}

} // verus!
