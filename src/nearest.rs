//! Snapping a single coordinate to the nearest road segments.
use crate::codec::{encode_optional_text, interleave, optional_text, text_of};
use crate::errors::{Issue, OsrmError};
use crate::options::{encode_points, options_encoded, points_issue, EncodedOptions};
use crate::point::{lon_lat_of, Point};
use crate::scalar::Scalar;
use crate::waypoints::Waypoint;
use vstd::prelude::*;

verus! {

/// A nearest query: up to `number` snapped waypoints around one coordinate.
#[derive(Clone, Debug)]
pub struct NearestRequest {
    pub coordinate: Point,
    pub bearings: Option<Vec<Option<(i16, i16)>>>,
    pub radiuses: Option<Vec<Option<Scalar>>>,
    pub hints: Option<Vec<Option<String>>>,
    pub generate_hints: bool,
    /// How many waypoints to return; one where absent.
    pub number: Option<i32>,
    pub approaches: Option<Vec<Option<String>>>,
    pub snapping: Option<String>,
}

/// The arguments of the native nearest call.
#[derive(Clone, Debug)]
pub struct NearestCall {
    /// `[lon, lat]`.
    pub coordinates: Vec<Scalar>,
    pub options: EncodedOptions,
    pub generate_hints: bool,
    pub number: i32,
    pub snapping: Option<String>,
}

/// Why a nearest query is rejected before it reaches the engine, if it is:
/// its per-point options are checked against its single coordinate.
pub open spec fn nearest_issue(req: NearestRequest) -> Option<Issue> {
    points_issue(seq![req.coordinate], req.bearings, req.radiuses, req.hints, req.approaches)
}

/// `call` carries exactly what the nearest query asks for.
pub open spec fn nearest_call_of(req: NearestRequest, call: NearestCall) -> bool {
    &&& call.coordinates@ == seq![req.coordinate.longitude, req.coordinate.latitude]
    &&& options_encoded(req.bearings, req.radiuses, req.hints, req.approaches, call.options)
    &&& call.generate_hints == req.generate_hints
    &&& call.number == match req.number {
        Some(n) => n,
        None => 1i32,
    }
    &&& text_of(call.snapping) == optional_text(req.snapping)
}

/// A nearest query with every option at its default: no per-point
/// constraint, hints generated, one result.
pub open spec fn is_default_nearest(r: NearestRequest, coordinate: Point) -> bool {
    &&& r.coordinate == coordinate
    &&& r.bearings is None && r.radiuses is None && r.hints is None && r.approaches is None
    &&& r.generate_hints
    &&& r.number == Some(1i32)
    &&& r.snapping is None
}

impl NearestRequest {
    /// A nearest query around the coordinate with every option at its default.
    pub fn new(coordinate: Point) -> (r: Self)
        ensures
            is_default_nearest(r, coordinate),
    {
        Self {
            coordinate,
            bearings: None,
            radiuses: None,
            hints: None,
            generate_hints: true,
            number: Some(1),
            approaches: None,
            snapping: None,
        }
    }

    /// Validates the query and builds the arguments of the native nearest call.
    pub fn prepare(&self) -> (r: Result<NearestCall, OsrmError>)
        ensures
            match r {
                Ok(call) => nearest_issue(*self) is None && nearest_call_of(*self, call),
                Err(e) => nearest_issue(*self) is Some && e == OsrmError::InvalidArgument(
                    nearest_issue(*self)->0,
                ),
            },
    {
        let mut points: Vec<Point> = Vec::new();
        points.push(self.coordinate);
        assert(points@ =~= seq![self.coordinate]);
        match encode_points(&points, &self.bearings, &self.radiuses, &self.hints, &self.approaches) {
            Ok((coordinates, options)) => {
                assert(coordinates@ =~= seq![self.coordinate.longitude, self.coordinate.latitude]) by {
                    assert(lon_lat_of(points@)[0] == (self.coordinate.longitude, self.coordinate.latitude));
                    assert(interleave(lon_lat_of(points@)).len() == 2);
                }
                let number = match self.number {
                    Some(n) => n,
                    None => 1,
                };
                Ok(NearestCall {
                    coordinates,
                    options,
                    generate_hints: self.generate_hints,
                    number,
                    snapping: encode_optional_text(&self.snapping),
                })
            },
            Err(issue) => Err(OsrmError::InvalidArgument(issue)),
        }
    }
}

/// Builds a nearest query one option at a time.
pub struct NearestRequestBuilder {
    coordinate: Point,
    bearings: Option<Vec<Option<(i16, i16)>>>,
    radiuses: Option<Vec<Option<Scalar>>>,
    hints: Option<Vec<Option<String>>>,
    generate_hints: bool,
    number: Option<i32>,
    approaches: Option<Vec<Option<String>>>,
    snapping: Option<String>,
}

impl NearestRequestBuilder {
    /// The query that `build` returns at this point.
    pub closed spec fn request(self) -> NearestRequest {
        NearestRequest {
            coordinate: self.coordinate,
            bearings: self.bearings,
            radiuses: self.radiuses,
            hints: self.hints,
            generate_hints: self.generate_hints,
            number: self.number,
            approaches: self.approaches,
            snapping: self.snapping,
        }
    }

    /// A builder whose query has every option at its default.
    pub fn new(coordinate: Point) -> (r: Self)
        ensures
            is_default_nearest(r.request(), coordinate),
    {
        Self {
            coordinate,
            bearings: None,
            radiuses: None,
            hints: None,
            generate_hints: true,
            number: Some(1),
            approaches: None,
            snapping: None,
        }
    }

    /// Sets one bearing constraint per point.
    pub fn bearings(self, bearings: Vec<Option<(i16, i16)>>) -> (r: Self)
        ensures
            r.request() == (NearestRequest { bearings: Some(bearings), ..self.request() }),
    {
        let mut s = self;
        s.bearings = Some(bearings);
        s
    }

    /// Sets one snapping radius per point.
    pub fn radiuses(self, radiuses: Vec<Option<Scalar>>) -> (r: Self)
        ensures
            r.request() == (NearestRequest { radiuses: Some(radiuses), ..self.request() }),
    {
        let mut s = self;
        s.radiuses = Some(radiuses);
        s
    }

    /// Sets one hint per point.
    pub fn hints(self, hints: Vec<Option<String>>) -> (r: Self)
        ensures
            r.request() == (NearestRequest { hints: Some(hints), ..self.request() }),
    {
        let mut s = self;
        s.hints = Some(hints);
        s
    }

    /// Sets whether the engine returns hints.
    pub fn generate_hints(self, generate_hints: bool) -> (r: Self)
        ensures
            r.request() == (NearestRequest { generate_hints, ..self.request() }),
    {
        let mut s = self;
        s.generate_hints = generate_hints;
        s
    }

    /// Sets how many waypoints to return.
    pub fn number(self, number: i32) -> (r: Self)
        ensures
            r.request() == (NearestRequest { number: Some(number), ..self.request() }),
    {
        let mut s = self;
        s.number = Some(number);
        s
    }

    /// Sets one approach constraint per point.
    pub fn approaches(self, approaches: Vec<Option<String>>) -> (r: Self)
        ensures
            r.request() == (NearestRequest { approaches: Some(approaches), ..self.request() }),
    {
        let mut s = self;
        s.approaches = Some(approaches);
        s
    }

    /// Sets the snapping mode.
    pub fn snapping(self, snapping: String) -> (r: Self)
        ensures
            r.request() == (NearestRequest { snapping: Some(snapping), ..self.request() }),
    {
        let mut s = self;
        s.snapping = Some(snapping);
        s
    }

    /// The query built so far.
    pub fn build(self) -> (r: NearestRequest)
        ensures
            r == self.request(),
    {
        NearestRequest {
            coordinate: self.coordinate,
            bearings: self.bearings,
            radiuses: self.radiuses,
            hints: self.hints,
            generate_hints: self.generate_hints,
            number: self.number,
            approaches: self.approaches,
            snapping: self.snapping,
        }
    }
}

/// The reply to a nearest query: the snapped waypoints, nearest first.
#[derive(Clone, Debug)]
pub struct NearestResponse {
    pub code: String,
    pub waypoints: Vec<Waypoint>,
}

} // verus!
