//! Many-to-many duration and distance matrices.
use crate::codec::{
    all_indices,
    encode_optional_text, indices_below, indices_or_all, interleave, optional_text, or_sentinel,
    resolve_indices, all_below, text_of,
};
use crate::errors::{Issue, OsrmError};
use crate::options::{
    coordinates_issue, encode_coordinates, encode_options, minus_one_scalar, options_encoded,
    point_options_issue, scalar_or_minus_one, EncodedOptions,
};
use crate::scalar::Scalar;
use vstd::prelude::*;

verus! {

/// A table query: the costs between every source and every destination.
#[derive(Clone, Debug)]
pub struct TableRequest {
    /// `(longitude, latitude)` of every point.
    pub coordinates: Vec<(Scalar, Scalar)>,
    pub include_duration: bool,
    pub include_distance: bool,
    pub bearings: Option<Vec<Option<(i16, i16)>>>,
    pub radiuses: Option<Vec<Option<Scalar>>>,
    pub hints: Option<Vec<Option<String>>>,
    pub generate_hints: bool,
    /// Indices of the points used as sources; every point where absent.
    pub sources_indices: Option<Vec<usize>>,
    /// Indices of the points used as destinations; every point where absent.
    pub destinations_indices: Option<Vec<usize>>,
    pub approaches: Option<Vec<Option<String>>>,
    pub fallback_speed: Option<Scalar>,
    pub fallback_coordinate: Option<String>,
    pub scale_factor: Option<Scalar>,
    pub snapping: Option<String>,
}

/// The arguments of the native table call.
#[derive(Clone, Debug)]
pub struct TableCall {
    /// `[lon0, lat0, lon1, lat1, ...]`.
    pub coordinates: Vec<Scalar>,
    pub sources: Vec<usize>,
    pub destinations: Vec<usize>,
    pub include_duration: bool,
    pub include_distance: bool,
    pub options: EncodedOptions,
    pub generate_hints: bool,
    /// `-1.0` where the query leaves it to the engine.
    pub fallback_speed: Scalar,
    pub fallback_coordinate: Option<String>,
    /// `-1.0` where the query leaves it to the engine.
    pub scale_factor: Scalar,
    pub snapping: Option<String>,
}

/// An explicit index list that points outside the coordinate list.
pub open spec fn bad_indices(given: Option<Vec<usize>>, n: nat) -> bool {
    match given {
        Some(v) => !indices_below(v@, n),
        None => false,
    }
}

/// Why a table query is rejected before it reaches the engine, if it is.
pub open spec fn table_issue(req: TableRequest) -> Option<Issue> {
    let n = req.coordinates@.len();
    if coordinates_issue(req.coordinates@) is Some {
        coordinates_issue(req.coordinates@)
    } else if point_options_issue(req.bearings, req.radiuses, req.hints, req.approaches, n) is Some {
        point_options_issue(req.bearings, req.radiuses, req.hints, req.approaches, n)
    } else if bad_indices(req.sources_indices, n) {
        Some(Issue::SourceOutOfRange)
    } else if bad_indices(req.destinations_indices, n) {
        Some(Issue::DestinationOutOfRange)
    } else {
        None
    }
}

/// `call` carries exactly what the table query asks for.
pub open spec fn table_call_of(req: TableRequest, call: TableCall) -> bool {
    let n = req.coordinates@.len();
    &&& call.coordinates@ == interleave(req.coordinates@)
    &&& call.sources@ == indices_or_all(req.sources_indices, n)
    &&& call.destinations@ == indices_or_all(req.destinations_indices, n)
    &&& call.include_duration == req.include_duration
    &&& call.include_distance == req.include_distance
    &&& options_encoded(req.bearings, req.radiuses, req.hints, req.approaches, call.options)
    &&& call.generate_hints == req.generate_hints
    &&& call.fallback_speed == or_sentinel(req.fallback_speed, minus_one_scalar())
    &&& text_of(call.fallback_coordinate) == optional_text(req.fallback_coordinate)
    &&& call.scale_factor == or_sentinel(req.scale_factor, minus_one_scalar())
    &&& text_of(call.snapping) == optional_text(req.snapping)
}

fn check_indices(given: &Option<Vec<usize>>, n: usize) -> (r: bool)
    ensures
        r == !bad_indices(*given, n as nat),
{
    match given {
        Some(v) => all_below(v, n),
        None => true,
    }
}

impl TableRequest {
    /// A table query over the given points with every option at its default:
    /// durations and distances both asked for, hints generated, every point a
    /// source and a destination.
    pub fn new(coordinates: Vec<(Scalar, Scalar)>) -> (r: TableRequest)
        ensures
            r.coordinates == coordinates,
            r.include_duration && r.include_distance && r.generate_hints,
            r.bearings is None && r.radiuses is None && r.hints is None,
            r.sources_indices is None && r.destinations_indices is None,
            r.approaches is None && r.fallback_speed is None,
            r.fallback_coordinate is None && r.scale_factor is None && r.snapping is None,
    {
        TableRequest {
            coordinates,
            include_duration: true,
            include_distance: true,
            bearings: None,
            radiuses: None,
            hints: None,
            generate_hints: true,
            sources_indices: None,
            destinations_indices: None,
            approaches: None,
            fallback_speed: None,
            fallback_coordinate: None,
            scale_factor: None,
            snapping: None,
        }
    }

    /// Validates the query and builds the arguments of the native table call.
    pub fn prepare(&self) -> (r: Result<TableCall, OsrmError>)
        ensures
            match r {
                Ok(call) => table_issue(*self) is None && table_call_of(*self, call),
                Err(e) => table_issue(*self) is Some && e == OsrmError::InvalidArgument(
                    table_issue(*self)->0,
                ),
            },
    {
        let n = self.coordinates.len();
        let coordinates = match encode_coordinates(&self.coordinates) {
            Ok(c) => c,
            Err(issue) => return Err(OsrmError::InvalidArgument(issue)),
        };
        let options = match encode_options(
            &self.bearings,
            &self.radiuses,
            &self.hints,
            &self.approaches,
            n,
        ) {
            Ok(o) => o,
            Err(issue) => return Err(OsrmError::InvalidArgument(issue)),
        };
        if !check_indices(&self.sources_indices, n) {
            return Err(OsrmError::InvalidArgument(Issue::SourceOutOfRange));
        }
        if !check_indices(&self.destinations_indices, n) {
            return Err(OsrmError::InvalidArgument(Issue::DestinationOutOfRange));
        }
        Ok(TableCall {
            coordinates,
            sources: resolve_indices(&self.sources_indices, n),
            destinations: resolve_indices(&self.destinations_indices, n),
            include_duration: self.include_duration,
            include_distance: self.include_distance,
            options,
            generate_hints: self.generate_hints,
            fallback_speed: scalar_or_minus_one(self.fallback_speed),
            fallback_coordinate: encode_optional_text(&self.fallback_coordinate),
            scale_factor: scalar_or_minus_one(self.scale_factor),
            snapping: encode_optional_text(&self.snapping),
        })
    }
}

/// One snapped source or destination of a table reply.
#[derive(Clone, Debug)]
pub struct TableLocationEntry {
    pub hint: Option<String>,
    /// `[longitude, latitude]` of the snapped position.
    pub location: [Scalar; 2],
    pub name: String,
    /// Meters from the input coordinate to the snapped one.
    pub distance: Scalar,
}

/// The reply to a table query. The matrices are row-major, indexed
/// `[source][destination]`; `None` marks a pair with no connection.
#[derive(Clone, Debug)]
pub struct TableResponse {
    pub code: String,
    pub destinations: Vec<TableLocationEntry>,
    pub durations: Option<Vec<Vec<Option<Scalar>>>>,
    pub distances: Option<Vec<Vec<Option<Scalar>>>>,
    pub sources: Vec<TableLocationEntry>,
}


/// A table query that names no sources or destinations uses every point as
/// both: the call carries `[0, n)` for each.
pub proof fn lemma_default_indices(req: TableRequest, call: TableCall)
    requires
        table_call_of(req, call),
        req.sources_indices is None,
        req.destinations_indices is None,
    ensures
        call.sources@ == all_indices(req.coordinates@.len()),
        call.destinations@ == all_indices(req.coordinates@.len()),
{
}

} // verus!
