//! The error taxonomy shared by every operation of the library.
use vstd::prelude::*;

verus! {

/// One of the five query kinds that the engine answers.
#[derive(Clone, Copy, Debug, PartialEq, Eq, Structural)]
pub enum Capability {
    Table,
    Route,
    Trip,
    Match,
    Nearest,
}

/// The name of a capability, as used in diagnostics.
pub open spec fn capability_name(c: Capability) -> Seq<char> {
    match c {
        Capability::Table => "table"@,
        Capability::Route => "route"@,
        Capability::Trip => "trip"@,
        Capability::Match => "match"@,
        Capability::Nearest => "nearest"@,
    }
}

impl Capability {
    /// The name of the capability.
    pub fn name(self) -> (r: String)
        ensures
            r@ == capability_name(self),
    {
        match self {
            Capability::Table => "table".to_owned(),
            Capability::Route => "route".to_owned(),
            Capability::Trip => "trip".to_owned(),
            Capability::Match => "match".to_owned(),
            Capability::Nearest => "nearest".to_owned(),
        }
    }
}

/// A per-point option list of a query.
#[derive(Clone, Copy, Debug, PartialEq, Eq, Structural)]
pub enum PointOption {
    Bearings,
    Radiuses,
    Hints,
    Approaches,
}

/// Why a query was rejected before it reached the engine.
#[derive(Clone, Copy, Debug, PartialEq, Eq, Structural)]
pub enum Issue {
    /// The query has no coordinate.
    NoCoordinates,
    /// A longitude or latitude is infinite or NaN.
    NonFiniteCoordinate,
    /// A per-point option list does not have one entry per coordinate.
    LengthMismatch(PointOption),
    /// A source index does not point into the coordinate list.
    SourceOutOfRange,
    /// A destination index does not point into the coordinate list.
    DestinationOutOfRange,
}

/// Every failure that an operation of the library reports.
#[derive(Clone, Debug, PartialEq, Eq)]
pub enum OsrmError {
    /// The engine could not be created from the given dataset or configuration.
    Initialization,
    /// The query failed validation before crossing the boundary.
    InvalidArgument(Issue),
    /// The boundary returned no message at all.
    EmptyResult,
    /// The engine reported a failure; its message is kept verbatim.
    EngineError(String),
    /// The engine's reply did not have the shape that the capability expects.
    MalformedResponse { capability: Capability, detail: String },
    /// The engine answered, but without the result that was asked for.
    ApiError(String),
}

} // verus!
