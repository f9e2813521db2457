//! Geometry fields, whose shape depends on the options of the query.
use vstd::prelude::*;

verus! {

/// A JSON document as serde_json holds it; carried through untouched.
#[verifier::external_type_specification]
#[verifier::external_body]
pub struct ExJsonValue(serde_json::Value);

/// A geometry as the engine sends it: left out when the overview is off, an
/// encoded polyline, or a GeoJSON object.
#[derive(Debug)]
pub enum Geometry {
    Absent,
    Polyline(String),
    GeoJson(serde_json::Value),
}

impl Geometry {
    /// Whether the engine left the geometry out.
    pub fn is_absent(&self) -> (r: bool)
        ensures
            r == (*self is Absent),
    {
        match self {
            Geometry::Absent => true,
            _ => false,
        }
    }
}

} // verus!
