//! Geographic positions.
use crate::scalar::Scalar;
use vstd::prelude::*;

verus! {

/// A position given as longitude and latitude in degrees.
#[derive(Clone, Copy, Debug, PartialEq, Eq, Structural)]
pub struct Point {
    pub longitude: Scalar,
    pub latitude: Scalar,
}

/// The `(longitude, latitude)` pairs of a sequence of points.
pub open spec fn lon_lat_of(points: Seq<Point>) -> Seq<(Scalar, Scalar)> {
    points.map_values(|p: Point| (p.longitude, p.latitude))
}

impl Point {
    /// The point at the given longitude and latitude.
    pub fn new(longitude: Scalar, latitude: Scalar) -> (r: Point)
        ensures
            r.longitude == longitude,
            r.latitude == latitude,
    {
        Point { longitude, latitude }
    }
}

/// The `(longitude, latitude)` pairs of the points, in order.
pub fn lon_lat_pairs(points: &Vec<Point>) -> (r: Vec<(Scalar, Scalar)>)
    ensures
        r@ == lon_lat_of(points@),
{
    let mut r: Vec<(Scalar, Scalar)> = Vec::new();
    let mut i: usize = 0;
    while i < points.len()
        invariant
            i <= points@.len(),
            r@ =~= lon_lat_of(points@).subrange(0, i as int),
        decreases points@.len() - i,
    {
        let p = points[i];
        r.push((p.longitude, p.latitude));
        i = i + 1;
    }
    r
}

} // verus!
