//! Validation and encoding of the parts that every query shares: the
//! coordinate list and the per-point option lists.
use crate::codec::{
    bearings_flat, dense, encode_bearings, encode_texts, flatten_pairs, has_point_count, interleave,
    or_sentinel, per_point_len_ok, text_entry, texts_of, with_sentinel,
};
use crate::errors::{Issue, PointOption};
use crate::point::{lon_lat_of, lon_lat_pairs, Point};
use crate::scalar::{finite_bits, Scalar, MINUS_ONE_BITS};
use vstd::prelude::*;

verus! {

/// The sentinel `-1.0`, which the engine reads as "absent" for radiuses and
/// scalar fallbacks.
pub open spec fn minus_one_scalar() -> Scalar {
    Scalar { bits: MINUS_ONE_BITS }
}

/// Every longitude and latitude of the list is finite.
pub open spec fn all_finite(pairs: Seq<(Scalar, Scalar)>) -> bool {
    forall|i: int|
        0 <= i < pairs.len() ==> finite_bits((#[trigger] pairs[i]).0.bits) && finite_bits(
            pairs[i].1.bits,
        )
}

/// Why a coordinate list is rejected, if it is.
pub open spec fn coordinates_issue(pairs: Seq<(Scalar, Scalar)>) -> Option<Issue> {
    if pairs.len() == 0 {
        Some(Issue::NoCoordinates)
    } else if !all_finite(pairs) {
        Some(Issue::NonFiniteCoordinate)
    } else {
        None
    }
}

/// Why the per-point option lists of a query over `n` coordinates are
/// rejected, if they are: the first list, in the order bearings, radiuses,
/// hints, approaches, whose length is not `n`.
pub open spec fn point_options_issue(
    bearings: Option<Vec<Option<(i16, i16)>>>,
    radiuses: Option<Vec<Option<Scalar>>>,
    hints: Option<Vec<Option<String>>>,
    approaches: Option<Vec<Option<String>>>,
    n: nat,
) -> Option<Issue> {
    if !per_point_len_ok(bearings, n) {
        Some(Issue::LengthMismatch(PointOption::Bearings))
    } else if !per_point_len_ok(radiuses, n) {
        Some(Issue::LengthMismatch(PointOption::Radiuses))
    } else if !per_point_len_ok(hints, n) {
        Some(Issue::LengthMismatch(PointOption::Hints))
    } else if !per_point_len_ok(approaches, n) {
        Some(Issue::LengthMismatch(PointOption::Approaches))
    } else {
        None
    }
}

/// The per-point option lists in the dense form that the boundary takes. A
/// list that the query leaves out stays `None`: the engine then applies its
/// own default to every point.
#[derive(Clone, Debug)]
pub struct EncodedOptions {
    /// `(value, range)` per point; `(-1, -1)` for a point without a bearing.
    pub bearings: Option<Vec<i16>>,
    /// One radius per point; `-1.0` for a point without one.
    pub radiuses: Option<Vec<Scalar>>,
    /// One hint per point; empty for a point without one.
    pub hints: Option<Vec<String>>,
    /// One approach per point; empty for a point without one.
    pub approaches: Option<Vec<String>>,
}

/// The dense form of an optional text list.
pub open spec fn texts_encoded(given: Option<Vec<Option<String>>>, got: Option<Vec<String>>) -> bool {
    match given {
        None => got is None,
        Some(v) => got is Some && texts_of(got->0@) == v@.map_values(
            |e: Option<String>| text_entry(e),
        ),
    }
}

/// `enc` is the dense form of the given per-point option lists.
pub open spec fn options_encoded(
    bearings: Option<Vec<Option<(i16, i16)>>>,
    radiuses: Option<Vec<Option<Scalar>>>,
    hints: Option<Vec<Option<String>>>,
    approaches: Option<Vec<Option<String>>>,
    enc: EncodedOptions,
) -> bool {
    &&& match bearings {
        None => enc.bearings is None,
        Some(b) => enc.bearings is Some && enc.bearings->0@ == bearings_flat(b@),
    }
    &&& match radiuses {
        None => enc.radiuses is None,
        Some(r) => enc.radiuses is Some && enc.radiuses->0@ == dense(r@, minus_one_scalar()),
    }
    &&& texts_encoded(hints, enc.hints)
    &&& texts_encoded(approaches, enc.approaches)
}

fn encode_text_list(given: &Option<Vec<Option<String>>>) -> (r: Option<Vec<String>>)
    ensures
        texts_encoded(*given, r),
{
    match given {
        Some(v) => Some(encode_texts(v)),
        None => None,
    }
}

/// Checks that every per-point option list has one entry per coordinate and
/// encodes them densely.
pub fn encode_options(
    bearings: &Option<Vec<Option<(i16, i16)>>>,
    radiuses: &Option<Vec<Option<Scalar>>>,
    hints: &Option<Vec<Option<String>>>,
    approaches: &Option<Vec<Option<String>>>,
    n: usize,
) -> (r: Result<EncodedOptions, Issue>)
    ensures
        match r {
            Ok(enc) => point_options_issue(*bearings, *radiuses, *hints, *approaches, n as nat) is None
                && options_encoded(*bearings, *radiuses, *hints, *approaches, enc),
            Err(issue) => point_options_issue(*bearings, *radiuses, *hints, *approaches, n as nat)
                == Some(issue),
        },
{
    if !has_point_count(bearings, n) {
        return Err(Issue::LengthMismatch(PointOption::Bearings));
    }
    if !has_point_count(radiuses, n) {
        return Err(Issue::LengthMismatch(PointOption::Radiuses));
    }
    if !has_point_count(hints, n) {
        return Err(Issue::LengthMismatch(PointOption::Hints));
    }
    if !has_point_count(approaches, n) {
        return Err(Issue::LengthMismatch(PointOption::Approaches));
    }
    let b = match bearings {
        Some(v) => Some(encode_bearings(v)),
        None => None,
    };
    let r = match radiuses {
        Some(v) => Some(with_sentinel(v, Scalar::minus_one())),
        None => None,
    };
    Ok(EncodedOptions {
        bearings: b,
        radiuses: r,
        hints: encode_text_list(hints),
        approaches: encode_text_list(approaches),
    })
}

/// Whether every longitude and latitude of the list is finite.
pub fn check_finite(pairs: &Vec<(Scalar, Scalar)>) -> (r: bool)
    ensures
        r == all_finite(pairs@),
{
    let mut i: usize = 0;
    while i < pairs.len()
        invariant
            i <= pairs@.len(),
            all_finite(pairs@.subrange(0, i as int)),
        decreases pairs@.len() - i,
    {
        let p = pairs[i];
        if !p.0.is_finite() || !p.1.is_finite() {
            assert(!all_finite(pairs@) ) by {
                assert(pairs@[i as int] == p);
            }
            return false;
        }
        assert(all_finite(pairs@.subrange(0, i + 1))) by {
            assert forall|j: int| 0 <= j < i + 1 implies finite_bits(
                (#[trigger] pairs@.subrange(0, i + 1)[j]).0.bits,
            ) && finite_bits(pairs@.subrange(0, i + 1)[j].1.bits) by {
                if j < i {
                    assert(pairs@.subrange(0, i + 1)[j] == pairs@.subrange(0, i as int)[j]);
                }
            }
        }
        i = i + 1;
    }
    assert(pairs@.subrange(0, pairs@.len() as int) =~= pairs@);
    true
}

/// Checks a coordinate list (at least one point, every value finite) and
/// flattens it to `[lon0, lat0, lon1, lat1, ...]`.
pub fn encode_coordinates(pairs: &Vec<(Scalar, Scalar)>) -> (r: Result<Vec<Scalar>, Issue>)
    ensures
        match r {
            Ok(flat) => coordinates_issue(pairs@) is None && flat@ == interleave(pairs@),
            Err(issue) => coordinates_issue(pairs@) == Some(issue),
        },
{
    if pairs.len() == 0 {
        return Err(Issue::NoCoordinates);
    }
    if !check_finite(pairs) {
        return Err(Issue::NonFiniteCoordinate);
    }
    Ok(flatten_pairs(pairs))
}

/// The value, or `-1.0` where there is none.
pub fn scalar_or_minus_one(v: Option<Scalar>) -> (r: Scalar)
    ensures
        r == or_sentinel(v, minus_one_scalar()),
{
    match v {
        Some(s) => s,
        None => Scalar::minus_one(),
    }
}

/// Why a query over a list of points and its per-point options is rejected
/// before it reaches the engine, if it is.
pub open spec fn points_issue(
    points: Seq<Point>,
    bearings: Option<Vec<Option<(i16, i16)>>>,
    radiuses: Option<Vec<Option<Scalar>>>,
    hints: Option<Vec<Option<String>>>,
    approaches: Option<Vec<Option<String>>>,
) -> Option<Issue> {
    if coordinates_issue(lon_lat_of(points)) is Some {
        coordinates_issue(lon_lat_of(points))
    } else {
        point_options_issue(bearings, radiuses, hints, approaches, points.len())
    }
}

/// Checks a list of points and its per-point options, and encodes both.
pub fn encode_points(
    points: &Vec<Point>,
    bearings: &Option<Vec<Option<(i16, i16)>>>,
    radiuses: &Option<Vec<Option<Scalar>>>,
    hints: &Option<Vec<Option<String>>>,
    approaches: &Option<Vec<Option<String>>>,
) -> (r: Result<(Vec<Scalar>, EncodedOptions), Issue>)
    ensures
        match r {
            Ok((flat, enc)) => points_issue(points@, *bearings, *radiuses, *hints, *approaches) is None
                && flat@ == interleave(lon_lat_of(points@))
                && options_encoded(*bearings, *radiuses, *hints, *approaches, enc),
            Err(issue) => points_issue(points@, *bearings, *radiuses, *hints, *approaches) == Some(
                issue,
            ),
        },
{
    let pairs = lon_lat_pairs(points);
    let flat = encode_coordinates(&pairs)?;
    let enc = encode_options(bearings, radiuses, hints, approaches, points.len())?;
    Ok((flat, enc))
}


/// The per-point option lists of a query over `n` points pass validation
/// exactly when every list that is given has `n` entries; a list of any other
/// length is reported as a length mismatch, never truncated or padded. Table
/// validation and `points_issue` both apply this check once the coordinate
/// list itself is valid.
pub proof fn lemma_point_counts(
    bearings: Option<Vec<Option<(i16, i16)>>>,
    radiuses: Option<Vec<Option<Scalar>>>,
    hints: Option<Vec<Option<String>>>,
    approaches: Option<Vec<Option<String>>>,
    n: nat,
)
    ensures
        point_options_issue(bearings, radiuses, hints, approaches, n) is None <==> {
            &&& per_point_len_ok(bearings, n)
            &&& per_point_len_ok(radiuses, n)
            &&& per_point_len_ok(hints, n)
            &&& per_point_len_ok(approaches, n)
        },
        point_options_issue(bearings, radiuses, hints, approaches, n) is Some ==> point_options_issue(
            bearings,
            radiuses,
            hints,
            approaches,
            n,
        )->0 is LengthMismatch,
{
}

/// An absent radius is handed over as `-1.0`, a present one as itself.
pub proof fn lemma_radius_sentinel(
    bearings: Option<Vec<Option<(i16, i16)>>>,
    radiuses: Vec<Option<Scalar>>,
    hints: Option<Vec<Option<String>>>,
    approaches: Option<Vec<Option<String>>>,
    enc: EncodedOptions,
    i: int,
)
    requires
        options_encoded(bearings, Some(radiuses), hints, approaches, enc),
        0 <= i < radiuses@.len(),
    ensures
        enc.radiuses is Some,
        radiuses@[i] is None ==> enc.radiuses->0@[i] == minus_one_scalar(),
        radiuses@[i] is Some ==> enc.radiuses->0@[i] == radiuses@[i]->0,
{
}

/// Every dense array handed over for a query over `n` points has one entry
/// per point: `2n` bearing values, and `n` radiuses, hints and approaches.
pub proof fn lemma_encoded_lengths(
    bearings: Option<Vec<Option<(i16, i16)>>>,
    radiuses: Option<Vec<Option<Scalar>>>,
    hints: Option<Vec<Option<String>>>,
    approaches: Option<Vec<Option<String>>>,
    n: nat,
    enc: EncodedOptions,
)
    requires
        point_options_issue(bearings, radiuses, hints, approaches, n) is None,
        options_encoded(bearings, radiuses, hints, approaches, enc),
    ensures
        enc.bearings is Some ==> enc.bearings->0@.len() == 2 * n,
        enc.radiuses is Some ==> enc.radiuses->0@.len() == n,
        enc.hints is Some ==> enc.hints->0@.len() == n,
        enc.approaches is Some ==> enc.approaches->0@.len() == n,
{
    if let Some(h) = hints {
        assert(texts_of(enc.hints->0@).len() == enc.hints->0@.len());
    }
    if let Some(a) = approaches {
        assert(texts_of(enc.approaches->0@).len() == enc.approaches->0@.len());
    }
}

} // verus!
