//! Conversions between per-point query options and the dense arrays that the
//! native call boundary takes.
use vstd::prelude::*;

verus! {

/// The scalar sequence `[a0, b0, a1, b1, ...]` of a sequence of pairs.
pub open spec fn interleave<T>(pairs: Seq<(T, T)>) -> Seq<T> {
    Seq::new(2 * pairs.len(), |i: int| if i % 2 == 0 { pairs[i / 2].0 } else { pairs[i / 2].1 })
}

/// The pairs `(s[2i], s[2i+1])` of a scalar sequence of even length.
pub open spec fn pairs_of<T>(flat: Seq<T>) -> Seq<(T, T)> {
    Seq::new(flat.len() / 2, |i: int| (flat[2 * i], flat[2 * i + 1]))
}

/// The value of a per-point entry, or the sentinel when the entry is absent.
pub open spec fn or_sentinel<T>(entry: Option<T>, sentinel: T) -> T {
    match entry {
        Some(v) => v,
        None => sentinel,
    }
}

/// A per-point option list with every absent entry replaced by the sentinel.
pub open spec fn dense<T>(entries: Seq<Option<T>>, sentinel: T) -> Seq<T> {
    entries.map_values(|e: Option<T>| or_sentinel(e, sentinel))
}

/// The "absent" bearing: value and range both `-1`.
pub open spec fn absent_bearing() -> (i16, i16) {
    (-1i16, -1i16)
}

/// The flattened bearing array: `(value, range)` per point, `(-1, -1)` where a
/// point has no bearing constraint.
pub open spec fn bearings_flat(bearings: Seq<Option<(i16, i16)>>) -> Seq<i16> {
    interleave(dense(bearings, absent_bearing()))
}

/// The value of a bearing constraint, `-1` where there is none.
pub open spec fn bearing_value(b: Option<(i16, i16)>) -> i16 {
    or_sentinel(b, absent_bearing()).0
}

/// The allowed deviation of a bearing constraint, `-1` where there is none.
pub open spec fn bearing_range(b: Option<(i16, i16)>) -> i16 {
    or_sentinel(b, absent_bearing()).1
}

/// Whether a text can be handed over as a NUL-terminated buffer.
pub open spec fn boundary_safe(s: Seq<char>) -> bool {
    !s.contains('\0')
}

/// The text handed over for one per-point entry: the entry itself, or the empty
/// text where the entry is absent or cannot be NUL-terminated. Empty texts keep
/// the array aligned with the coordinate list.
pub open spec fn text_entry(entry: Option<String>) -> Seq<char> {
    match entry {
        Some(s) => if boundary_safe(s@) { s@ } else { Seq::empty() },
        None => Seq::empty(),
    }
}

/// The text handed over for an optional whole-query string: absent where the
/// query has none or where it cannot be NUL-terminated.
pub open spec fn optional_text(entry: Option<String>) -> Option<Seq<char>> {
    match entry {
        Some(s) => if boundary_safe(s@) { Some(s@) } else { None },
        None => None,
    }
}

/// The index list `[0, n)`.
pub open spec fn all_indices(n: nat) -> Seq<usize> {
    Seq::new(n, |i: int| i as usize)
}

/// An explicit index list, or every index of the coordinate list.
pub open spec fn indices_or_all(given: Option<Vec<usize>>, n: nat) -> Seq<usize> {
    match given {
        Some(v) => v@,
        None => all_indices(n),
    }
}

/// A per-point option list, where given, has one entry per coordinate.
pub open spec fn per_point_len_ok<T>(option: Option<Vec<T>>, n: nat) -> bool {
    match option {
        Some(v) => v@.len() == n,
        None => true,
    }
}

/// Every index of the list points into a coordinate list of length `n`.
pub open spec fn indices_below(indices: Seq<usize>, n: nat) -> bool {
    forall|i: int| 0 <= i < indices.len() ==> (#[trigger] indices[i]) < n
}

/// The text of an optional string.
pub open spec fn text_of(s: Option<String>) -> Option<Seq<char>> {
    match s {
        Some(s) => Some(s@),
        None => None,
    }
}

/// The elements of an optional list.
pub open spec fn list_view<T>(v: Option<Vec<T>>) -> Option<Seq<T>> {
    match v {
        Some(v) => Some(v@),
        None => None,
    }
}

/// The texts of a sequence of strings.
pub open spec fn texts_of(v: Seq<String>) -> Seq<Seq<char>> {
    v.map_values(|s: String| s@)
}

/// Relies on str::contains with a `char` pattern: whether the character occurs
/// in the text.
#[verifier::external_body]
fn has_char(s: &str, c: char) -> (r: bool)
    ensures
        r == s@.contains(c),
{
    s.contains(c)
}

/// Flattens pairs into the interleaved sequence `[a0, b0, a1, b1, ...]`.
pub fn flatten_pairs<T: Copy>(pairs: &Vec<(T, T)>) -> (r: Vec<T>)
    ensures
        r@ == interleave(pairs@),
{
    let mut r: Vec<T> = Vec::new();
    let mut i: usize = 0;
    while i < pairs.len()
        invariant
            i <= pairs@.len(),
            r@ == interleave(pairs@.subrange(0, i as int)),
        decreases pairs@.len() - i,
    {
        let p = pairs[i];
        r.push(p.0);
        r.push(p.1);
        proof {
            let next = pairs@.subrange(0, i + 1);
            assert(next.subrange(0, i as int) =~= pairs@.subrange(0, i as int));
            assert(r@ =~= interleave(next));
        }
        i = i + 1;
    }
    assert(pairs@.subrange(0, pairs@.len() as int) =~= pairs@);
    r
}

/// Rebuilds the pairs of an interleaved sequence of even length.
pub fn unflatten_pairs<T: Copy>(flat: &Vec<T>) -> (r: Vec<(T, T)>)
    requires
        flat@.len() % 2 == 0,
    ensures
        r@ == pairs_of(flat@),
{
    let mut r: Vec<(T, T)> = Vec::new();
    let mut i: usize = 0;
    let len: usize = flat.len();
    let n: usize = len / 2;
    while i < n
        invariant
            len == flat@.len(),
            n == flat@.len() / 2,
            flat@.len() % 2 == 0,
            i <= n,
            r@ =~= pairs_of(flat@).subrange(0, i as int),
        decreases n - i,
    {
        assert(2 * i + 1 < len) by (nonlinear_arith)
            requires
                i < n,
                n == len / 2,
                len % 2 == 0,
        ;
        r.push((flat[2 * i], flat[2 * i + 1]));
        i = i + 1;
    }
    r
}

/// Replaces every absent entry of a per-point option list by the sentinel.
pub fn with_sentinel<T: Copy>(entries: &Vec<Option<T>>, sentinel: T) -> (r: Vec<T>)
    ensures
        r@ == dense(entries@, sentinel),
{
    let mut r: Vec<T> = Vec::new();
    let mut i: usize = 0;
    while i < entries.len()
        invariant
            i <= entries@.len(),
            r@ =~= dense(entries@, sentinel).subrange(0, i as int),
        decreases entries@.len() - i,
    {
        let v = match entries[i] {
            Some(v) => v,
            None => sentinel,
        };
        r.push(v);
        i = i + 1;
    }
    r
}

/// Flattens bearing constraints into `(value, range)` pairs, `(-1, -1)` for a
/// point without one.
pub fn encode_bearings(bearings: &Vec<Option<(i16, i16)>>) -> (r: Vec<i16>)
    ensures
        r@ == bearings_flat(bearings@),
{
    let pairs = with_sentinel(bearings, (-1i16, -1i16));
    flatten_pairs(&pairs)
}

/// Whether a text can be handed over as a NUL-terminated buffer.
pub fn is_boundary_safe(s: &String) -> (r: bool)
    ensures
        r == boundary_safe(s@),
{
    !has_char(s.as_str(), '\0')
}

/// The texts handed over for a per-point string option: one per entry, empty
/// where the entry is absent or holds a NUL character.
pub fn encode_texts(entries: &Vec<Option<String>>) -> (r: Vec<String>)
    ensures
        texts_of(r@) == entries@.map_values(|e: Option<String>| text_entry(e)),
{
    let mut r: Vec<String> = Vec::new();
    let mut i: usize = 0;
    while i < entries.len()
        invariant
            i <= entries@.len(),
            texts_of(r@) =~= entries@.subrange(0, i as int).map_values(
                |e: Option<String>| text_entry(e),
            ),
        decreases entries@.len() - i,
    {
        let t = match &entries[i] {
            Some(s) => if is_boundary_safe(s) {
                s.clone()
            } else {
                String::new()
            },
            None => String::new(),
        };
        assert(t@ == text_entry(entries@[i as int]));
        let ghost before = r@;
        r.push(t);
        proof {
            let next = entries@.subrange(0, i + 1);
            assert(next.subrange(0, i as int) =~= entries@.subrange(0, i as int));
            assert(r@ =~= before.push(t));
            assert(texts_of(r@) =~= texts_of(before).push(t@));
            assert(next.map_values(|e: Option<String>| text_entry(e)) =~= entries@.subrange(
                0,
                i as int,
            ).map_values(|e: Option<String>| text_entry(e)).push(text_entry(entries@[i as int])));
        }
        i = i + 1;
    }
    assert(entries@.subrange(0, entries@.len() as int) =~= entries@);
    r
}

/// The text handed over for an optional whole-query string.
pub fn encode_optional_text(entry: &Option<String>) -> (r: Option<String>)
    ensures
        text_of(r) == optional_text(*entry),
{
    match entry {
        Some(s) => if is_boundary_safe(s) {
            Some(s.clone())
        } else {
            None
        },
        None => None,
    }
}

/// A copy of an optional list.
pub fn copy_list<T: Copy>(v: &Option<Vec<T>>) -> (r: Option<Vec<T>>)
    ensures
        list_view(r) == list_view(*v),
{
    match v {
        Some(v) => {
            let mut r: Vec<T> = Vec::new();
            let mut i: usize = 0;
            while i < v.len()
                invariant
                    i <= v@.len(),
                    r@ =~= v@.subrange(0, i as int),
                decreases v@.len() - i,
            {
                r.push(v[i]);
                i = i + 1;
            }
            Some(r)
        },
        None => None,
    }
}

/// An explicit index list, or `[0, n)` where none is given.
pub fn resolve_indices(given: &Option<Vec<usize>>, n: usize) -> (r: Vec<usize>)
    ensures
        r@ == indices_or_all(*given, n as nat),
{
    match given {
        Some(v) => v.clone(),
        None => {
            let mut r: Vec<usize> = Vec::new();
            let mut i: usize = 0;
            while i < n
                invariant
                    i <= n,
                    r@ =~= all_indices(n as nat).subrange(0, i as int),
                decreases n - i,
            {
                r.push(i);
                i = i + 1;
            }
            r
        },
    }
}

/// Whether a per-point option list, where given, has one entry per coordinate.
pub fn has_point_count<T>(option: &Option<Vec<T>>, n: usize) -> (r: bool)
    ensures
        r == per_point_len_ok(*option, n as nat),
{
    match option {
        Some(v) => v.len() == n,
        None => true,
    }
}

/// Whether every index of the list points into a coordinate list of length `n`.
pub fn all_below(indices: &Vec<usize>, n: usize) -> (r: bool)
    ensures
        r == indices_below(indices@, n as nat),
{
    let mut i: usize = 0;
    while i < indices.len()
        invariant
            i <= indices@.len(),
            forall|j: int| 0 <= j < i ==> (#[trigger] indices@[j]) < n,
        decreases indices@.len() - i,
    {
        if indices[i] >= n {
            return false;
        }
        i = i + 1;
    }
    true
}

/// Flattening pairs and rebuilding them gives back the same pairs.
pub proof fn lemma_flatten_round_trip<T>(pairs: Seq<(T, T)>)
    ensures
        interleave(pairs).len() == 2 * pairs.len(),
        pairs_of(interleave(pairs)) == pairs,
{
    let flat = interleave(pairs);
    assert forall|i: int| 0 <= i < pairs.len() implies #[trigger] pairs_of(flat)[i] == pairs[i] by {
        assert((2 * i) % 2 == 0 && (2 * i) / 2 == i) by (nonlinear_arith);
        assert((2 * i + 1) % 2 == 1 && (2 * i + 1) / 2 == i) by (nonlinear_arith);
    }
    assert(pairs_of(flat) =~= pairs);
}

/// An absent bearing is flattened to `(-1, -1)` and a present one to its own
/// value and range, at positions `2i` and `2i + 1` of point `i`.
pub proof fn lemma_bearing_sentinel(bearings: Seq<Option<(i16, i16)>>, i: int)
    requires
        0 <= i < bearings.len(),
    ensures
        bearings_flat(bearings).len() == 2 * bearings.len(),
        bearings[i] is None ==> bearings_flat(bearings)[2 * i] == -1
            && bearings_flat(bearings)[2 * i + 1] == -1,
        bearings[i] is Some ==> bearings_flat(bearings)[2 * i] == bearing_value(bearings[i])
            && bearings_flat(bearings)[2 * i + 1] == bearing_range(bearings[i]),
{
    assert((2 * i) % 2 == 0 && (2 * i) / 2 == i) by (nonlinear_arith);
    assert((2 * i + 1) % 2 == 1 && (2 * i + 1) / 2 == i) by (nonlinear_arith);
}

/// An absent per-point entry is handed over as the sentinel, a present one as
/// its own value.
pub proof fn lemma_dense_sentinel<T>(entries: Seq<Option<T>>, sentinel: T, i: int)
    requires
        0 <= i < entries.len(),
    ensures
        dense(entries, sentinel).len() == entries.len(),
        entries[i] is None ==> dense(entries, sentinel)[i] == sentinel,
        entries[i] is Some ==> dense(entries, sentinel)[i] == entries[i]->0,
{
}


/// The sentinel cannot be told apart from a present value equal to it: a
/// point whose entry is the sentinel itself is handed over exactly as a point
/// without an entry. This is a limit of the boundary's dense encoding.
pub proof fn lemma_sentinel_ambiguity<T>(entries: Seq<Option<T>>, sentinel: T, i: int)
    requires
        0 <= i < entries.len(),
    ensures
        dense(entries.update(i, Some(sentinel)), sentinel) == dense(entries.update(i, None), sentinel),
{
    assert(dense(entries.update(i, Some(sentinel)), sentinel) =~= dense(entries.update(i, None), sentinel));
}

} // verus!
