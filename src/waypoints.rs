//! Snapped waypoints and the node identifiers that come with them.
use crate::scalar::Scalar;
use vstd::prelude::*;

verus! {

/// A coordinate snapped to the road network.
#[derive(Clone, Debug)]
pub struct Waypoint {
    pub hint: Option<String>,
    /// `[longitude, latitude]` of the snapped position.
    pub location: [Scalar; 2],
    /// Name of the street the coordinate snapped to.
    pub name: String,
    /// Distance in meters from the input coordinate to the snapped one.
    pub distance: Scalar,
    pub nodes: Option<Vec<u64>>,
}

/// A graph node identifier as the JSON reader found it.
#[derive(Clone, Copy, Debug, PartialEq, Eq, Structural)]
pub enum NodeNumber {
    /// Encoded as an integer that fits in `i64`.
    Int(i64),
    /// Encoded as an integer above `i64::MAX`.
    UInt(u64),
    /// Encoded as a floating-point value, truncated toward zero by the reader.
    Truncated(i128),
}

/// The integer that a node number stands for.
pub open spec fn node_value(n: NodeNumber) -> int {
    match n {
        NodeNumber::Int(i) => i as int,
        NodeNumber::UInt(u) => u as int,
        NodeNumber::Truncated(t) => t as int,
    }
}

/// The node identifier as a signed integer, where it fits.
pub open spec fn signed_id(n: NodeNumber) -> Option<i64> {
    if i64::MIN <= node_value(n) <= i64::MAX {
        Some(node_value(n) as i64)
    } else {
        None
    }
}

/// The node identifier as an unsigned integer, where it fits.
pub open spec fn unsigned_id(n: NodeNumber) -> Option<u64> {
    if 0 <= node_value(n) <= u64::MAX {
        Some(node_value(n) as u64)
    } else {
        None
    }
}

/// The identifier as `i64`; `None` where it lies outside that range, never a
/// wrapped value.
pub fn node_id_signed(n: NodeNumber) -> (r: Option<i64>)
    ensures
        r == signed_id(n),
{
    match n {
        NodeNumber::Int(i) => Some(i),
        NodeNumber::UInt(u) => if u <= 0x7fff_ffff_ffff_ffffu64 {
            Some(u as i64)
        } else {
            None
        },
        NodeNumber::Truncated(t) => if -0x8000_0000_0000_0000i128 <= t && t
            <= 0x7fff_ffff_ffff_ffffi128 {
            Some(t as i64)
        } else {
            None
        },
    }
}

/// The identifier as `u64`; `None` where it lies outside that range, never a
/// wrapped value.
pub fn node_id_unsigned(n: NodeNumber) -> (r: Option<u64>)
    ensures
        r == unsigned_id(n),
{
    match n {
        NodeNumber::Int(i) => if i >= 0 {
            Some(i as u64)
        } else {
            None
        },
        NodeNumber::UInt(u) => Some(u),
        NodeNumber::Truncated(t) => if 0 <= t && t <= 0xffff_ffff_ffff_ffffi128 {
            Some(t as u64)
        } else {
            None
        },
    }
}

/// Every identifier of the list, as `i64`; or the position of the first one
/// outside that range.
pub fn node_ids_signed(numbers: &Vec<NodeNumber>) -> (r: Result<Vec<i64>, usize>)
    ensures
        match r {
            Ok(ids) => ids@.len() == numbers@.len() && forall|i: int|
                0 <= i < numbers@.len() ==> Some(ids@[i]) == signed_id(#[trigger] numbers@[i]),
            Err(k) => k < numbers@.len() && signed_id(numbers@[k as int]) is None && forall|i: int|
                0 <= i < k ==> signed_id(#[trigger] numbers@[i]) is Some,
        },
{
    let mut ids: Vec<i64> = Vec::new();
    let mut i: usize = 0;
    while i < numbers.len()
        invariant
            i <= numbers@.len(),
            ids@.len() == i,
            forall|j: int| 0 <= j < i ==> Some(ids@[j]) == signed_id(#[trigger] numbers@[j]),
        decreases numbers@.len() - i,
    {
        match node_id_signed(numbers[i]) {
            Some(id) => ids.push(id),
            None => return Err(i),
        }
        i = i + 1;
    }
    Ok(ids)
}

/// Every identifier of the list, as `u64`; or the position of the first one
/// outside that range.
pub fn node_ids_unsigned(numbers: &Vec<NodeNumber>) -> (r: Result<Vec<u64>, usize>)
    ensures
        match r {
            Ok(ids) => ids@.len() == numbers@.len() && forall|i: int|
                0 <= i < numbers@.len() ==> Some(ids@[i]) == unsigned_id(#[trigger] numbers@[i]),
            Err(k) => k < numbers@.len() && unsigned_id(numbers@[k as int]) is None && forall|i: int|
                0 <= i < k ==> unsigned_id(#[trigger] numbers@[i]) is Some,
        },
{
    let mut ids: Vec<u64> = Vec::new();
    let mut i: usize = 0;
    while i < numbers.len()
        invariant
            i <= numbers@.len(),
            ids@.len() == i,
            forall|j: int| 0 <= j < i ==> Some(ids@[j]) == unsigned_id(#[trigger] numbers@[j]),
        decreases numbers@.len() - i,
    {
        match node_id_unsigned(numbers[i]) {
            Some(id) => ids.push(id),
            None => return Err(i),
        }
        i = i + 1;
    }
    Ok(ids)
}

} // verus!
