//! The routing algorithms that the engine offers.
use vstd::prelude::*;

verus! {

/// The routing algorithm that the dataset was prepared for.
#[derive(Clone, Copy, Debug, PartialEq, Eq, Structural)]
pub enum Algorithm {
    /// Contraction hierarchies.
    CH,
    /// Multi-level Dijkstra.
    MLD,
}

/// The name under which the engine knows an algorithm.
pub open spec fn algorithm_name(a: Algorithm) -> Seq<char> {
    match a {
        Algorithm::CH => "CH"@,
        Algorithm::MLD => "MLD"@,
    }
}

impl Algorithm {
    /// The name under which the engine knows the algorithm.
    pub fn as_str(&self) -> (r: &'static str)
        ensures
            r@ == algorithm_name(*self),
    {
        match self {
            Algorithm::CH => "CH",
            Algorithm::MLD => "MLD",
        }
    }
}

} // verus!
