//! Which cross-chain origins may reach the mix job tracker.

use vstd::prelude::*;

verus! {

/// Where a cross-chain message comes from, as far as the filter looks: how
/// many levels up the origin lies, and how many junctions lead down from
/// there.
#[derive(Clone, Copy, Debug, PartialEq, Eq, Structural)]
pub struct Location {
    /// Levels to climb from this chain.
    pub parents: u8,
    /// Junctions to descend after the climb.
    pub interior_len: u8,
}

/// Lets messages through that come from a sibling chain: one level up, one
/// junction down. Messages from the relay chain or from this chain itself
/// are held back.
pub struct AllowMixJobFromSiblings;

impl AllowMixJobFromSiblings {
    /// The origin is a sibling chain.
    pub open spec fn is_sibling(origin: Location) -> bool {
        origin.parents == 1 && origin.interior_len == 1
    }

    /// Whether a message from `origin` is let through.
    pub fn contains(origin: &Location) -> (allowed: bool)
        ensures
            allowed == Self::is_sibling(*origin),
    {
        let is_sibling_para = origin.parents == 1 && origin.interior_len == 1;
        if !is_sibling_para {
            return false;
        }
        true
    }
}

} // verus!
