//! The ledger's primitive value types.

use vstd::prelude::*;

verus! {

/// An authenticated caller identity, as handed over by the ledger.
pub type AccountId = u64;

/// The ledger's clock: a block height that never decreases.
pub type BlockNumber = u64;

/// Caller-chosen key of an election.
pub type ElectionId = u32;

/// Zero-based position of a ballot within its election.
pub type BallotIndex = u32;

/// Ledger-assigned key of a mixing job.
pub type JobId = u64;

/// A commitment root or result hash.
pub type RootHash = [u8; 32];

/// A 32-bit id counter after one id was taken from it: one more, or the
/// same value once the counter stands at its largest. This is how the DAO
/// pallet and the node directory count; ballot indices and job ids are
/// counted with a check instead, and run out rather than repeat.
pub open spec fn advanced(counter: u32) -> u32 {
    if counter < u32::MAX {
        (counter + 1) as u32
    } else {
        counter
    }
}

/// Moves a 32-bit id counter on by one, stopping at the largest value.
pub fn advance(counter: u32) -> (next: u32)
    ensures
        next == advanced(counter),
{
    counter.saturating_add(1)
}

} // verus!
