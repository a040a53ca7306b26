//! What the election pallet reports: one event per accepted call, one error
//! per rejected call.

use crate::primitives::AccountId;
use crate::primitives::BallotIndex;
use crate::primitives::ElectionId;
use vstd::prelude::*;

verus! {

/// Emitted by every accepted call.
#[derive(Clone, Copy, Debug, PartialEq, Eq, Structural)]
pub enum Event {
    /// An election was created.
    ElectionCreated { election_id: ElectionId },
    /// A voter was registered for an election.
    VoterRegistered { election_id: ElectionId, voter: AccountId },
    /// A ballot was stored at `index`.
    BallotCast { election_id: ElectionId, voter: AccountId, index: BallotIndex },
    /// Both mix commitment roots of an election were written.
    MixCommitmentsSet { election_id: ElectionId },
    /// The tally of an election was recorded and the election finalized.
    TallySubmitted { election_id: ElectionId },
}

/// Why a call was rejected.
#[derive(Clone, Copy, Debug, PartialEq, Eq, Structural)]
pub enum Error {
    /// No election has the given id.
    NotFound,
    /// An election with the given id exists already.
    AlreadyExists,
    /// The deadlines are out of order, or registration would close at once.
    InvalidWindow,
    /// The caller does not hold the role the call needs.
    Unauthorized,
    /// The election is finalized, or the deadline for the call has passed.
    Closed,
    /// The voter is registered for the election already.
    AlreadyRegistered,
    /// The caller is not registered for the election.
    NotRegistered,
    /// A ciphertext or result locator exceeds its size bound.
    TooLarge,
    /// A tally was submitted before both mix commitments were set.
    CommitmentsMissing,
    /// The election's ballot counter is exhausted: every index is taken.
    Overflow,
}

} // verus!
