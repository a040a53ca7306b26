//! What the tracker reports: one event per accepted call, one error per
//! rejected call.

use crate::primitives::AccountId;
use crate::primitives::ElectionId;
use crate::primitives::JobId;
use vstd::prelude::*;

verus! {

/// Emitted by every accepted call.
#[derive(Clone, Copy, Debug, PartialEq, Eq, Structural)]
pub enum Event {
    /// A mixing job was submitted.
    JobSubmitted { job_id: JobId, election_id: ElectionId, requester: AccountId },
    /// A job moved from `old_status` to `new_status`, both given as status
    /// bytes.
    JobStatusUpdated { job_id: JobId, old_status: u8, new_status: u8 },
}

/// Why a call was rejected.
#[derive(Clone, Copy, Debug, PartialEq, Eq, Structural)]
pub enum Error {
    /// The number of live jobs has reached the configured maximum.
    LimitReached,
    /// The job id counter is exhausted.
    Overflow,
    /// No job has the given id.
    NotFound,
    /// The status lattice forbids the requested move.
    InvalidTransition,
}

} // verus!
