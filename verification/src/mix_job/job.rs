//! The record kept for each mixing job.

use crate::bounded::short_bytes;
use crate::bounded::ShortBytes;
use crate::mix_job::event::Error;
use crate::mix_job::status::JobStatus;
use crate::primitives::AccountId;
use crate::primitives::BlockNumber;
use crate::primitives::ElectionId;
use crate::primitives::JobId;
use vstd::prelude::*;

verus! {

/// A mixing job as stored by the tracker.
#[derive(Clone, Debug, PartialEq, Eq)]
pub struct MixJobInfo {
    /// The id the tracker assigned.
    pub job_id: JobId,
    /// Who submitted the job.
    pub requester: AccountId,
    /// The chain partition the request came from, if it came from another one.
    pub source_para: Option<u32>,
    /// The election whose ballots are to be mixed.
    pub election_id: ElectionId,
    /// When the job was submitted.
    pub created_at: BlockNumber,
    /// Where the job stands.
    pub status: JobStatus,
    /// When the status was last written.
    pub last_update: BlockNumber,
    /// What the worker reported with the last status, if anything.
    pub error_code: Option<ShortBytes>,
}

/// The mathematical value of a job record: the same fields, with the error
/// message as a plain byte sequence.
pub struct MixJob {
    pub job_id: JobId,
    pub requester: AccountId,
    pub source_para: Option<u32>,
    pub election_id: ElectionId,
    pub created_at: BlockNumber,
    pub status: JobStatus,
    pub last_update: BlockNumber,
    pub error_code: Option<Seq<u8>>,
}

/// The bytes of an optional error message.
pub open spec fn message_bytes(message: Option<ShortBytes>) -> Option<Seq<u8>> {
    match message {
        Some(m) => Some(short_bytes(m)),
        None => None,
    }
}

impl MixJob {
    /// A freshly submitted job: pending, created and last updated at `now`,
    /// from this chain, with no error message.
    pub open spec fn pending(
        job_id: JobId,
        requester: AccountId,
        election_id: ElectionId,
        now: BlockNumber,
    ) -> MixJob {
        MixJob {
            job_id,
            requester,
            source_para: None,
            election_id,
            created_at: now,
            status: JobStatus::Pending,
            last_update: now,
            error_code: None,
        }
    }

    /// This job after a status report at `now`: status, update time and
    /// error message are replaced, everything else is kept.
    pub open spec fn moved_to(
        self,
        status: JobStatus,
        now: BlockNumber,
        error_code: Option<Seq<u8>>,
    ) -> MixJob {
        MixJob { status, last_update: now, error_code, ..self }
    }
}

impl View for MixJobInfo {
    type V = MixJob;

    open spec fn view(&self) -> MixJob {
        MixJob {
            job_id: self.job_id,
            requester: self.requester,
            source_para: self.source_para,
            election_id: self.election_id,
            created_at: self.created_at,
            status: self.status,
            last_update: self.last_update,
            error_code: message_bytes(self.error_code),
        }
    }
}

impl MixJobInfo {
    /// Builds the record of a job submitted at `now`.
    pub fn pending(
        job_id: JobId,
        requester: AccountId,
        election_id: ElectionId,
        now: BlockNumber,
    ) -> (job: MixJobInfo)
        ensures
            job@ == MixJob::pending(job_id, requester, election_id, now),
    {
        MixJobInfo {
            job_id,
            requester,
            source_para: None,
            election_id,
            created_at: now,
            status: JobStatus::Pending,
            last_update: now,
            error_code: None,
        }
    }

    /// Records a status report made at `now`.
    ///
    /// Where the lattice allows the move, the status, the update time and the
    /// error message are overwritten (a missing message clears the old one)
    /// and the previous status is returned. Where it does not, the record is
    /// left as it was.
    pub fn apply_status(
        &mut self,
        new_status: JobStatus,
        now: BlockNumber,
        error_code: Option<ShortBytes>,
    ) -> (r: Result<JobStatus, Error>)
        ensures
            old(self).status.allows(new_status) ==> r == Ok::<JobStatus, Error>(old(self).status)
                && final(self)@ == old(self)@.moved_to(
                new_status,
                now,
                message_bytes(error_code),
            ),
            !old(self).status.allows(new_status) ==> r == Err::<JobStatus, Error>(
                Error::InvalidTransition,
            ) && *final(self) == *old(self),
    {
        if !self.status.can_transition_to(new_status) {
            return Err(Error::InvalidTransition);
        }
        let old_status = self.status;
        self.status = new_status;
        self.last_update = now;
        self.error_code = error_code;
        Ok(old_status)
    }
}

} // verus!
