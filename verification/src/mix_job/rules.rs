//! The decision behind each call, on plain values.
//!
//! Given what a call has read from storage, the functions here say whether
//! the call is accepted and what is to be written.

use crate::bounded::ShortBytes;
use crate::mix_job::event::Error;
use crate::mix_job::job::message_bytes;
use crate::mix_job::job::MixJob;
use crate::mix_job::job::MixJobInfo;
use crate::mix_job::status::JobStatus;
use crate::primitives::BlockNumber;
use crate::primitives::JobId;
use vstd::prelude::*;

verus! {

/// Whether a job may be taken on, and if so the counter's next value.
///
/// With `live_jobs` jobs live under a limit of `max_jobs`, a submission is
/// rejected with `LimitReached` while the live jobs are at or above the
/// limit, then with `Overflow` when the counter stands at its largest value
/// and cannot be advanced.
pub open spec fn admission(live_jobs: nat, max_jobs: u32, next_job_id: JobId) -> Result<
    JobId,
    Error,
> {
    if live_jobs >= max_jobs {
        Err(Error::LimitReached)
    } else if next_job_id == u64::MAX {
        Err(Error::Overflow)
    } else {
        Ok((next_job_id + 1) as JobId)
    }
}

/// `update_job_status`, given the job's record, if there is one: rejected
/// with `NotFound` without a record, then with `InvalidTransition` when the
/// lattice forbids the move. Otherwise the record to store, with status,
/// update time and error message replaced.
pub open spec fn report(
    job: Option<MixJob>,
    new_status: JobStatus,
    now: BlockNumber,
    error_code: Option<Seq<u8>>,
) -> Result<MixJob, Error> {
    match job {
        None => Err(Error::NotFound),
        Some(job) => if job.status.allows(new_status) {
            Ok(job.moved_to(new_status, now, error_code))
        } else {
            Err(Error::InvalidTransition)
        },
    }
}

/// The mathematical value of an optional job record.
pub open spec fn job_view(job: Option<MixJobInfo>) -> Option<MixJob> {
    match job {
        Some(job) => Some(job@),
        None => None,
    }
}

/// Decides `update_job_status`: see [`report`].
///
/// The record comes back with the outcome: updated together with the status
/// it had before where the report is accepted, as it was where not.
pub fn decide_report(
    job: Option<MixJobInfo>,
    new_status: JobStatus,
    now: BlockNumber,
    error_code: Option<ShortBytes>,
) -> (r: (Option<MixJobInfo>, Result<JobStatus, Error>))
    ensures
        match report(job_view(job), new_status, now, message_bytes(error_code)) {
            Ok(moved) => job_view(r.0) == Some(moved) && r.1 == Ok::<JobStatus, Error>(
                job->Some_0.status,
            ),
            Err(e) => r.0 == job && r.1 == Err::<JobStatus, Error>(e),
        },
{
    match job {
        None => (None, Err(Error::NotFound)),
        Some(mut job) => {
            let outcome = job.apply_status(new_status, now, error_code);
            (Some(job), outcome)
        },
    }
}

} // verus!
