//! The tracker as a mathematical state machine.
//!
//! A [`State`] is what the ledger persists for the tracker. Each call is a
//! function from a state to the next state and the call's outcome; a rejected
//! call hands the state back unchanged.

use crate::mix_job::event::Error;
use crate::mix_job::event::Event;
use crate::mix_job::job::MixJob;
use crate::mix_job::rules::admission;
use crate::mix_job::rules::report;
use crate::mix_job::status::JobStatus;
use crate::primitives::AccountId;
use crate::primitives::BlockNumber;
use crate::primitives::ElectionId;
use crate::primitives::JobId;
use vstd::prelude::*;

verus! {

/// Everything the tracker persists.
pub struct State {
    /// The id the next submitted job will get.
    pub next_job_id: JobId,
    /// The live jobs, by id.
    pub jobs: Map<JobId, MixJob>,
    /// For each election that ever had a job, the id of its latest one.
    pub last_job_for_election: Map<ElectionId, JobId>,
}

/// One call into the tracker, with the caller and the time the ledger
/// supplied alongside it.
pub enum Call {
    SubmitJob { caller: AccountId, now: BlockNumber, election_id: ElectionId },
    UpdateJobStatus {
        caller: AccountId,
        now: BlockNumber,
        job_id: JobId,
        new_status: JobStatus,
        error_code: Option<Seq<u8>>,
    },
}

impl State {
    /// The state of a tracker that has seen no call.
    pub open spec fn empty() -> State {
        State { next_job_id: 0, jobs: Map::empty(), last_job_for_election: Map::empty() }
    }

    /// The record of `job_id`, if there is one.
    pub open spec fn job(self, job_id: JobId) -> Option<MixJob> {
        if self.jobs.contains_key(job_id) {
            Some(self.jobs[job_id])
        } else {
            None
        }
    }

    /// How many jobs are live.
    pub open spec fn job_count(self) -> nat {
        self.jobs.dom().len()
    }

    /// What holds of every state the tracker can reach under a limit of
    /// `max_jobs`:
    /// the live jobs are finitely many and no more than the limit; every job
    /// is stored under its own id, which is below the counter (so the counter
    /// never hands out a used id); and the per-election index points at a
    /// job of that election, the one with the largest id.
    pub open spec fn valid(self, max_jobs: u32) -> bool {
        &&& self.jobs.dom().finite()
        &&& self.job_count() <= max_jobs
        &&& forall|id: JobId| #[trigger]
            self.jobs.contains_key(id) ==> id < self.next_job_id && self.jobs[id].job_id == id
        &&& forall|e: ElectionId| #[trigger]
            self.last_job_for_election.contains_key(e) ==> self.jobs.contains_key(
                self.last_job_for_election[e],
            ) && self.jobs[self.last_job_for_election[e]].election_id == e
        &&& forall|id: JobId| #[trigger]
            self.jobs.contains_key(id) ==> self.last_job_for_election.contains_key(
                self.jobs[id].election_id,
            ) && id <= self.last_job_for_election[self.jobs[id].election_id]
    }

    /// `submit_job`: rejected as [`admission`] says. Otherwise the counter's
    /// value becomes the id of a new pending job, the counter moves on by
    /// one, and the election's index entry is overwritten with the new id.
    pub open spec fn submit_job(
        self,
        max_jobs: u32,
        caller: AccountId,
        now: BlockNumber,
        election_id: ElectionId,
    ) -> (State, Result<Event, Error>) {
        match admission(self.job_count(), max_jobs, self.next_job_id) {
            Err(e) => (self, Err(e)),
            Ok(next_job_id) => {
                let job_id = self.next_job_id;
                (
                    State {
                        next_job_id,
                        jobs: self.jobs.insert(
                            job_id,
                            MixJob::pending(job_id, caller, election_id, now),
                        ),
                        last_job_for_election: self.last_job_for_election.insert(
                            election_id,
                            job_id,
                        ),
                    },
                    Ok(Event::JobSubmitted { job_id, election_id, requester: caller }),
                )
            },
        }
    }

    /// `update_job_status`: decided by [`report`]. When accepted, the job's
    /// record is replaced by the one with the new status, update time and
    /// error message. The caller is not looked at: any caller may report on
    /// any job.
    pub open spec fn update_job_status(
        self,
        caller: AccountId,
        now: BlockNumber,
        job_id: JobId,
        new_status: JobStatus,
        error_code: Option<Seq<u8>>,
    ) -> (State, Result<Event, Error>) {
        match report(self.job(job_id), new_status, now, error_code) {
            Err(e) => (self, Err(e)),
            Ok(moved) => (
                State { jobs: self.jobs.insert(job_id, moved), ..self },
                Ok(
                    Event::JobStatusUpdated {
                        job_id,
                        old_status: self.jobs[job_id].status.code_of(),
                        new_status: new_status.code_of(),
                    },
                ),
            ),
        }
    }

    /// The effect of one call.
    pub open spec fn step(self, max_jobs: u32, call: Call) -> (State, Result<Event, Error>) {
        match call {
            Call::SubmitJob { caller, now, election_id } => self.submit_job(
                max_jobs,
                caller,
                now,
                election_id,
            ),
            Call::UpdateJobStatus {
                caller,
                now,
                job_id,
                new_status,
                error_code,
            } => self.update_job_status(caller, now, job_id, new_status, error_code),
        }
    }

    /// The state after a sequence of calls, applied first to last.
    pub open spec fn run(self, max_jobs: u32, calls: Seq<Call>) -> State
        decreases calls.len(),
    {
        if calls.len() == 0 {
            self
        } else {
            self.run(max_jobs, calls.drop_last()).step(max_jobs, calls.last()).0
        }
    }
}

} // verus!
