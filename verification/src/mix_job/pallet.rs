//! The tracker with its storage.

use crate::bounded::ShortBytes;
use crate::mix_job::event::Error;
use crate::mix_job::event::Event;
use crate::mix_job::job::message_bytes;
use crate::mix_job::job::MixJob;
use crate::mix_job::job::MixJobInfo;
use crate::mix_job::model::State;
use crate::mix_job::rules::admission;
use crate::mix_job::rules::decide_report;
use crate::mix_job::status::JobStatus;
use crate::primitives::AccountId;
use crate::primitives::BlockNumber;
use crate::primitives::ElectionId;
use crate::primitives::JobId;
use std::collections::HashMap;
use vstd::prelude::*;

verus! {

broadcast use vstd::std_specs::hash::group_hash_axioms;

/// What a deployment fixes for the tracker.
#[derive(Clone, Copy, Debug, PartialEq, Eq)]
pub struct Config {
    /// Most jobs that may be live at once.
    pub max_jobs: u32,
}

impl Config {
    /// Decides whether a job may be taken on while `live_jobs` jobs are live
    /// and the id counter stands at `next_job_id`, and if so returns the
    /// counter's next value.
    pub fn check_admission(&self, live_jobs: usize, next_job_id: JobId) -> (r: Result<JobId, Error>)
        ensures
            r == admission(live_jobs as nat, self.max_jobs, next_job_id),
    {
        if live_jobs >= self.max_jobs as usize {
            return Err(Error::LimitReached);
        }
        match next_job_id.checked_add(1) {
            Some(next_id) => Ok(next_id),
            None => Err(Error::Overflow),
        }
    }
}

/// The mix job tracker: the job table, the id counter and the per-election
/// index, under a fixed configuration.
pub struct Pallet {
    config: Config,
    next_job_id: JobId,
    jobs: HashMap<JobId, MixJobInfo>,
    last_job_for_election: HashMap<ElectionId, JobId>,
}

impl View for Pallet {
    type V = State;

    closed spec fn view(&self) -> State {
        State {
            next_job_id: self.next_job_id,
            jobs: self.jobs@.map_values(|job: MixJobInfo| job@),
            last_job_for_election: self.last_job_for_election@,
        }
    }
}

impl Pallet {
    /// The configured limit on live jobs.
    pub closed spec fn max_jobs(&self) -> u32 {
        self.config.max_jobs
    }

    /// The tracker's state is one that the calls can reach.
    pub open spec fn wf(&self) -> bool {
        self@.valid(self.max_jobs())
    }

    /// A tracker with no jobs, whose counter starts at zero.
    pub fn new(config: Config) -> (pallet: Pallet)
        ensures
            pallet@ == State::empty(),
            pallet.max_jobs() == config.max_jobs,
            pallet.wf(),
    {
        let pallet = Pallet {
            config,
            next_job_id: 0,
            jobs: HashMap::new(),
            last_job_for_election: HashMap::new(),
        };
        assert(pallet@.jobs =~= Map::<JobId, MixJob>::empty());
        pallet
    }

    /// Submits a mixing job for `election_id` on behalf of `caller` at time
    /// `now`, and returns the event to emit.
    ///
    /// The outcome and the new state are exactly those of
    /// [`State::submit_job`]; a rejected call changes nothing.
    pub fn submit_job(&mut self, caller: AccountId, now: BlockNumber, election_id: ElectionId) -> (r:
        Result<Event, Error>)
        requires
            old(self).wf(),
        ensures
            final(self).wf(),
            final(self).max_jobs() == old(self).max_jobs(),
            (final(self)@, r) == old(self)@.submit_job(
                old(self).max_jobs(),
                caller,
                now,
                election_id,
            ),
    {
        proof {
            self.lemma_job_ids();
        }
        let job_id = self.next_job_id;
        let next_id = match self.config.check_admission(self.jobs.len(), job_id) {
            Ok(next_id) => next_id,
            Err(e) => {
                return Err(e);
            },
        };
        self.next_job_id = next_id;
        let info = MixJobInfo::pending(job_id, caller, election_id, now);
        self.jobs.insert(job_id, info);
        self.last_job_for_election.insert(election_id, job_id);
        proof {
            let before = old(self)@;
            let expected = before.submit_job(old(self).max_jobs(), caller, now, election_id).0;
            assert(self@.jobs =~= expected.jobs);
        }
        Ok(Event::JobSubmitted { job_id, election_id, requester: caller })
    }

    /// Records a worker's status report for `job_id` at time `now`, and
    /// returns the event to emit. `caller` is accepted as given: the tracker
    /// lets any caller report on any job.
    ///
    /// The outcome and the new state are exactly those of
    /// [`State::update_job_status`]; a rejected call changes nothing.
    pub fn update_job_status(
        &mut self,
        caller: AccountId,
        now: BlockNumber,
        job_id: JobId,
        new_status: JobStatus,
        error_code: Option<ShortBytes>,
    ) -> (r: Result<Event, Error>)
        requires
            old(self).wf(),
        ensures
            final(self).wf(),
            final(self).max_jobs() == old(self).max_jobs(),
            (final(self)@, r) == old(self)@.update_job_status(
                caller,
                now,
                job_id,
                new_status,
                message_bytes(error_code),
            ),
    {
        let (job, outcome) = decide_report(self.jobs.remove(&job_id), new_status, now, error_code);
        match job {
            Some(job) => {
                self.jobs.insert(job_id, job);
            },
            None => {},
        }
        proof {
            let expected = old(self)@.update_job_status(
                caller,
                now,
                job_id,
                new_status,
                message_bytes(error_code),
            ).0;
            assert(self@.jobs =~= expected.jobs);
        }
        match outcome {
            Ok(old_status) => Ok(
                Event::JobStatusUpdated {
                    job_id,
                    old_status: old_status.code(),
                    new_status: new_status.code(),
                },
            ),
            Err(e) => Err(e),
        }
    }

    /// The id the next submitted job will get.
    pub fn next_job_id(&self) -> (id: JobId)
        ensures
            id == self@.next_job_id,
    {
        self.next_job_id
    }

    /// The record of job `job_id`, if there is one.
    pub fn jobs(&self, job_id: JobId) -> (job: Option<&MixJobInfo>)
        ensures
            job is Some <==> self@.jobs.contains_key(job_id),
            job matches Some(j) ==> j@ == self@.jobs[job_id],
    {
        self.jobs.get(&job_id)
    }

    /// The id of the latest job submitted for `election_id`, if any was.
    pub fn last_job_for_election(&self, election_id: ElectionId) -> (id: Option<JobId>)
        ensures
            id is Some <==> self@.last_job_for_election.contains_key(election_id),
            id matches Some(j) ==> j == self@.last_job_for_election[election_id],
    {
        match self.last_job_for_election.get(&election_id) {
            Some(id) => Some(*id),
            None => None,
        }
    }

    /// How many jobs are live.
    pub fn job_count(&self) -> (n: usize)
        ensures
            n == self@.job_count(),
    {
        proof {
            self.lemma_job_ids();
        }
        self.jobs.len()
    }

    /// How many elections have an entry in the latest-job index.
    pub fn indexed_elections(&self) -> (n: usize)
        ensures
            n == self@.last_job_for_election.dom().len(),
    {
        self.last_job_for_election.len()
    }

    /// The ids in the job table are the ids of the state's jobs.
    proof fn lemma_job_ids(&self)
        ensures
            self@.jobs.dom() == self.jobs@.dom(),
            self@.job_count() == self.jobs@.len(),
    {
        assert(self@.jobs.dom() =~= self.jobs@.dom());
    }
}

} // verus!
