//! Laws of the tracker, proved of the state machine in
//! [`crate::mix_job::model`].

use crate::mix_job::event::Error;
use crate::mix_job::event::Event;
use crate::mix_job::model::Call;
use crate::mix_job::model::State;
use crate::mix_job::status::JobStatus;
use crate::primitives::AccountId;
use crate::primitives::BlockNumber;
use crate::primitives::ElectionId;
use crate::primitives::JobId;
use vstd::prelude::*;

verus! {

/// The empty tracker is valid under every limit.
pub proof fn law_empty_is_valid(max_jobs: u32)
    ensures
        State::empty().valid(max_jobs),
{
}

/// A call made on a valid state leaves a valid state.
pub proof fn law_step_keeps_valid(s: State, max_jobs: u32, call: Call)
    requires
        s.valid(max_jobs),
    ensures
        s.step(max_jobs, call).0.valid(max_jobs),
{
    let (after, outcome) = s.step(max_jobs, call);
    if outcome is Ok {
        if call is SubmitJob {
            assert(after.jobs.dom() =~= s.jobs.dom().insert(s.next_job_id));
        } else {
            assert(after.jobs.dom() =~= s.jobs.dom());
        }
    }
}

/// Every state reached from a valid one by any sequence of calls is valid.
pub proof fn law_run_keeps_valid(s: State, max_jobs: u32, calls: Seq<Call>)
    requires
        s.valid(max_jobs),
    ensures
        s.run(max_jobs, calls).valid(max_jobs),
    decreases calls.len(),
{
    if calls.len() > 0 {
        law_run_keeps_valid(s, max_jobs, calls.drop_last());
        law_step_keeps_valid(s.run(max_jobs, calls.drop_last()), max_jobs, calls.last());
    }
}

/// A rejected call leaves every persisted value as it was.
pub proof fn law_rejection_changes_nothing(s: State, max_jobs: u32, call: Call)
    requires
        s.step(max_jobs, call).1 is Err,
    ensures
        s.step(max_jobs, call).0 == s,
{
}

/// The status lattice, as seen through `update_job_status`.
///
/// On a job that is `Completed` or `Failed`, every report is rejected with
/// `InvalidTransition`. On a `Pending` job every report is accepted,
/// whichever of the four statuses it names. On a `Running` job a report is
/// accepted unless it names `Pending`, and then it is rejected with
/// `InvalidTransition`. An accepted report leaves the job in the status it
/// names.
pub proof fn law_status_lattice(
    s: State,
    caller: AccountId,
    now: BlockNumber,
    job_id: JobId,
    new_status: JobStatus,
    error_code: Option<Seq<u8>>,
)
    requires
        s.jobs.contains_key(job_id),
    ensures
        ({
            let from = s.jobs[job_id].status;
            let (after, outcome) = s.update_job_status(caller, now, job_id, new_status, error_code);
            &&& from is Completed || from is Failed ==> outcome == Err::<Event, Error>(
                Error::InvalidTransition,
            )
            &&& from is Pending ==> outcome is Ok
            &&& from is Running && !(new_status is Pending) ==> outcome is Ok
            &&& from is Running && new_status is Pending ==> outcome == Err::<Event, Error>(
                Error::InvalidTransition,
            )
            &&& outcome is Ok ==> after.jobs[job_id].status == new_status
            &&& outcome is Err ==> after.jobs[job_id].status == from
        }),
{
}

/// Jobs are never deleted or rewritten and the id counter never goes back:
/// whatever calls follow on a valid state, every job that was live is still
/// live, with the id, election, requester and creation time it had, and the
/// counter is at least what it was.
pub proof fn law_jobs_are_kept(s: State, max_jobs: u32, calls: Seq<Call>, job_id: JobId)
    requires
        s.valid(max_jobs),
        s.jobs.contains_key(job_id),
    ensures
        s.run(max_jobs, calls).jobs.contains_key(job_id),
        s.run(max_jobs, calls).jobs[job_id].job_id == s.jobs[job_id].job_id,
        s.run(max_jobs, calls).jobs[job_id].election_id == s.jobs[job_id].election_id,
        s.run(max_jobs, calls).jobs[job_id].requester == s.jobs[job_id].requester,
        s.run(max_jobs, calls).jobs[job_id].created_at == s.jobs[job_id].created_at,
        s.run(max_jobs, calls).next_job_id >= s.next_job_id,
    decreases calls.len(),
{
    if calls.len() > 0 {
        law_jobs_are_kept(s, max_jobs, calls.drop_last(), job_id);
        law_run_keeps_valid(s, max_jobs, calls.drop_last());
    }
}

/// An id is assigned once. On a valid state an accepted `submit_job` hands
/// out the counter's value, which no live job has, and moves the counter
/// past it; by [`law_jobs_are_kept`] and [`law_run_keeps_valid`] no later
/// call can hand it out again.
pub proof fn law_job_ids_are_fresh(
    s: State,
    max_jobs: u32,
    caller: AccountId,
    now: BlockNumber,
    election_id: ElectionId,
)
    requires
        s.valid(max_jobs),
        s.submit_job(max_jobs, caller, now, election_id).1 is Ok,
    ensures
        ({
            let (after, outcome) = s.submit_job(max_jobs, caller, now, election_id);
            &&& outcome == Ok::<Event, Error>(
                Event::JobSubmitted { job_id: s.next_job_id, election_id, requester: caller },
            )
            &&& !s.jobs.contains_key(s.next_job_id)
            &&& after.next_job_id == s.next_job_id + 1
            &&& after.job_count() == s.job_count() + 1
            &&& after.last_job_for_election[election_id] == s.next_job_id
        }),
{
    let after = s.submit_job(max_jobs, caller, now, election_id).0;
    assert(after.jobs.dom() =~= s.jobs.dom().insert(s.next_job_id));
}

/// `submit_job` is accepted exactly when the live jobs are below the limit
/// and the counter can still advance; at or above the limit it is rejected
/// with `LimitReached`.
pub proof fn law_submit_job_acceptance(
    s: State,
    max_jobs: u32,
    caller: AccountId,
    now: BlockNumber,
    election_id: ElectionId,
)
    ensures
        s.submit_job(max_jobs, caller, now, election_id).1 is Ok <==> s.job_count() < max_jobs
            && s.next_job_id < u64::MAX,
        s.job_count() >= max_jobs ==> s.submit_job(max_jobs, caller, now, election_id).1 == Err::<
            Event,
            Error,
        >(Error::LimitReached),
{
}

/// Once the live jobs have reached the limit, `submit_job` is rejected with
/// `LimitReached` for good: no call removes a job, so whatever calls follow,
/// the count stays where it is.
pub proof fn law_limit_is_permanent(
    s: State,
    max_jobs: u32,
    calls: Seq<Call>,
    caller: AccountId,
    now: BlockNumber,
    election_id: ElectionId,
)
    requires
        s.jobs.dom().finite(),
        s.job_count() >= max_jobs,
    ensures
        s.run(max_jobs, calls).job_count() == s.job_count(),
        s.run(max_jobs, calls).submit_job(max_jobs, caller, now, election_id).1 == Err::<
            Event,
            Error,
        >(Error::LimitReached),
    decreases calls.len(),
{
    if calls.len() > 0 {
        let before = s.run(max_jobs, calls.drop_last());
        law_limit_is_permanent(s, max_jobs, calls.drop_last(), caller, now, election_id);
        assert(before.step(max_jobs, calls.last()).0.jobs.dom() =~= before.jobs.dom());
    }
}

} // verus!
