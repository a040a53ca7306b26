use polokol::bounded::ShortBytes;
use polokol::mix_job::job::MixJobInfo;
use polokol::mix_job::Config;
use polokol::mix_job::Error;
use polokol::mix_job::Event;
use polokol::mix_job::JobStatus;
use polokol::mix_job::Pallet;

const ALICE: u64 = 1;

fn new_tracker() -> Pallet {
    Pallet::new(Config { max_jobs: 10 })
}

fn message(text: &str) -> Option<ShortBytes> {
    Some(ShortBytes::try_from(text.as_bytes().to_vec()).unwrap())
}

#[test]
fn submit_job_creates_job_and_increments_counter() {
    let mut mix_job = new_tracker();
    let now: u64 = 1;

    // Arrange: start with empty storage
    assert_eq!(mix_job.next_job_id(), 0);
    assert_eq!(mix_job.job_count(), 0);
    assert_eq!(mix_job.indexed_elections(), 0);

    // Act: call submit_job(ALICE, 47)
    let outcome = mix_job.submit_job(ALICE, now, 47);
    assert!(outcome.is_ok());

    // Assert: NextJobId == 1
    assert_eq!(mix_job.next_job_id(), 1);

    // Assert: Jobs(0) exists with correct fields
    let job = mix_job.jobs(0).unwrap();
    assert_eq!(job.job_id, 0);
    assert_eq!(job.requester, 1);
    assert_eq!(job.election_id, 47);
    assert_eq!(job.status, JobStatus::Pending);
    assert_eq!(job.error_code, None);

    // Assert: LastJobForElection(47) == 0
    assert_eq!(mix_job.last_job_for_election(47), Some(0));

    // Assert: JobSubmitted event fired
    assert_eq!(outcome, Ok(Event::JobSubmitted { job_id: 0, election_id: 47, requester: 1 }));
}

#[test]
fn submit_job_respects_max_jobs_limit() {
    let mut mix_job = new_tracker();

    // Arrange: create MaxJobs jobs (MaxJobs = 10)
    for i in 0..10 {
        assert!(mix_job.submit_job(ALICE, 0, i as u32).is_ok());
    }
    assert_eq!(mix_job.job_count(), 10);

    // Act: try to submit one more job
    assert_eq!(mix_job.submit_job(ALICE, 0, 100), Err(Error::LimitReached));

    // Nothing was written by the rejected call.
    assert_eq!(mix_job.job_count(), 10);
    assert_eq!(mix_job.next_job_id(), 10);
    assert_eq!(mix_job.last_job_for_election(100), None);
}

#[test]
fn update_job_status_allows_valid_transitions() {
    let mut mix_job = new_tracker();
    let now: u64 = 1;

    // Arrange: create a job in Pending
    assert!(mix_job.submit_job(ALICE, now, 47).is_ok());
    assert_eq!(mix_job.jobs(0).unwrap().status, JobStatus::Pending);

    // Act: update to Running
    let outcome = mix_job.update_job_status(ALICE, now, 0, JobStatus::Running, None);
    assert!(outcome.is_ok());

    // Assert: status changed and event fired
    assert_eq!(mix_job.jobs(0).unwrap().status, JobStatus::Running);
    assert_eq!(
        outcome,
        Ok(Event::JobStatusUpdated {
            job_id: 0,
            old_status: JobStatus::Pending as u8,
            new_status: JobStatus::Running as u8,
        })
    );

    // Act: update to Completed
    let outcome = mix_job.update_job_status(ALICE, now, 0, JobStatus::Completed, None);
    assert!(outcome.is_ok());

    // Assert: final status and event
    assert_eq!(mix_job.jobs(0).unwrap().status, JobStatus::Completed);
    assert_eq!(
        outcome,
        Ok(Event::JobStatusUpdated {
            job_id: 0,
            old_status: JobStatus::Running as u8,
            new_status: JobStatus::Completed as u8,
        })
    );
}

#[test]
fn update_job_status_blocks_invalid_transitions() {
    let mut mix_job = new_tracker();

    // Arrange: create a job and set it to Completed
    assert!(mix_job.submit_job(ALICE, 0, 47).is_ok());
    assert!(mix_job.update_job_status(ALICE, 0, 0, JobStatus::Completed, None).is_ok());
    assert_eq!(mix_job.jobs(0).unwrap().status, JobStatus::Completed);

    // Act: try to move back to Running (invalid transition)
    assert_eq!(
        mix_job.update_job_status(ALICE, 0, 0, JobStatus::Running, None),
        Err(Error::InvalidTransition)
    );

    // Assert: status remains Completed
    assert_eq!(mix_job.jobs(0).unwrap().status, JobStatus::Completed);
}

#[test]
fn job_scenario_from_submission_to_completion() {
    let mut mix_job = new_tracker();
    assert_eq!(mix_job.next_job_id(), 0);
    assert_eq!(
        mix_job.submit_job(ALICE, 3, 47),
        Ok(Event::JobSubmitted { job_id: 0, election_id: 47, requester: ALICE })
    );
    assert_eq!(mix_job.last_job_for_election(47), Some(0));
    assert!(mix_job.update_job_status(ALICE, 4, 0, JobStatus::Running, None).is_ok());
    assert!(mix_job.update_job_status(ALICE, 5, 0, JobStatus::Completed, None).is_ok());
    assert_eq!(
        mix_job.update_job_status(ALICE, 6, 0, JobStatus::Running, None),
        Err(Error::InvalidTransition)
    );
}

#[test]
fn new_job_is_pending_and_stamped_with_the_current_block() {
    let mut mix_job = new_tracker();
    mix_job.submit_job(9, 12, 5).unwrap();
    let job = mix_job.jobs(0).unwrap();
    assert_eq!(job.created_at, 12);
    assert_eq!(job.last_update, 12);
    assert_eq!(job.source_para, None);
    assert_eq!(job.requester, 9);
    assert_eq!(*job, MixJobInfo::pending(0, 9, 5, 12));
}

#[test]
fn job_ids_count_up_and_the_index_keeps_the_latest() {
    let mut mix_job = new_tracker();
    assert_eq!(
        mix_job.submit_job(1, 0, 47),
        Ok(Event::JobSubmitted { job_id: 0, election_id: 47, requester: 1 })
    );
    assert_eq!(
        mix_job.submit_job(2, 0, 48),
        Ok(Event::JobSubmitted { job_id: 1, election_id: 48, requester: 2 })
    );
    assert_eq!(
        mix_job.submit_job(3, 0, 47),
        Ok(Event::JobSubmitted { job_id: 2, election_id: 47, requester: 3 })
    );
    assert_eq!(mix_job.last_job_for_election(47), Some(2));
    assert_eq!(mix_job.last_job_for_election(48), Some(1));
    assert_eq!(mix_job.last_job_for_election(49), None);
    assert_eq!(mix_job.indexed_elections(), 2);
    assert_eq!(mix_job.job_count(), 3);
    assert_eq!(mix_job.next_job_id(), 3);
    // The earlier job of election 47 is still there.
    assert_eq!(mix_job.jobs(0).unwrap().election_id, 47);
}

#[test]
fn update_of_unknown_job_is_not_found() {
    let mut mix_job = new_tracker();
    assert_eq!(
        mix_job.update_job_status(ALICE, 0, 0, JobStatus::Running, None),
        Err(Error::NotFound)
    );
    mix_job.submit_job(ALICE, 0, 47).unwrap();
    assert_eq!(
        mix_job.update_job_status(ALICE, 0, 1, JobStatus::Running, None),
        Err(Error::NotFound)
    );
    assert_eq!(mix_job.job_count(), 1);
}

fn job_in(status: JobStatus) -> Pallet {
    let mut mix_job = new_tracker();
    mix_job.submit_job(ALICE, 0, 47).unwrap();
    if status != JobStatus::Pending {
        mix_job.update_job_status(ALICE, 0, 0, status, None).unwrap();
    }
    assert_eq!(mix_job.jobs(0).unwrap().status, status);
    mix_job
}

const ALL: [JobStatus; 4] =
    [JobStatus::Pending, JobStatus::Running, JobStatus::Completed, JobStatus::Failed];

#[test]
fn pending_job_may_move_to_every_status() {
    for to in ALL {
        let mut mix_job = job_in(JobStatus::Pending);
        assert!(mix_job.update_job_status(ALICE, 1, 0, to, None).is_ok());
        assert_eq!(mix_job.jobs(0).unwrap().status, to);
    }
}

#[test]
fn running_job_may_not_go_back_to_pending() {
    for to in ALL {
        let mut mix_job = job_in(JobStatus::Running);
        let outcome = mix_job.update_job_status(ALICE, 1, 0, to, None);
        if to == JobStatus::Pending {
            assert_eq!(outcome, Err(Error::InvalidTransition));
            assert_eq!(mix_job.jobs(0).unwrap().status, JobStatus::Running);
        } else {
            assert!(outcome.is_ok());
            assert_eq!(mix_job.jobs(0).unwrap().status, to);
        }
    }
}

#[test]
fn completed_and_failed_jobs_accept_no_report() {
    for from in [JobStatus::Completed, JobStatus::Failed] {
        for to in ALL {
            let mut mix_job = job_in(from);
            assert_eq!(
                mix_job.update_job_status(ALICE, 1, 0, to, None),
                Err(Error::InvalidTransition)
            );
            assert_eq!(mix_job.jobs(0).unwrap().status, from);
            assert_eq!(mix_job.jobs(0).unwrap().last_update, 0);
        }
    }
}

#[test]
fn transition_table_matches_the_lattice() {
    let allowed = [
        (JobStatus::Pending, JobStatus::Pending),
        (JobStatus::Pending, JobStatus::Running),
        (JobStatus::Pending, JobStatus::Completed),
        (JobStatus::Pending, JobStatus::Failed),
        (JobStatus::Running, JobStatus::Running),
        (JobStatus::Running, JobStatus::Completed),
        (JobStatus::Running, JobStatus::Failed),
    ];
    for from in ALL {
        for to in ALL {
            assert_eq!(from.can_transition_to(to), allowed.contains(&(from, to)));
        }
    }
}

#[test]
fn status_codes_are_the_declaration_order() {
    assert_eq!(JobStatus::Pending.code(), 0);
    assert_eq!(JobStatus::Running.code(), 1);
    assert_eq!(JobStatus::Completed.code(), 2);
    assert_eq!(JobStatus::Failed.code(), 3);
    for status in ALL {
        assert_eq!(status.code(), status as u8);
    }
}

#[test]
fn any_caller_may_report_on_any_job() {
    let mut mix_job = new_tracker();
    mix_job.submit_job(ALICE, 0, 47).unwrap();
    let stranger: u64 = 999;
    assert_eq!(
        mix_job.update_job_status(stranger, 2, 0, JobStatus::Failed, message("worker lost")),
        Ok(Event::JobStatusUpdated { job_id: 0, old_status: 0, new_status: 3 })
    );
    let job = mix_job.jobs(0).unwrap();
    assert_eq!(job.requester, ALICE);
    assert_eq!(job.status, JobStatus::Failed);
}

#[test]
fn report_overwrites_update_time_and_error_message() {
    let mut mix_job = new_tracker();
    mix_job.submit_job(ALICE, 1, 47).unwrap();

    mix_job.update_job_status(ALICE, 5, 0, JobStatus::Running, message("retrying")).unwrap();
    let job = mix_job.jobs(0).unwrap();
    assert_eq!(job.created_at, 1);
    assert_eq!(job.last_update, 5);
    assert_eq!(job.error_code.as_ref().unwrap().to_vec(), b"retrying".to_vec());

    // A self-loop refreshes the metadata; a missing message clears the old one.
    mix_job.update_job_status(ALICE, 8, 0, JobStatus::Running, None).unwrap();
    let job = mix_job.jobs(0).unwrap();
    assert_eq!(job.status, JobStatus::Running);
    assert_eq!(job.last_update, 8);
    assert_eq!(job.error_code, None);

    mix_job.update_job_status(ALICE, 9, 0, JobStatus::Failed, message("bad proof")).unwrap();
    let job = mix_job.jobs(0).unwrap();
    assert_eq!(job.error_code.as_ref().unwrap().to_vec(), b"bad proof".to_vec());
    assert_eq!(job.last_update, 9);
    assert_eq!(job.job_id, 0);
    assert_eq!(job.election_id, 47);
}

#[test]
fn limit_once_reached_stays_reached() {
    let mut mix_job = Pallet::new(Config { max_jobs: 2 });
    mix_job.submit_job(ALICE, 0, 1).unwrap();
    mix_job.submit_job(ALICE, 0, 2).unwrap();
    assert_eq!(mix_job.submit_job(ALICE, 0, 3), Err(Error::LimitReached));
    // Finishing jobs frees no room: jobs are never deleted.
    mix_job.update_job_status(ALICE, 1, 0, JobStatus::Completed, None).unwrap();
    mix_job.update_job_status(ALICE, 1, 1, JobStatus::Failed, None).unwrap();
    assert_eq!(mix_job.submit_job(ALICE, 2, 3), Err(Error::LimitReached));
    assert_eq!(mix_job.submit_job(7, 3, 1), Err(Error::LimitReached));
    assert_eq!(mix_job.job_count(), 2);
    assert_eq!(mix_job.next_job_id(), 2);
}

#[test]
fn a_limit_of_zero_takes_no_job() {
    let mut mix_job = Pallet::new(Config { max_jobs: 0 });
    assert_eq!(mix_job.submit_job(ALICE, 0, 47), Err(Error::LimitReached));
    assert_eq!(mix_job.job_count(), 0);
}

#[test]
fn admission_checks_the_limit_before_the_counter() {
    let config = Config { max_jobs: 10 };
    assert_eq!(config.check_admission(0, 0), Ok(1));
    assert_eq!(config.check_admission(9, 41), Ok(42));
    assert_eq!(config.check_admission(10, 41), Err(Error::LimitReached));
    assert_eq!(config.check_admission(11, 41), Err(Error::LimitReached));
    assert_eq!(config.check_admission(0, u64::MAX - 1), Ok(u64::MAX));
    assert_eq!(config.check_admission(0, u64::MAX), Err(Error::Overflow));
    assert_eq!(config.check_admission(10, u64::MAX), Err(Error::LimitReached));
}

#[test]
fn apply_status_reports_the_previous_status() {
    let mut job = MixJobInfo::pending(4, ALICE, 47, 10);
    assert_eq!(job.apply_status(JobStatus::Running, 11, None), Ok(JobStatus::Pending));
    assert_eq!(job.apply_status(JobStatus::Failed, 12, message("x")), Ok(JobStatus::Running));
    let before = job.clone();
    assert_eq!(job.apply_status(JobStatus::Pending, 13, None), Err(Error::InvalidTransition));
    assert_eq!(job, before);
}
