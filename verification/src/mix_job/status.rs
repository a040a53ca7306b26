//! Job statuses and the transitions allowed between them.

use vstd::prelude::*;

verus! {

/// Where a mixing job stands.
#[derive(Clone, Copy, Debug, PartialEq, Eq, Hash, Structural)]
pub enum JobStatus {
    /// Submitted, not yet picked up by a worker.
    Pending,
    /// A worker is mixing.
    Running,
    /// Mixing finished; terminal.
    Completed,
    /// Mixing failed; terminal.
    Failed,
}

impl JobStatus {
    /// `Completed` and `Failed` are terminal: nothing may follow them.
    pub open spec fn is_terminal(self) -> bool {
        self is Completed || self is Failed
    }

    /// Whether a job in status `self` may move to `next`.
    ///
    /// A job never moves backwards: a terminal status allows nothing, and a
    /// running job cannot become pending again. Staying in place is allowed
    /// for the two live statuses, so that a worker can refresh a job's
    /// metadata.
    pub open spec fn allows(self, next: JobStatus) -> bool {
        !self.is_terminal() && !(self is Running && next is Pending)
    }

    /// The status as the byte carried by events: 0 for `Pending`, 1 for
    /// `Running`, 2 for `Completed`, 3 for `Failed`.
    pub open spec fn code_of(self) -> u8 {
        match self {
            JobStatus::Pending => 0u8,
            JobStatus::Running => 1u8,
            JobStatus::Completed => 2u8,
            JobStatus::Failed => 3u8,
        }
    }

    /// Decides a transition by the explicit table of allowed pairs.
    pub fn can_transition_to(self, next: JobStatus) -> (allowed: bool)
        ensures
            allowed == self.allows(next),
    {
        match (self, next) {
            (JobStatus::Pending, JobStatus::Pending)
            | (JobStatus::Pending, JobStatus::Running)
            | (JobStatus::Pending, JobStatus::Completed)
            | (JobStatus::Pending, JobStatus::Failed)
            | (JobStatus::Running, JobStatus::Running)
            | (JobStatus::Running, JobStatus::Completed)
            | (JobStatus::Running, JobStatus::Failed) => true,
            _ => false,
        }
    }

    /// The byte that stands for this status in events.
    pub fn code(self) -> (c: u8)
        ensures
            c == self.code_of(),
    {
        match self {
            JobStatus::Pending => 0,
            JobStatus::Running => 1,
            JobStatus::Completed => 2,
            JobStatus::Failed => 3,
        }
    }
}

} // verus!
