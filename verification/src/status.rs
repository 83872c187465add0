//! The kinds of remote job, the status of a job, and the one place that says
//! which statuses end it.

use crate::text::same_text;
use vstd::prelude::*;

verus! {

/// The kind of a remote job.
#[derive(Clone, Copy, Debug, PartialEq, Eq, Structural)]
pub enum JobKind {
    /// Text is turned into speech.
    Tts,
    /// An audio file drives an image.
    FaceAnimation,
}

/// Progress of a remote job, as the service reports it.
///
/// The client only observes a status; the service alone moves a job from one
/// status to the next.
#[derive(Clone, Copy, Debug, PartialEq, Eq, Structural)]
pub enum JobStatus {
    /// One attempt failed; the service retries the job on its own.
    AttemptFailed,
    /// The job failed for good.
    CompleteFailure,
    /// The job finished and its result, if any, is available.
    CompleteSuccess,
    /// The job was given up by the service.
    Dead,
    /// The job waits for a worker.
    Pending,
    /// A worker has picked the job up.
    Started,
}

impl JobStatus {
    /// Whether the job finished with a result.
    #[verifier::when_used_as_spec(spec_is_success)]
    pub fn is_success(&self) -> (b: bool)
        ensures
            b == self.spec_is_success(),
    {
        match self {
            JobStatus::CompleteSuccess => true,
            _ => false,
        }
    }

    /// What [`JobStatus::is_success`] computes.
    pub open spec fn spec_is_success(&self) -> bool {
        *self == JobStatus::CompleteSuccess
    }

    /// Whether the job ended without a result.
    ///
    /// `AttemptFailed` is not a failure of the job: the service retries it, so
    /// a client keeps polling.
    #[verifier::when_used_as_spec(spec_is_failure)]
    pub fn is_failure(&self) -> (b: bool)
        ensures
            b == self.spec_is_failure(),
    {
        match self {
            JobStatus::CompleteFailure | JobStatus::Dead => true,
            _ => false,
        }
    }

    /// What [`JobStatus::is_failure`] computes.
    pub open spec fn spec_is_failure(&self) -> bool {
        *self == JobStatus::CompleteFailure || *self == JobStatus::Dead
    }

    /// Whether no further transition follows this status.
    #[verifier::when_used_as_spec(spec_is_terminal)]
    pub fn is_terminal(&self) -> (b: bool)
        ensures
            b == self.spec_is_terminal(),
    {
        self.is_success() || self.is_failure()
    }

    /// What [`JobStatus::is_terminal`] computes.
    pub open spec fn spec_is_terminal(&self) -> bool {
        self.spec_is_success() || self.spec_is_failure()
    }

    /// The name of the status in what the service sends.
    pub open spec fn spec_name(self) -> Seq<char> {
        match self {
            JobStatus::AttemptFailed => "attempt_failed"@,
            JobStatus::CompleteFailure => "complete_failure"@,
            JobStatus::CompleteSuccess => "complete_success"@,
            JobStatus::Dead => "dead"@,
            JobStatus::Pending => "pending"@,
            JobStatus::Started => "started"@,
        }
    }

    /// The name of the status in what the service sends.
    pub fn name(&self) -> (name: &'static str)
        ensures
            name@ == self.spec_name(),
    {
        match self {
            JobStatus::AttemptFailed => "attempt_failed",
            JobStatus::CompleteFailure => "complete_failure",
            JobStatus::CompleteSuccess => "complete_success",
            JobStatus::Dead => "dead",
            JobStatus::Pending => "pending",
            JobStatus::Started => "started",
        }
    }

    /// The status that the service calls `name`, if it is the name of one.
    pub fn from_name(name: &str) -> (status: Option<JobStatus>)
        ensures
            match status {
                Some(status) => status.spec_name() == name@,
                None => forall|other: JobStatus| other.spec_name() != name@,
            },
            forall|other: JobStatus| other.spec_name() == name@ ==> status == Some(other),
    {
        let status = if same_text(name, "attempt_failed") {
            Some(JobStatus::AttemptFailed)
        } else if same_text(name, "complete_failure") {
            Some(JobStatus::CompleteFailure)
        } else if same_text(name, "complete_success") {
            Some(JobStatus::CompleteSuccess)
        } else if same_text(name, "dead") {
            Some(JobStatus::Dead)
        } else if same_text(name, "pending") {
            Some(JobStatus::Pending)
        } else if same_text(name, "started") {
            Some(JobStatus::Started)
        } else {
            None
        };
        proof {
            if let Some(found) = status {
                assert forall|other: JobStatus| other.spec_name() == name@ implies found
                    == other by {
                    JobStatus::lemma_name_determines_status(found, other);
                }
            }
        }
        status
    }

    /// No two statuses share a name, so a name stands for one status at most.
    pub proof fn lemma_name_determines_status(a: JobStatus, b: JobStatus)
        requires
            a.spec_name() == b.spec_name(),
        ensures
            a == b,
    {
        reveal_strlit("attempt_failed");
        reveal_strlit("complete_failure");
        reveal_strlit("complete_success");
        reveal_strlit("dead");
        reveal_strlit("pending");
        reveal_strlit("started");
        assert("attempt_failed"@.len() == 14);
        assert("complete_failure"@.len() == 16 && "complete_failure"@[9] == 'f');
        assert("complete_success"@.len() == 16 && "complete_success"@[9] == 's');
        assert("dead"@.len() == 4);
        assert("pending"@.len() == 7 && "pending"@[0] == 'p');
        assert("started"@.len() == 7 && "started"@[0] == 's');
    }
}

} // verus!
