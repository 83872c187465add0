//! The polling protocol: after each answer to a status request, go on or stop.
//!
//! A [`JobPoller`] stands for a job that is still being watched. The caller
//! sends a request to [`JobPoller::request_url`], hands what came back to
//! [`JobPoller::step`], and gets either the poller back, to ask again after
//! [`JobPoller::interval_secs`] seconds, or the job's outcome. There is no
//! poller left once the outcome is out, so nothing can be asked after it.
//!
//! `AttemptFailed` does not end the polling: the service retries such a job
//! on its own, and the client keeps asking until the job completes, fails for
//! good or is declared dead. There is no limit on the number of polls;
//! stopping early is up to the caller, who may drop the poller at any time.

use crate::endpoint::{Endpoint, BASE_URL};
use crate::error::{classify_failure, Error, TransportFailure};
use crate::model::{FaceAnimationJobResponse, TtsJobResponse};
use crate::status::{JobKind, JobStatus};
use vstd::prelude::*;

verus! {

/// Seconds between two polls of a text-to-speech job, unless set otherwise.
pub const TTS_POLL_INTERVAL_SECS: u64 = 8;

/// Seconds between two polls of a face-animation job, unless set otherwise.
pub const FACE_ANIMATION_POLL_INTERVAL_SECS: u64 = 10;

/// What one answer to a status request means for the polling.
#[derive(Clone, Copy, Debug, PartialEq, Eq, Structural)]
pub enum Verdict {
    /// The job is still under way.
    KeepPolling,
    /// The job completed.
    Succeeded,
    /// The job will not complete.
    Failed,
}

/// The verdict on an answer, from its `success` flag and the job status in it.
/// A `success` flag that is off overrides whatever the status says.
pub open spec fn verdict(success: bool, status: JobStatus) -> Verdict {
    if !success {
        Verdict::Failed
    } else if status.spec_is_success() {
        Verdict::Succeeded
    } else if status.spec_is_failure() {
        Verdict::Failed
    } else {
        Verdict::KeepPolling
    }
}

/// Labels an answer to a status request. Nothing is retried here.
pub fn classify(success: bool, status: JobStatus) -> (v: Verdict)
    ensures
        v == verdict(success, status),
{
    if !success {
        Verdict::Failed
    } else if status.is_success() {
        Verdict::Succeeded
    } else if status.is_failure() {
        Verdict::Failed
    } else {
        Verdict::KeepPolling
    }
}

/// An answer to a status request, of whichever kind of job.
pub trait JobReport: Sized {
    /// The `success` flag of the answer as a whole.
    spec fn reported_success(&self) -> bool;

    /// The job status inside the answer.
    spec fn reported_status(&self) -> JobStatus;

    /// The `success` flag of the answer as a whole.
    fn envelope_success(&self) -> (success: bool)
        ensures
            success == self.reported_success(),
    ;

    /// The job status inside the answer.
    fn job_status(&self) -> (status: JobStatus)
        ensures
            status == self.reported_status(),
    ;
}

impl JobReport for TtsJobResponse {
    open spec fn reported_success(&self) -> bool {
        self.success
    }

    open spec fn reported_status(&self) -> JobStatus {
        self.state.status
    }

    fn envelope_success(&self) -> (success: bool) {
        self.success
    }

    fn job_status(&self) -> (status: JobStatus) {
        self.state.status
    }
}

impl JobReport for FaceAnimationJobResponse {
    open spec fn reported_success(&self) -> bool {
        self.success
    }

    open spec fn reported_status(&self) -> JobStatus {
        self.state.status.status
    }

    fn envelope_success(&self) -> (success: bool) {
        self.success
    }

    fn job_status(&self) -> (status: JobStatus) {
        self.state.status.status
    }
}

/// What came back for one status request: an answer, or the failure of the
/// request itself.
pub type PollEvent<R> = Result<R, TransportFailure>;

/// A job that is being watched until it ends.
#[derive(Clone, Debug, PartialEq, Eq)]
pub struct JobPoller {
    /// Which status endpoint the job is asked at.
    pub kind: JobKind,
    /// The token the job was submitted under.
    pub token: String,
    /// Seconds to let pass between two status requests.
    pub interval_secs: u64,
}

/// Where the polling stands after an event.
#[derive(Debug, PartialEq, Eq)]
pub enum PollStep<R> {
    /// The job is still under way: wait, then ask again.
    Continue(JobPoller),
    /// The polling is over, with this outcome.
    Finished(Result<R, Error>),
}

impl JobPoller {
    /// Starts watching a text-to-speech job.
    pub fn tts(token: String) -> (poller: JobPoller)
        ensures
            poller == (JobPoller {
                kind: JobKind::Tts,
                token,
                interval_secs: TTS_POLL_INTERVAL_SECS,
            }),
    {
        JobPoller { kind: JobKind::Tts, token, interval_secs: TTS_POLL_INTERVAL_SECS }
    }

    /// Starts watching a face-animation job.
    pub fn face_animation(token: String) -> (poller: JobPoller)
        ensures
            poller == (JobPoller {
                kind: JobKind::FaceAnimation,
                token,
                interval_secs: FACE_ANIMATION_POLL_INTERVAL_SECS,
            }),
    {
        JobPoller {
            kind: JobKind::FaceAnimation,
            token,
            interval_secs: FACE_ANIMATION_POLL_INTERVAL_SECS,
        }
    }

    /// The same poller with another pause between two status requests.
    pub fn with_interval(self, interval_secs: u64) -> (poller: JobPoller)
        ensures
            poller == (JobPoller { interval_secs, ..self }),
    {
        JobPoller { kind: self.kind, token: self.token, interval_secs }
    }

    /// The status endpoint of the watched job.
    pub open spec fn spec_endpoint(self) -> Endpoint {
        match self.kind {
            JobKind::Tts => Endpoint::TtsJob(self.token),
            JobKind::FaceAnimation => Endpoint::InferenceJobStatus(self.token),
        }
    }

    /// The status endpoint of the watched job.
    pub fn endpoint(&self) -> (endpoint: Endpoint)
        ensures
            endpoint == self.spec_endpoint(),
    {
        match self.kind {
            JobKind::Tts => Endpoint::TtsJob(self.token.clone()),
            JobKind::FaceAnimation => Endpoint::InferenceJobStatus(self.token.clone()),
        }
    }

    /// The URL to ask for the job's status.
    pub fn request_url(&self) -> (url: String)
        ensures
            url@ == BASE_URL@ + self.spec_endpoint().spec_path(),
    {
        self.endpoint().url()
    }

    /// Where the polling stands after `event`.
    ///
    /// A failed request ends the polling with the error it stands for; it is
    /// not retried. An answer whose `success` flag is off, or whose status is
    /// a terminal failure, ends it with `JobFailed`, the kind of the job and
    /// the token it was submitted under. An answer with status `CompleteSuccess` ends it with
    /// that answer. Every other answer leaves the poller as it was.
    pub open spec fn spec_step<R: JobReport>(self, event: PollEvent<R>) -> PollStep<R> {
        match event {
            Err(failure) => PollStep::Finished(Err(classify_failure(failure))),
            Ok(report) => match verdict(report.reported_success(), report.reported_status()) {
                Verdict::KeepPolling => PollStep::Continue(self),
                Verdict::Succeeded => PollStep::Finished(Ok(report)),
                Verdict::Failed => PollStep::Finished(Err(Error::JobFailed(self.kind, self.token))),
            },
        }
    }

    /// Takes what came back for the last status request and says how the
    /// polling goes on.
    pub fn step<R: JobReport>(self, event: PollEvent<R>) -> (next: PollStep<R>)
        ensures
            next == self.spec_step(event),
    {
        match event {
            Err(failure) => PollStep::Finished(Err(Error::from(failure))),
            Ok(report) => match classify(report.envelope_success(), report.job_status()) {
                Verdict::KeepPolling => PollStep::Continue(self),
                Verdict::Succeeded => PollStep::Finished(Ok(report)),
                Verdict::Failed => PollStep::Finished(Err(Error::JobFailed(self.kind, self.token))),
            },
        }
    }
}

/// Whether an event leaves the polling under way: an answer whose `success`
/// flag is on and whose status is not terminal.
pub open spec fn keeps_polling<R: JobReport>(event: PollEvent<R>) -> bool {
    event matches Ok(report) && verdict(report.reported_success(), report.reported_status())
        == Verdict::KeepPolling
}

impl JobPoller {
    /// Where the polling stands after the events that come back for
    /// successive status requests. The event that ends the polling is the
    /// last one looked at.
    pub open spec fn spec_run<R: JobReport>(self, events: Seq<PollEvent<R>>) -> PollStep<R>
        decreases events.len(),
    {
        if events.len() == 0 {
            PollStep::Continue(self)
        } else {
            match self.spec_step(events.first()) {
                PollStep::Continue(next) => next.spec_run(events.drop_first()),
                PollStep::Finished(outcome) => PollStep::Finished(outcome),
            }
        }
    }

    /// How many status requests are made when `events` is what would come
    /// back for them: one for each event up to the one that ends the polling.
    pub open spec fn spec_requests<R: JobReport>(self, events: Seq<PollEvent<R>>) -> nat
        decreases events.len(),
    {
        if events.len() == 0 {
            0
        } else {
            match self.spec_step(events.first()) {
                PollStep::Continue(next) => 1 + next.spec_requests(events.drop_first()),
                PollStep::Finished(_) => 1,
            }
        }
    }

    /// Goes through a recorded exchange as a poll loop would: takes the
    /// events in order, one for each status request, and stops at the first
    /// that ends the polling. Returns where the polling stands then, and how
    /// many requests it took.
    pub fn replay<R: JobReport>(self, events: Vec<PollEvent<R>>) -> (end: (PollStep<R>, usize))
        ensures
            end.0 == self.spec_run(events@),
            end.1 == self.spec_requests(events@),
    {
        let ghost all = events@;
        let ghost start = self;
        let mut poller = self;
        let mut requests: usize = 0;
        proof {
            vstd::std_specs::vec::axiom_spec_len(&events);
            assert(all.skip(0) =~= all);
        }
        for event in it: events
            invariant
                start == self,
                all == events@,
                it.seq() == all,
                all.len() <= usize::MAX,
                requests == it.index(),
                start.spec_run(all) == poller.spec_run(all.skip(it.index())),
                start.spec_requests(all) == requests + poller.spec_requests(
                    all.skip(it.index()),
                ),
        {
            proof {
                let rest = all.skip(requests as int);
                assert(rest.len() > 0);
                assert(rest.first() == event);
                assert(rest.drop_first() =~= all.skip(requests + 1));
            }
            requests += 1;
            match poller.step(event) {
                PollStep::Continue(next) => {
                    poller = next;
                },
                PollStep::Finished(outcome) => {
                    return (PollStep::Finished(outcome), requests);
                },
            }
        }
        (PollStep::Continue(poller), requests)
    }

    /// While every answer reports a job under way, the polling goes on with
    /// the poller unchanged, one request for each answer.
    pub proof fn lemma_run_continues<R: JobReport>(self, events: Seq<PollEvent<R>>)
        requires
            forall|i: int| 0 <= i < events.len() ==> keeps_polling(#[trigger] events[i]),
        ensures
            self.spec_run(events) == PollStep::<R>::Continue(self),
            self.spec_requests(events) == events.len(),
        decreases events.len(),
    {
        if events.len() > 0 {
            assert(keeps_polling(events[0]));
            let rest = events.drop_first();
            assert forall|i: int| 0 <= i < rest.len() implies keeps_polling(#[trigger] rest[i]) by {
                assert(rest[i] == events[i + 1]);
            }
            self.lemma_run_continues(rest);
        }
    }

    /// The polling ends at the first event that does not report a job under
    /// way, with what [`JobPoller::spec_step`] makes of that event, and no
    /// request is made after it.
    pub proof fn lemma_run_ends_at_first_decision<R: JobReport>(
        self,
        events: Seq<PollEvent<R>>,
        at: int,
    )
        requires
            0 <= at < events.len(),
            forall|i: int| 0 <= i < at ==> keeps_polling(#[trigger] events[i]),
            !keeps_polling(events[at]),
        ensures
            self.spec_run(events) is Finished,
            self.spec_run(events) == self.spec_step(events[at]),
            self.spec_requests(events) == at + 1,
        decreases events.len(),
    {
        if at > 0 {
            assert(keeps_polling(events[0]));
            let rest = events.drop_first();
            assert forall|i: int| 0 <= i < at - 1 implies keeps_polling(#[trigger] rest[i]) by {
                assert(rest[i] == events[i + 1]);
            }
            assert(rest[at - 1] == events[at]);
            self.lemma_run_ends_at_first_decision(rest, at - 1);
        }
    }

    /// A job that is seen under way and then seen completed: the polling
    /// yields exactly that last answer, not before it has come, and whatever
    /// might come back later is never asked for.
    pub proof fn law_success_is_returned_once<R: JobReport>(
        self,
        under_way: Seq<PollEvent<R>>,
        answer: R,
        later: Seq<PollEvent<R>>,
    )
        requires
            forall|i: int| 0 <= i < under_way.len() ==> keeps_polling(#[trigger] under_way[i]),
            answer.reported_success(),
            answer.reported_status() == JobStatus::CompleteSuccess,
        ensures
            self.spec_run(under_way) == PollStep::<R>::Continue(self),
            self.spec_run(under_way.push(Ok(answer)) + later) == PollStep::Finished(
                Ok::<R, Error>(answer),
            ),
            self.spec_requests(under_way.push(Ok(answer)) + later) == under_way.len() + 1,
    {
        let events = under_way.push(Ok(answer)) + later;
        let at = under_way.len() as int;
        assert forall|i: int| 0 <= i < at implies keeps_polling(#[trigger] events[i]) by {
            assert(events[i] == under_way[i]);
        }
        assert(events[at] == Ok::<R, TransportFailure>(answer));
        self.lemma_run_continues(under_way);
        self.lemma_run_ends_at_first_decision(events, at);
    }

    /// A job that is seen under way and then seen failed for good, dead, or
    /// in an answer whose `success` flag is off: the polling yields
    /// `JobFailed` with the job's kind and the token it was submitted under, and whatever
    /// might come back later is never asked for.
    pub proof fn law_failure_names_the_job<R: JobReport>(
        self,
        under_way: Seq<PollEvent<R>>,
        answer: R,
        later: Seq<PollEvent<R>>,
    )
        requires
            forall|i: int| 0 <= i < under_way.len() ==> keeps_polling(#[trigger] under_way[i]),
            !answer.reported_success() || answer.reported_status() == JobStatus::CompleteFailure
                || answer.reported_status() == JobStatus::Dead,
        ensures
            self.spec_run(under_way.push(Ok(answer)) + later) == PollStep::<R>::Finished(
                Err(Error::JobFailed(self.kind, self.token)),
            ),
            self.spec_requests(under_way.push(Ok(answer)) + later) == under_way.len() + 1,
    {
        let events = under_way.push(Ok(answer)) + later;
        let at = under_way.len() as int;
        assert forall|i: int| 0 <= i < at implies keeps_polling(#[trigger] events[i]) by {
            assert(events[i] == under_way[i]);
        }
        assert(events[at] == Ok::<R, TransportFailure>(answer));
        self.lemma_run_ends_at_first_decision(events, at);
    }

    /// A request that fails while the job is under way ends the polling with
    /// the error the failure stands for; the request is not made again.
    pub proof fn law_transport_failure_is_surfaced<R: JobReport>(
        self,
        under_way: Seq<PollEvent<R>>,
        failure: TransportFailure,
        later: Seq<PollEvent<R>>,
    )
        requires
            forall|i: int| 0 <= i < under_way.len() ==> keeps_polling(#[trigger] under_way[i]),
        ensures
            self.spec_run(under_way.push(Err(failure)) + later) == PollStep::<R>::Finished(
                Err(classify_failure(failure)),
            ),
            self.spec_requests(under_way.push(Err(failure)) + later) == under_way.len() + 1,
    {
        let events = under_way.push(Err(failure)) + later;
        let at = under_way.len() as int;
        assert forall|i: int| 0 <= i < at implies keeps_polling(#[trigger] events[i]) by {
            assert(events[i] == under_way[i]);
        }
        assert(events[at] == Err::<R, TransportFailure>(failure));
        self.lemma_run_ends_at_first_decision(events, at);
    }

    /// `AttemptFailed` never ends the polling: however often a job is seen in
    /// that status, the poller stays as it was and asks again each time.
    pub proof fn law_attempt_failed_keeps_polling<R: JobReport>(self, events: Seq<PollEvent<R>>)
        requires
            forall|i: int|
                0 <= i < events.len() ==> (#[trigger] events[i] matches Ok(report)
                    && report.reported_success() && report.reported_status()
                    == JobStatus::AttemptFailed),
        ensures
            self.spec_run(events) == PollStep::<R>::Continue(self),
            self.spec_requests(events) == events.len(),
    {
        assert forall|i: int| 0 <= i < events.len() implies keeps_polling(#[trigger] events[i]) by {
            let report = events[i]->Ok_0;
            assert(verdict(report.reported_success(), report.reported_status())
                == Verdict::KeepPolling);
        }
        self.lemma_run_continues(events);
    }
}

} // verus!
