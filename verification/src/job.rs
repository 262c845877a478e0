//! The asynchronous speech-to-text job.
//!
//! A job is submitted, polled until the service reports a terminal status,
//! and, once completed, its result document is fetched and the transcript is
//! read out of it. The job decides; the requests are made elsewhere: `action`
//! says what to do next, `step` takes what came of it.

use crate::json::{
    element, json_element, json_member, json_parsed, json_string, member, parse_json, string_of,
};
use crate::progress::{ProgressReporter, ProgressState, Tone};
use crate::text::{str_view, text_view};
use vstd::prelude::*;

verus! {

/// The status of a job as the service reports it.
#[derive(Clone, Copy, Debug, PartialEq, Eq, Structural)]
pub enum JobStatus {
    Queued,
    InProgress,
    Completed,
    Failed,
}

impl JobStatus {
    /// Completed and failed jobs change no more.
    pub open spec fn terminal(self) -> bool {
        self == JobStatus::Completed || self == JobStatus::Failed
    }

    /// The status in messages.
    pub open spec fn label(self) -> Seq<char> {
        match self {
            JobStatus::Queued => "queued"@,
            JobStatus::InProgress => "in progress"@,
            JobStatus::Completed => "completed"@,
            JobStatus::Failed => "failed"@,
        }
    }

    pub fn name(self) -> (name: &'static str)
        ensures
            name@ == self.label(),
    {
        match self {
            JobStatus::Queued => "queued",
            JobStatus::InProgress => "in progress",
            JobStatus::Completed => "completed",
            JobStatus::Failed => "failed",
        }
    }
}

/// The status that a service's status name stands for; a name that is none of
/// the terminal ones, nor the queued one, is a job in progress.
pub open spec fn status_named(name: Seq<char>) -> JobStatus {
    if name == "COMPLETED"@ {
        JobStatus::Completed
    } else if name == "FAILED"@ {
        JobStatus::Failed
    } else if name == "QUEUED"@ {
        JobStatus::Queued
    } else {
        JobStatus::InProgress
    }
}

/// Reads a status from the service's name for it.
pub fn status_from_name(name: &str) -> (status: JobStatus)
    ensures
        status == status_named(name@),
{
    let name = name.to_owned();
    if name == "COMPLETED".to_owned() {
        JobStatus::Completed
    } else if name == "FAILED".to_owned() {
        JobStatus::Failed
    } else if name == "QUEUED".to_owned() {
        JobStatus::Queued
    } else {
        JobStatus::InProgress
    }
}

/// A job as the service knows it, as a mathematical value.
pub struct Handle {
    pub job_id: Seq<char>,
    pub status: JobStatus,
    pub result_locator: Option<Seq<char>>,
    pub failure_reason: Option<Seq<char>>,
}

impl Handle {
    /// Completion and the presence of a result go together, and so do failure
    /// and the presence of a reason; a result locator is never empty.
    pub open spec fn wf(self) -> bool {
        &&& self.status == JobStatus::Completed <==> self.result_locator is Some
        &&& self.result_locator matches Some(locator) ==> locator.len() > 0
        &&& self.status == JobStatus::Failed <==> self.failure_reason is Some
    }
}

/// A job as the service knows it.
#[derive(Debug)]
pub struct TranscriptionJobHandle {
    job_id: String,
    status: JobStatus,
    result_locator: Option<String>,
    failure_reason: Option<String>,
}

impl View for TranscriptionJobHandle {
    type V = Handle;

    closed spec fn view(&self) -> Handle {
        Handle {
            job_id: self.job_id@,
            status: self.status,
            result_locator: text_view(self.result_locator),
            failure_reason: text_view(self.failure_reason),
        }
    }
}

impl TranscriptionJobHandle {
    #[verifier::type_invariant]
    spec fn inv(self) -> bool {
        self@.wf()
    }

    pub fn job_id(&self) -> (job_id: &str)
        ensures
            job_id@ == self@.job_id,
            self@.wf(),
    {
        proof {
            use_type_invariant(self);
        }
        self.job_id.as_str()
    }

    pub fn status(&self) -> (status: JobStatus)
        ensures
            status == self@.status,
            self@.wf(),
    {
        proof {
            use_type_invariant(self);
        }
        self.status
    }

    /// Where the result lies: present exactly on a completed job.
    pub fn result_locator(&self) -> (locator: Option<&str>)
        ensures
            match locator {
                Some(l) => self@.result_locator == Some(l@) && l@.len() > 0,
                None => self@.result_locator is None,
            },
            locator is Some <==> self@.status == JobStatus::Completed,
            self@.wf(),
    {
        proof {
            use_type_invariant(self);
        }
        match &self.result_locator {
            Some(l) => Some(l.as_str()),
            None => None,
        }
    }

    /// Why the job failed: present exactly on a failed job.
    pub fn failure_reason(&self) -> (reason: Option<&str>)
        ensures
            match reason {
                Some(r) => self@.failure_reason == Some(r@),
                None => self@.failure_reason is None,
            },
            reason is Some <==> self@.status == JobStatus::Failed,
            self@.wf(),
    {
        proof {
            use_type_invariant(self);
        }
        match &self.failure_reason {
            Some(r) => Some(r.as_str()),
            None => None,
        }
    }
}

/// Why a job yields no transcript, as a mathematical value.
pub enum JobFault {
    Rejected(Seq<char>),
    JobFailed(Seq<char>),
    PollFailed(Seq<char>),
    MissingResult,
    FetchFailed(Seq<char>),
    MalformedTranscript,
    MissingTranscript,
    TimedOut,
    UnexpectedEvent,
}

/// Why a job yields no transcript.
#[derive(Clone, Debug, PartialEq, Eq)]
pub enum JobError {
    /// The service did not accept the job; its reason.
    Rejected(String),
    /// The job ended in failure; the service's reason, as it gave it.
    JobFailed(String),
    /// A status query failed; its error.
    PollFailed(String),
    /// The service reported completion without saying where the result lies.
    MissingResult,
    /// The result document could not be fetched; the error.
    FetchFailed(String),
    /// The result is no text, or no JSON document.
    MalformedTranscript,
    /// The result document holds no transcript text.
    MissingTranscript,
    /// The job was still running when the allowed number of polls was used up.
    TimedOut,
    /// An event arrived that the job was not waiting for.
    UnexpectedEvent,
}

impl View for JobError {
    type V = JobFault;

    open spec fn view(&self) -> JobFault {
        match self {
            JobError::Rejected(reason) => JobFault::Rejected(reason@),
            JobError::JobFailed(reason) => JobFault::JobFailed(reason@),
            JobError::PollFailed(reason) => JobFault::PollFailed(reason@),
            JobError::MissingResult => JobFault::MissingResult,
            JobError::FetchFailed(reason) => JobFault::FetchFailed(reason@),
            JobError::MalformedTranscript => JobFault::MalformedTranscript,
            JobError::MissingTranscript => JobFault::MissingTranscript,
            JobError::TimedOut => JobFault::TimedOut,
            JobError::UnexpectedEvent => JobFault::UnexpectedEvent,
        }
    }
}

impl JobFault {
    /// The message with which the run ends. A failed job's reason stands
    /// alone, as the service gave it.
    pub open spec fn message(self) -> Seq<char> {
        match self {
            JobFault::Rejected(reason) => "Transcription job was rejected: "@ + reason,
            JobFault::JobFailed(reason) => reason,
            JobFault::PollFailed(reason) => "Transcription status query failed: "@ + reason,
            JobFault::MissingResult => "Transcription job completed without a result location"@,
            JobFault::FetchFailed(reason) => "Transcript could not be fetched: "@ + reason,
            JobFault::MalformedTranscript => "Transcript document is malformed"@,
            JobFault::MissingTranscript => "Transcript document holds no transcript text"@,
            JobFault::TimedOut => "Transcription job did not finish in the allowed time"@,
            JobFault::UnexpectedEvent => "Transcription job received an unexpected event"@,
        }
    }
}

impl JobError {
    /// The message with which the run ends.
    pub fn message(&self) -> (message: String)
        ensures
            message@ == self@.message(),
    {
        match self {
            JobError::Rejected(reason) => {
                let mut message = "Transcription job was rejected: ".to_owned();
                message.append(reason.as_str());
                message
            },
            JobError::JobFailed(reason) => reason.clone(),
            JobError::PollFailed(reason) => {
                let mut message = "Transcription status query failed: ".to_owned();
                message.append(reason.as_str());
                message
            },
            JobError::MissingResult => "Transcription job completed without a result location".to_owned(),
            JobError::FetchFailed(reason) => {
                let mut message = "Transcript could not be fetched: ".to_owned();
                message.append(reason.as_str());
                message
            },
            JobError::MalformedTranscript => "Transcript document is malformed".to_owned(),
            JobError::MissingTranscript => "Transcript document holds no transcript text".to_owned(),
            JobError::TimedOut => "Transcription job did not finish in the allowed time".to_owned(),
            JobError::UnexpectedEvent => "Transcription job received an unexpected event".to_owned(),
        }
    }

    fn duplicate(&self) -> (copy: JobError)
        ensures
            copy@ == self@,
    {
        match self {
            JobError::Rejected(reason) => JobError::Rejected(reason.clone()),
            JobError::JobFailed(reason) => JobError::JobFailed(reason.clone()),
            JobError::PollFailed(reason) => JobError::PollFailed(reason.clone()),
            JobError::MissingResult => JobError::MissingResult,
            JobError::FetchFailed(reason) => JobError::FetchFailed(reason.clone()),
            JobError::MalformedTranscript => JobError::MalformedTranscript,
            JobError::MissingTranscript => JobError::MissingTranscript,
            JobError::TimedOut => JobError::TimedOut,
            JobError::UnexpectedEvent => JobError::UnexpectedEvent,
        }
    }
}

/// The text at `results.transcripts[0].transcript` of a result document.
pub open spec fn transcript_field(document: serde_json::Value) -> Option<Seq<char>> {
    match json_member(document, "results"@) {
        Some(results) => match json_member(results, "transcripts"@) {
            Some(transcripts) => match json_element(transcripts, 0) {
                Some(first) => match json_member(first, "transcript"@) {
                    Some(text) => json_string(text),
                    None => None,
                },
                None => None,
            },
            None => None,
        },
        None => None,
    }
}

/// The transcript that a fetched result holds.
pub open spec fn transcript_of(body: Option<Seq<char>>) -> Result<Seq<char>, JobFault> {
    match body {
        None => Err(JobFault::MalformedTranscript),
        Some(text) => match json_parsed(text) {
            None => Err(JobFault::MalformedTranscript),
            Some(document) => match transcript_field(document) {
                Some(transcript) => Ok(transcript),
                None => Err(JobFault::MissingTranscript),
            },
        },
    }
}

/// Finds the text at `results.transcripts[0].transcript` of a result
/// document.
pub fn transcript_in(document: &serde_json::Value) -> (found: Option<String>)
    ensures
        match found {
            Some(text) => transcript_field(*document) == Some(text@),
            None => transcript_field(*document) is None,
        },
{
    match member(document, "results") {
        Some(results) => match member(results, "transcripts") {
            Some(transcripts) => match element(transcripts, 0) {
                Some(first) => match member(first, "transcript") {
                    Some(text) => match string_of(text) {
                        Some(raw) => Some(raw.to_owned()),
                        None => None,
                    },
                    None => None,
                },
                None => None,
            },
            None => None,
        },
        None => None,
    }
}

/// Reads the transcript out of a fetched result. `body` is the result as
/// text, `None` where it is no text at all. A malformed result is an error,
/// never an empty transcript.
pub fn extract_transcript(body: Option<&str>) -> (transcript: Result<String, JobError>)
    ensures
        match transcript {
            Ok(text) => transcript_of(str_view(body)) == Ok::<
                Seq<char>,
                JobFault,
            >(text@),
            Err(e) => transcript_of(str_view(body)) == Err::<
                Seq<char>,
                JobFault,
            >(e@),
        },
{
    match body {
        None => Err(JobError::MalformedTranscript),
        Some(text) => match parse_json(text) {
            Err(_) => Err(JobError::MalformedTranscript),
            Ok(document) => match transcript_in(&document) {
                Some(transcript) => Ok(transcript),
                None => Err(JobError::MissingTranscript),
            },
        },
    }
}

/// How a job is polled, as a mathematical value.
pub struct Policy {
    pub interval_seconds: nat,
    pub max_polls: Option<nat>,
}

/// How a job is polled: the pause between two status queries, and, if the
/// wait is bounded, the number of queries after which a job that still runs
/// is given up.
#[derive(Clone, Copy, Debug, PartialEq, Eq)]
pub struct PollPolicy {
    pub interval_seconds: u64,
    pub max_polls: Option<u64>,
}

impl View for PollPolicy {
    type V = Policy;

    open spec fn view(&self) -> Policy {
        Policy {
            interval_seconds: self.interval_seconds as nat,
            max_polls: match self.max_polls {
                Some(m) => Some(m as nat),
                None => None,
            },
        }
    }
}

/// Where a job stands.
#[derive(Clone, Copy, Debug, PartialEq, Eq, Structural)]
pub enum Phase {
    /// The creation request is out; the service has not answered.
    Submitted,
    /// The service runs the job; its status is queried again and again.
    Polling,
    /// The service completed the job; the transcript is fetched and read.
    Completed,
    /// The job yields no transcript.
    Failed,
}

/// What happened to a request, as a mathematical value.
pub enum Signal {
    Accepted { job_id: Seq<char> },
    Rejected { reason: Seq<char> },
    Observed {
        status: JobStatus,
        result_locator: Option<Seq<char>>,
        failure_reason: Option<Seq<char>>,
    },
    PollFailed { reason: Seq<char> },
    Fetched { body: Option<Seq<char>> },
    FetchFailed { reason: Seq<char> },
}

/// What happened to a request.
#[derive(Clone, Debug, PartialEq, Eq)]
pub enum JobEvent {
    /// The service accepted the job under this identifier.
    Accepted { job_id: String },
    /// The service did not accept the job.
    Rejected { reason: String },
    /// A status query was answered.
    Observed { status: JobStatus, result_locator: Option<String>, failure_reason: Option<String> },
    /// A status query failed.
    PollFailed { reason: String },
    /// The result document arrived; `None` where it is no text.
    Fetched { body: Option<String> },
    /// The result document could not be fetched.
    FetchFailed { reason: String },
}

impl View for JobEvent {
    type V = Signal;

    open spec fn view(&self) -> Signal {
        match self {
            JobEvent::Accepted { job_id } => Signal::Accepted { job_id: job_id@ },
            JobEvent::Rejected { reason } => Signal::Rejected { reason: reason@ },
            JobEvent::Observed { status, result_locator, failure_reason } => Signal::Observed {
                status: *status,
                result_locator: text_view(*result_locator),
                failure_reason: text_view(*failure_reason),
            },
            JobEvent::PollFailed { reason } => Signal::PollFailed { reason: reason@ },
            JobEvent::Fetched { body } => Signal::Fetched { body: text_view(*body) },
            JobEvent::FetchFailed { reason } => Signal::FetchFailed { reason: reason@ },
        }
    }
}

/// What to do next, as a mathematical value.
pub enum Order {
    Submit { media_uri: Seq<char>, language_code: Seq<char> },
    Poll { job_id: Seq<char>, wait_seconds: nat },
    Fetch { locator: Seq<char> },
    Deliver { transcript: Seq<char> },
    Abort { error: JobFault },
}

/// What to do next.
#[derive(Clone, Debug, PartialEq, Eq)]
pub enum JobAction {
    /// Ask the service to create the job.
    Submit { media_uri: String, language_code: String },
    /// Wait, then query the job's status.
    Poll { job_id: String, wait_seconds: u64 },
    /// Fetch the result document.
    Fetch { locator: String },
    /// The job is done: here is the transcript.
    Deliver { transcript: String },
    /// The job is over: it yields no transcript.
    Abort { error: JobError },
}

impl View for JobAction {
    type V = Order;

    open spec fn view(&self) -> Order {
        match self {
            JobAction::Submit { media_uri, language_code } => Order::Submit {
                media_uri: media_uri@,
                language_code: language_code@,
            },
            JobAction::Poll { job_id, wait_seconds } => Order::Poll {
                job_id: job_id@,
                wait_seconds: *wait_seconds as nat,
            },
            JobAction::Fetch { locator } => Order::Fetch { locator: locator@ },
            JobAction::Deliver { transcript } => Order::Deliver { transcript: transcript@ },
            JobAction::Abort { error } => Order::Abort { error: error@ },
        }
    }
}

/// The reason recorded for a failed job of which the service gave none.
pub const NO_REASON: &'static str = "no reason given";

/// The message shown while a job is not yet done.
pub open spec fn still_working_message(status: JobStatus) -> Seq<char> {
    "Transcribing audio ("@ + status.label() + ")..."@
}

/// A job, as a mathematical value.
pub struct JobModel {
    pub media_uri: Seq<char>,
    pub language_code: Seq<char>,
    pub policy: Policy,
    pub phase: Phase,
    pub handle: Option<Handle>,
    pub polls: nat,
    pub transcript: Option<Seq<char>>,
    pub error: Option<JobFault>,
}

impl JobModel {
    /// A job whose creation request is out.
    pub open spec fn submitted(
        media_uri: Seq<char>,
        language_code: Seq<char>,
        policy: Policy,
    ) -> JobModel {
        JobModel {
            media_uri,
            language_code,
            policy,
            phase: Phase::Submitted,
            handle: None,
            polls: 0,
            transcript: None,
            error: None,
        }
    }

    /// Each phase holds what it needs and nothing else: no handle before the
    /// service accepted the job; a running handle while polling; a completed
    /// handle, with its result locator, once completed; an error exactly when
    /// failed; a transcript only when completed.
    pub open spec fn wf(self) -> bool {
        &&& self.handle matches Some(h) ==> h.wf()
        &&& self.error is Some <==> self.phase == Phase::Failed
        &&& self.transcript is Some ==> self.phase == Phase::Completed
        &&& self.phase == Phase::Submitted ==> self.handle is None
        &&& self.phase == Phase::Polling ==> self.handle is Some && !self.handle->0.status.terminal()
        &&& self.phase == Phase::Completed ==> self.handle is Some && self.handle->0.status
            == JobStatus::Completed
        &&& self.polls <= u64::MAX
    }

    /// No further event changes the job.
    pub open spec fn terminal(self) -> bool {
        self.phase == Phase::Failed || (self.phase == Phase::Completed && self.transcript is Some)
    }

    /// The job after it failed with `fault`.
    pub open spec fn failed(self, fault: JobFault) -> JobModel {
        JobModel { phase: Phase::Failed, error: Some(fault), transcript: None, ..self }
    }

    /// The polls counted after one more status query.
    pub open spec fn polls_after(self) -> nat {
        if self.polls < u64::MAX {
            self.polls + 1
        } else {
            self.polls
        }
    }

    /// The allowed number of polls is used up by one more status query.
    pub open spec fn exhausted(self) -> bool {
        self.policy.max_polls matches Some(limit) && self.polls_after() >= limit
    }

    /// The job after an answered status query.
    pub open spec fn observed(
        self,
        status: JobStatus,
        result_locator: Option<Seq<char>>,
        failure_reason: Option<Seq<char>>,
    ) -> JobModel {
        let handle = self.handle->0;
        match status {
            JobStatus::Completed => match result_locator {
                Some(locator) => if locator.len() > 0 {
                    JobModel {
                        phase: Phase::Completed,
                        handle: Some(
                            Handle {
                                job_id: handle.job_id,
                                status: JobStatus::Completed,
                                result_locator: Some(locator),
                                failure_reason: None,
                            },
                        ),
                        polls: self.polls_after(),
                        ..self
                    }
                } else {
                    self.failed(JobFault::MissingResult)
                },
                None => self.failed(JobFault::MissingResult),
            },
            JobStatus::Failed => {
                let reason = match failure_reason {
                    Some(r) => r,
                    None => NO_REASON@,
                };
                JobModel {
                    handle: Some(
                        Handle {
                            job_id: handle.job_id,
                            status: JobStatus::Failed,
                            result_locator: None,
                            failure_reason: Some(reason),
                        },
                    ),
                    polls: self.polls_after(),
                    ..self.failed(JobFault::JobFailed(reason))
                }
            },
            _ => if self.exhausted() {
                self.failed(JobFault::TimedOut)
            } else {
                JobModel {
                    handle: Some(
                        Handle {
                            job_id: handle.job_id,
                            status,
                            result_locator: None,
                            failure_reason: None,
                        },
                    ),
                    polls: self.polls_after(),
                    ..self
                }
            },
        }
    }

    /// The job after an event. A job that is done or has failed stays as it
    /// is; an event that the phase does not wait for fails the job.
    pub open spec fn advance(self, signal: Signal) -> JobModel {
        match self.phase {
            Phase::Submitted => match signal {
                Signal::Accepted { job_id } => JobModel {
                    phase: Phase::Polling,
                    handle: Some(
                        Handle {
                            job_id,
                            status: JobStatus::Queued,
                            result_locator: None,
                            failure_reason: None,
                        },
                    ),
                    ..self
                },
                Signal::Rejected { reason } => self.failed(JobFault::Rejected(reason)),
                _ => self.failed(JobFault::UnexpectedEvent),
            },
            Phase::Polling => match signal {
                Signal::Observed { status, result_locator, failure_reason } => self.observed(
                    status,
                    result_locator,
                    failure_reason,
                ),
                Signal::PollFailed { reason } => self.failed(JobFault::PollFailed(reason)),
                _ => self.failed(JobFault::UnexpectedEvent),
            },
            Phase::Completed => if self.transcript is Some {
                self
            } else {
                match signal {
                    Signal::Fetched { body } => match transcript_of(body) {
                        Ok(transcript) => JobModel { transcript: Some(transcript), ..self },
                        Err(fault) => self.failed(fault),
                    },
                    Signal::FetchFailed { reason } => self.failed(JobFault::FetchFailed(reason)),
                    _ => self.failed(JobFault::UnexpectedEvent),
                }
            },
            Phase::Failed => self,
        }
    }

    /// What the job asks for in its state. The first status query is made at
    /// once, each later one after the pause.
    pub open spec fn order(self) -> Order {
        match self.phase {
            Phase::Submitted => Order::Submit {
                media_uri: self.media_uri,
                language_code: self.language_code,
            },
            Phase::Polling => Order::Poll {
                job_id: self.handle->0.job_id,
                wait_seconds: if self.polls == 0 {
                    0
                } else {
                    self.policy.interval_seconds
                },
            },
            Phase::Completed => match self.transcript {
                Some(transcript) => Order::Deliver { transcript },
                None => Order::Fetch { locator: self.handle->0.result_locator->0 },
            },
            Phase::Failed => Order::Abort { error: self.error->0 },
        }
    }

    /// What an event shows on the progress reporter: a status query that
    /// finds the job still running, and is not the last allowed one, shows
    /// that the job is being worked on. Nothing else shows anything.
    pub open spec fn shows(self, signal: Signal, reporter: ProgressState) -> ProgressState {
        match signal {
            Signal::Observed { status, result_locator, failure_reason } => if self.phase
                == Phase::Polling && !status.terminal() && !self.exhausted() {
                reporter.updated(still_working_message(status), Tone::Neutral)
            } else {
                reporter
            },
            _ => reporter,
        }
    }
}

/// The job, in every state that events can lead it to, is well formed: in
/// particular it never holds a completed handle without a result locator.
pub proof fn lemma_advance_keeps_wf(job: JobModel, signal: Signal)
    requires
        job.wf(),
    ensures
        job.advance(signal).wf(),
        job.advance(signal).handle matches Some(h) ==> (h.status == JobStatus::Completed ==> (
        h.result_locator is Some && h.result_locator->0.len() > 0)),
        job.advance(signal).phase == Phase::Completed ==> job.advance(signal).handle is Some,
{
}

/// The job after a sequence of events, taken in order.
pub open spec fn after_events(job: JobModel, signals: Seq<Signal>) -> JobModel
    decreases signals.len(),
{
    if signals.len() == 0 {
        job
    } else {
        after_events(job, signals.drop_last()).advance(signals.last())
    }
}

/// Whatever the service and the transport report, from its submission on a
/// job is well formed: it is never completed without a result locator, and
/// never failed without an error.
pub proof fn lemma_every_state_is_wf(
    media_uri: Seq<char>,
    language_code: Seq<char>,
    policy: Policy,
    signals: Seq<Signal>,
)
    ensures
        after_events(JobModel::submitted(media_uri, language_code, policy), signals).wf(),
        ({
            let job = after_events(JobModel::submitted(media_uri, language_code, policy), signals);
            job.handle is Some && job.handle->0.status == JobStatus::Completed
                ==> job.handle->0.result_locator is Some && job.handle->0.result_locator->0.len()
                > 0
        }),
    decreases signals.len(),
{
    if signals.len() > 0 {
        lemma_every_state_is_wf(media_uri, language_code, policy, signals.drop_last());
        lemma_advance_keeps_wf(
            after_events(
                JobModel::submitted(media_uri, language_code, policy),
                signals.drop_last(),
            ),
            signals.last(),
        );
    }
}

/// A job has one handle: once the service accepted it, no event changes the
/// job's identifier.
pub proof fn lemma_one_handle(job: JobModel, signal: Signal)
    requires
        job.wf(),
        job.handle is Some,
    ensures
        job.advance(signal).handle is Some,
        job.advance(signal).handle->0.job_id == job.handle->0.job_id,
{
}

/// A job that is done or has failed takes no further step.
pub proof fn lemma_terminal_is_final(job: JobModel, signal: Signal)
    requires
        job.terminal(),
    ensures
        job.advance(signal) == job,
{
}

/// A completed status without a usable result locator never completes the
/// job: it fails it.
pub proof fn lemma_completion_needs_result(
    job: JobModel,
    result_locator: Option<Seq<char>>,
    failure_reason: Option<Seq<char>>,
)
    requires
        job.wf(),
        job.phase == Phase::Polling,
        result_locator is None || result_locator->0.len() == 0,
    ensures
        job.advance(
            Signal::Observed { status: JobStatus::Completed, result_locator, failure_reason },
        ).phase == Phase::Failed,
        job.advance(
            Signal::Observed { status: JobStatus::Completed, result_locator, failure_reason },
        ).error == Some(JobFault::MissingResult),
{
}

/// The pause between two status queries where none is configured.
pub const DEFAULT_POLL_INTERVAL_SECONDS: u64 = 5;

/// The policy for the configured values: a pause that is missing or not
/// positive is the default pause; a limit that is missing or not positive is
/// no limit.
pub open spec fn policy_for(interval_seconds: Option<i64>, max_polls: Option<i64>) -> Policy {
    Policy {
        interval_seconds: match interval_seconds {
            Some(seconds) => if seconds > 0 {
                seconds as nat
            } else {
                DEFAULT_POLL_INTERVAL_SECONDS as nat
            },
            None => DEFAULT_POLL_INTERVAL_SECONDS as nat,
        },
        max_polls: match max_polls {
            Some(limit) => if limit > 0 {
                Some(limit as nat)
            } else {
                None
            },
            None => None,
        },
    }
}

impl PollPolicy {
    /// The policy for the configured pause and limit, each of which may be
    /// missing.
    pub fn configured(interval_seconds: Option<i64>, max_polls: Option<i64>) -> (policy:
        PollPolicy)
        ensures
            policy@ == policy_for(interval_seconds, max_polls),
    {
        let interval_seconds = match interval_seconds {
            Some(seconds) => if seconds > 0 {
                seconds as u64
            } else {
                DEFAULT_POLL_INTERVAL_SECONDS
            },
            None => DEFAULT_POLL_INTERVAL_SECONDS,
        };
        let max_polls = match max_polls {
            Some(limit) => if limit > 0 {
                Some(limit as u64)
            } else {
                None
            },
            None => None,
        };
        PollPolicy { interval_seconds, max_polls }
    }

    /// Polls every `interval_seconds` for as long as the job runs.
    pub fn unbounded(interval_seconds: u64) -> (policy: PollPolicy)
        ensures
            policy@ == (Policy { interval_seconds: interval_seconds as nat, max_polls: None }),
    {
        PollPolicy { interval_seconds, max_polls: None }
    }

    /// Polls every `interval_seconds` and gives the job up at the
    /// `max_polls`-th query that finds it still running.
    pub fn bounded(interval_seconds: u64, max_polls: u64) -> (policy: PollPolicy)
        ensures
            policy@ == (Policy {
                interval_seconds: interval_seconds as nat,
                max_polls: Some(max_polls as nat),
            }),
    {
        PollPolicy { interval_seconds, max_polls: Some(max_polls) }
    }
}

/// The view of an optional handle.
pub open spec fn handle_view(handle: Option<TranscriptionJobHandle>) -> Option<Handle> {
    match handle {
        Some(h) => Some(h@),
        None => None,
    }
}

/// The view of an optional error.
pub open spec fn error_view(error: Option<JobError>) -> Option<JobFault> {
    match error {
        Some(e) => Some(e@),
        None => None,
    }
}

/// One speech-to-text job.
#[derive(Debug)]
pub struct TranscriptionJob {
    media_uri: String,
    language_code: String,
    policy: PollPolicy,
    phase: Phase,
    handle: Option<TranscriptionJobHandle>,
    polls: u64,
    transcript: Option<String>,
    error: Option<JobError>,
}

impl View for TranscriptionJob {
    type V = JobModel;

    closed spec fn view(&self) -> JobModel {
        JobModel {
            media_uri: self.media_uri@,
            language_code: self.language_code@,
            policy: self.policy@,
            phase: self.phase,
            handle: handle_view(self.handle),
            polls: self.polls as nat,
            transcript: text_view(self.transcript),
            error: error_view(self.error),
        }
    }
}

fn still_working_text(status: JobStatus) -> (message: String)
    ensures
        message@ == still_working_message(status),
{
    let mut message = "Transcribing audio (".to_owned();
    message.append(status.name());
    message.append(")...");
    message
}

impl TranscriptionJob {
    #[verifier::type_invariant]
    spec fn inv(self) -> bool {
        self@.wf()
    }

    /// A job for the uploaded object at `media_uri`, spoken in
    /// `language_code`. Its first action is to submit itself.
    pub fn submit(media_uri: &str, language_code: &str, policy: PollPolicy) -> (job:
        TranscriptionJob)
        ensures
            job@ == JobModel::submitted(media_uri@, language_code@, policy@),
            job@.wf(),
    {
        TranscriptionJob {
            media_uri: media_uri.to_owned(),
            language_code: language_code.to_owned(),
            policy,
            phase: Phase::Submitted,
            handle: None,
            polls: 0,
            transcript: None,
            error: None,
        }
    }

    pub fn phase(&self) -> (phase: Phase)
        ensures
            phase == self@.phase,
            self@.wf(),
    {
        proof {
            use_type_invariant(self);
        }
        self.phase
    }

    /// The job as the service knows it: present once the service accepted it.
    pub fn handle(&self) -> (handle: Option<&TranscriptionJobHandle>)
        ensures
            match handle {
                Some(h) => self@.handle == Some(h@) && h@.wf(),
                None => self@.handle is None,
            },
            self@.wf(),
    {
        proof {
            use_type_invariant(self);
        }
        match &self.handle {
            Some(h) => Some(h),
            None => None,
        }
    }

    /// The number of status queries answered so far.
    pub fn polls(&self) -> (polls: u64)
        ensures
            polls == self@.polls,
    {
        self.polls
    }

    /// Whether the job takes no further step.
    pub fn is_terminal(&self) -> (terminal: bool)
        ensures
            terminal == self@.terminal(),
    {
        match self.phase {
            Phase::Failed => true,
            Phase::Completed => self.transcript.is_some(),
            _ => false,
        }
    }

    /// What to do next.
    pub fn action(&self) -> (action: JobAction)
        ensures
            action@ == self@.order(),
            self@.wf(),
    {
        proof {
            use_type_invariant(self);
        }
        match self.phase {
            Phase::Submitted => JobAction::Submit {
                media_uri: self.media_uri.clone(),
                language_code: self.language_code.clone(),
            },
            Phase::Polling => match &self.handle {
                Some(h) => {
                    let wait_seconds = if self.polls == 0 {
                        0
                    } else {
                        self.policy.interval_seconds
                    };
                    JobAction::Poll { job_id: h.job_id.clone(), wait_seconds }
                },
                None => {
                    proof {
                        assert(false);
                    }
                    JobAction::Abort { error: JobError::UnexpectedEvent }
                },
            },
            Phase::Completed => match &self.transcript {
                Some(transcript) => JobAction::Deliver { transcript: transcript.clone() },
                None => match &self.handle {
                    Some(h) => match &h.result_locator {
                        Some(locator) => JobAction::Fetch { locator: locator.clone() },
                        None => {
                            proof {
                                assert(false);
                            }
                            JobAction::Abort { error: JobError::MissingResult }
                        },
                    },
                    None => {
                        proof {
                            assert(false);
                        }
                        JobAction::Abort { error: JobError::UnexpectedEvent }
                    },
                },
            },
            Phase::Failed => match &self.error {
                Some(error) => JobAction::Abort { error: error.duplicate() },
                None => {
                    proof {
                        assert(false);
                    }
                    JobAction::Abort { error: JobError::UnexpectedEvent }
                },
            },
        }
    }

    /// Takes what came of the last action and moves the job on. While the
    /// job is found still running, the reporter shows that it is being
    /// worked on.
    pub fn step(self, event: JobEvent, reporter: &mut ProgressReporter) -> (next: TranscriptionJob)
        ensures
            next@ == self@.advance(event@),
            next@.wf(),
            final(reporter)@ == self@.shows(event@, old(reporter)@),
    {
        proof {
            use_type_invariant(&self);
        }
        let TranscriptionJob {
            media_uri,
            language_code,
            policy,
            phase,
            handle,
            polls,
            transcript,
            error,
        } = self;
        let parts = JobParts { media_uri, language_code, policy };
        match phase {
            Phase::Submitted => match event {
                JobEvent::Accepted { job_id } => assemble(
                    parts,
                    Phase::Polling,
                    Some(
                        TranscriptionJobHandle {
                            job_id,
                            status: JobStatus::Queued,
                            result_locator: None,
                            failure_reason: None,
                        },
                    ),
                    polls,
                    None,
                    None,
                ),
                JobEvent::Rejected { reason } => assemble(
                    parts,
                    Phase::Failed,
                    handle,
                    polls,
                    None,
                    Some(JobError::Rejected(reason)),
                ),
                _ => assemble(
                    parts,
                    Phase::Failed,
                    handle,
                    polls,
                    None,
                    Some(JobError::UnexpectedEvent),
                ),
            },
            Phase::Polling => match event {
                JobEvent::Observed { status, result_locator, failure_reason } => {
                    let polls_after = if polls < u64::MAX {
                        polls + 1
                    } else {
                        polls
                    };
                    let exhausted = match policy.max_polls {
                        Some(limit) => polls_after >= limit,
                        None => false,
                    };
                    let current = match handle {
                        Some(h) => h,
                        None => {
                            proof {
                                assert(false);
                            }
                            return assemble(
                                parts,
                                Phase::Failed,
                                None,
                                polls,
                                None,
                                Some(JobError::UnexpectedEvent),
                            );
                        },
                    };
                    match status {
                        JobStatus::Completed => {
                            let usable = match &result_locator {
                                Some(locator) => !locator.as_str().is_empty(),
                                None => false,
                            };
                            if usable {
                                assemble(
                                    parts,
                                    Phase::Completed,
                                    Some(
                                        TranscriptionJobHandle {
                                            job_id: current.job_id,
                                            status: JobStatus::Completed,
                                            result_locator,
                                            failure_reason: None,
                                        },
                                    ),
                                    polls_after,
                                    None,
                                    None,
                                )
                            } else {
                                assemble(
                                    parts,
                                    Phase::Failed,
                                    Some(current),
                                    polls,
                                    None,
                                    Some(JobError::MissingResult),
                                )
                            }
                        },
                        JobStatus::Failed => {
                            let reason = match failure_reason {
                                Some(r) => r,
                                None => NO_REASON.to_owned(),
                            };
                            assemble(
                                parts,
                                Phase::Failed,
                                Some(
                                    TranscriptionJobHandle {
                                        job_id: current.job_id,
                                        status: JobStatus::Failed,
                                        result_locator: None,
                                        failure_reason: Some(reason.clone()),
                                    },
                                ),
                                polls_after,
                                None,
                                Some(JobError::JobFailed(reason)),
                            )
                        },
                        _ => {
                            if exhausted {
                                assemble(
                                    parts,
                                    Phase::Failed,
                                    Some(current),
                                    polls,
                                    None,
                                    Some(JobError::TimedOut),
                                )
                            } else {
                                reporter.update(still_working_text(status).as_str(), Tone::Neutral);
                                assemble(
                                    parts,
                                    Phase::Polling,
                                    Some(
                                        TranscriptionJobHandle {
                                            job_id: current.job_id,
                                            status,
                                            result_locator: None,
                                            failure_reason: None,
                                        },
                                    ),
                                    polls_after,
                                    None,
                                    None,
                                )
                            }
                        },
                    }
                },
                JobEvent::PollFailed { reason } => assemble(
                    parts,
                    Phase::Failed,
                    handle,
                    polls,
                    None,
                    Some(JobError::PollFailed(reason)),
                ),
                _ => assemble(
                    parts,
                    Phase::Failed,
                    handle,
                    polls,
                    None,
                    Some(JobError::UnexpectedEvent),
                ),
            },
            Phase::Completed => {
                if transcript.is_some() {
                    return assemble(parts, phase, handle, polls, transcript, error);
                }
                match event {
                    JobEvent::Fetched { body } => {
                        let text = match &body {
                            Some(b) => Some(b.as_str()),
                            None => None,
                        };
                        match extract_transcript(text) {
                            Ok(found) => assemble(
                                parts,
                                Phase::Completed,
                                handle,
                                polls,
                                Some(found),
                                None,
                            ),
                            Err(e) => assemble(parts, Phase::Failed, handle, polls, None, Some(e)),
                        }
                    },
                    JobEvent::FetchFailed { reason } => assemble(
                        parts,
                        Phase::Failed,
                        handle,
                        polls,
                        None,
                        Some(JobError::FetchFailed(reason)),
                    ),
                    _ => assemble(
                        parts,
                        Phase::Failed,
                        handle,
                        polls,
                        None,
                        Some(JobError::UnexpectedEvent),
                    ),
                }
            },
            Phase::Failed => assemble(parts, phase, handle, polls, transcript, error),
        }
    }
}

/// What a job keeps from its submission.
struct JobParts {
    media_uri: String,
    language_code: String,
    policy: PollPolicy,
}

fn assemble(
    parts: JobParts,
    phase: Phase,
    handle: Option<TranscriptionJobHandle>,
    polls: u64,
    transcript: Option<String>,
    error: Option<JobError>,
) -> (job: TranscriptionJob)
    requires
        (JobModel {
            media_uri: parts.media_uri@,
            language_code: parts.language_code@,
            policy: parts.policy@,
            phase,
            handle: handle_view(handle),
            polls: polls as nat,
            transcript: text_view(transcript),
            error: error_view(error),
        }).wf(),
    ensures
        job@ == (JobModel {
            media_uri: parts.media_uri@,
            language_code: parts.language_code@,
            policy: parts.policy@,
            phase,
            handle: handle_view(handle),
            polls: polls as nat,
            transcript: text_view(transcript),
            error: error_view(error),
        }),
{
    TranscriptionJob {
        media_uri: parts.media_uri,
        language_code: parts.language_code,
        policy: parts.policy,
        phase,
        handle,
        polls,
        transcript,
        error,
    }
}

} // verus!
