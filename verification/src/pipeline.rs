//! The run: region, upload, transcription, summary, delivery, cleanup.
//!
//! Each stage needs what the stage before it produced, so a run moves
//! strictly forward. The pipeline decides what comes next and what a failure
//! means; the work of each stage is done elsewhere and reported back.

use crate::channels::ChannelKind;
use crate::output::{output_path, transcript_file, Contents, Document, FileFormat, FileOutput, DONE};
use crate::progress::{FinalKind, ProgressReporter, ProgressState, Tone};
use crate::settings::{check_run, run_fault, ConfigError};
use crate::text::text_view;
use crate::upload::{locator_text, Artifact, Object};
use vstd::prelude::*;

verus! {

/// Where a summary goes.
#[derive(Clone, Copy, Debug, PartialEq, Eq, Structural)]
pub enum OutputType {
    Terminal,
    Text,
    Word,
    Markdown,
    Slack,
    SlackSplit,
    Teams,
    TeamsSplit,
}

impl OutputType {
    /// The platform that is notified, if any.
    pub open spec fn channel(self) -> Option<ChannelKind> {
        match self {
            OutputType::Slack | OutputType::SlackSplit => Some(ChannelKind::Slack),
            OutputType::Teams | OutputType::TeamsSplit => Some(ChannelKind::Teams),
            _ => None,
        }
    }

    /// The format of the file that is written, if any.
    pub open spec fn file(self) -> Option<FileFormat> {
        match self {
            OutputType::Text => Some(FileFormat::Text),
            OutputType::SlackSplit | OutputType::TeamsSplit => Some(FileFormat::SplitText),
            OutputType::Word => Some(FileFormat::Word),
            OutputType::Markdown => Some(FileFormat::Markdown),
            _ => None,
        }
    }

    pub fn notifies(self) -> (kind: Option<ChannelKind>)
        ensures
            kind == self.channel(),
    {
        match self {
            OutputType::Slack | OutputType::SlackSplit => Some(ChannelKind::Slack),
            OutputType::Teams | OutputType::TeamsSplit => Some(ChannelKind::Teams),
            _ => None,
        }
    }

    pub fn writes(self) -> (format: Option<FileFormat>)
        ensures
            format == self.file(),
    {
        match self {
            OutputType::Text => Some(FileFormat::Text),
            OutputType::SlackSplit | OutputType::TeamsSplit => Some(FileFormat::SplitText),
            OutputType::Word => Some(FileFormat::Word),
            OutputType::Markdown => Some(FileFormat::Markdown),
            _ => None,
        }
    }
}

/// The title of a card for which the user entered none.
pub const DEFAULT_CARD_TITLE: &'static str = "A meeting from today...";

/// The title of a card: what the user entered, or the default where the
/// prompt failed.
pub fn get_teams_card_title(entered: Option<String>) -> (title: String)
    ensures
        title@ == match entered {
            Some(t) => t@,
            None => DEFAULT_CARD_TITLE@,
        },
{
    match entered {
        Some(title) => title,
        None => DEFAULT_CARD_TITLE.to_owned(),
    }
}

/// Whether the uploaded object is deleted at the end of a run: only the flag
/// `Y` asks for it.
pub fn delete_requested(flag: &str) -> (requested: bool)
    ensures
        requested == (flag@ == "Y"@),
{
    crate::text::same_text(flag, "Y")
}

/// How a summary is delivered, as a mathematical value.
pub struct Route {
    pub file: Option<FileFormat>,
    pub closes_on_write: bool,
    pub channel: Option<ChannelKind>,
    pub announces_sending: bool,
    pub shows_summary: bool,
    pub closes_at_once: bool,
    pub notice: Option<Seq<char>>,
    pub success_message: Option<Seq<char>>,
}

/// How a summary is delivered: the file to write and whether writing it
/// closes the progress reporter; the platform to notify, whether the sending
/// is announced first, and the message that reports a card's delivery;
/// whether the summary is shown on the terminal, and whether the reporter is
/// closed before that; and a line to show where nothing is sent.
#[derive(Clone, Debug, PartialEq, Eq)]
pub struct DeliveryPlan {
    pub file: Option<FileFormat>,
    pub closes_on_write: bool,
    pub channel: Option<ChannelKind>,
    pub announces_sending: bool,
    pub shows_summary: bool,
    pub closes_at_once: bool,
    pub notice: Option<String>,
    pub success_message: Option<String>,
}

impl View for DeliveryPlan {
    type V = Route;

    open spec fn view(&self) -> Route {
        Route {
            file: self.file,
            closes_on_write: self.closes_on_write,
            channel: self.channel,
            announces_sending: self.announces_sending,
            shows_summary: self.shows_summary,
            closes_at_once: self.closes_at_once,
            notice: text_view(self.notice),
            success_message: text_view(self.success_message),
        }
    }
}

pub open spec fn shown_instead_notice(kind: ChannelKind) -> Seq<char> {
    "⚠️ No "@ + kind.label() + " webhooks selected. Displaying summary in terminal instead."@
}

pub open spec fn only_written_notice(kind: ChannelKind) -> Seq<char> {
    "⚠️ No "@ + kind.label() + " webhooks selected. Summary was only written to file."@
}

/// The warning shown before a run that will notify nobody.
pub open spec fn nothing_selected_notice(kind: ChannelKind) -> Seq<char> {
    "⚠️ No "@ + kind.label() + " webhooks selected."@
}

/// The warning shown before a run that will notify nobody.
pub fn nothing_selected_warning(kind: ChannelKind) -> (notice: String)
    ensures
        notice@ == nothing_selected_notice(kind),
{
    let mut notice = "⚠️ No ".to_owned();
    notice.append(kind.name());
    notice.append(" webhooks selected.");
    notice
}

/// The message that reports a card's delivery.
pub open spec fn card_success_message(split: bool) -> Seq<char> {
    if split {
        "Summary sent to Teams and written to output file!"@
    } else {
        "Summary sent to Teams!"@
    }
}

/// The message that announces the sending after a file was written.
pub open spec fn sending_announcement(kind: ChannelKind) -> Seq<char> {
    "Sending to "@ + kind.label() + "..."@
}

/// Shows on the reporter that the summary, already written to its file, is
/// now being sent to the platform.
pub fn announce_sending(kind: ChannelKind, reporter: &mut ProgressReporter)
    ensures
        final(reporter)@ == old(reporter)@.updated(sending_announcement(kind), Tone::Neutral),
{
    let mut message = "Sending to ".to_owned();
    message.append(kind.name());
    message.append("...");
    reporter.update(message.as_str(), Tone::Neutral);
}

/// The route for an output type. A file type writes its file and closes the
/// reporter. The terminal closes the reporter and shows the summary. A
/// platform is notified where a channel is selected; without one the
/// summary is shown instead, or, where a file is written as well, only
/// written.
pub open spec fn route_for(output_type: OutputType, nothing_selected: bool) -> Route {
    let split = output_type == OutputType::SlackSplit || output_type == OutputType::TeamsSplit;
    match output_type.channel() {
        None => Route {
            file: output_type.file(),
            closes_on_write: output_type.file() is Some,
            channel: None,
            announces_sending: false,
            shows_summary: output_type == OutputType::Terminal,
            closes_at_once: output_type == OutputType::Terminal,
            notice: None,
            success_message: None,
        },
        Some(kind) => Route {
            file: output_type.file(),
            closes_on_write: false,
            channel: if nothing_selected {
                None
            } else {
                Some(kind)
            },
            announces_sending: split && !nothing_selected,
            shows_summary: nothing_selected && !split,
            closes_at_once: false,
            notice: if nothing_selected {
                Some(
                    if split {
                        only_written_notice(kind)
                    } else {
                        shown_instead_notice(kind)
                    },
                )
            } else {
                None
            },
            success_message: if kind == ChannelKind::Teams && !nothing_selected {
                Some(card_success_message(split))
            } else {
                None
            },
        },
    }
}

/// Routes a summary for an output type; `nothing_selected` says that no
/// channel of the type's platform was selected.
pub fn plan_delivery(output_type: OutputType, nothing_selected: bool) -> (plan: DeliveryPlan)
    ensures
        plan@ == route_for(output_type, nothing_selected),
{
    let split = match output_type {
        OutputType::SlackSplit | OutputType::TeamsSplit => true,
        _ => false,
    };
    let terminal = match output_type {
        OutputType::Terminal => true,
        _ => false,
    };
    match output_type.notifies() {
        None => DeliveryPlan {
            file: output_type.writes(),
            closes_on_write: output_type.writes().is_some(),
            channel: None,
            announces_sending: false,
            shows_summary: terminal,
            closes_at_once: terminal,
            notice: None,
            success_message: None,
        },
        Some(kind) => {
            let notice = if nothing_selected {
                let mut notice = "⚠️ No ".to_owned();
                notice.append(kind.name());
                if split {
                    notice.append(" webhooks selected. Summary was only written to file.");
                } else {
                    notice.append(" webhooks selected. Displaying summary in terminal instead.");
                }
                Some(notice)
            } else {
                None
            };
            let teams = match kind {
                ChannelKind::Teams => true,
                ChannelKind::Slack => false,
            };
            let success_message = if teams && !nothing_selected {
                if split {
                    Some("Summary sent to Teams and written to output file!".to_owned())
                } else {
                    Some("Summary sent to Teams!".to_owned())
                }
            } else {
                None
            };
            DeliveryPlan {
                file: output_type.writes(),
                closes_on_write: false,
                channel: if nothing_selected {
                    None
                } else {
                    Some(kind)
                },
                announces_sending: split && !nothing_selected,
                shows_summary: nothing_selected && !split,
                closes_at_once: false,
                notice,
                success_message,
            }
        },
    }
}

/// The stages of a run, in their order.
#[derive(Clone, Copy, Debug, PartialEq, Eq, Structural)]
pub enum Stage {
    ResolveRegion,
    Upload,
    Transcribe,
    Summarize,
    Deliver,
    Cleanup,
    SaveTranscript,
    Done,
    Aborted,
}

impl Stage {
    /// The position of a stage in a run.
    pub open spec fn rank(self) -> nat {
        match self {
            Stage::ResolveRegion => 0,
            Stage::Upload => 1,
            Stage::Transcribe => 2,
            Stage::Summarize => 3,
            Stage::Deliver => 4,
            Stage::Cleanup => 5,
            Stage::SaveTranscript => 6,
            Stage::Done => 7,
            Stage::Aborted => 8,
        }
    }

    /// The run is over.
    pub open spec fn terminal(self) -> bool {
        self == Stage::Done || self == Stage::Aborted
    }

    /// How a failure of the stage is named.
    pub open spec fn failure_prefix(self) -> Seq<char> {
        match self {
            Stage::ResolveRegion => "Bucket region lookup failed: "@,
            Stage::Upload => "Upload failed: "@,
            Stage::Transcribe => "Transcription failed: "@,
            Stage::Summarize => "Summarization failed: "@,
            Stage::Deliver => "Output failed: "@,
            Stage::Cleanup => "Cleanup failed: "@,
            Stage::SaveTranscript => "Saving the transcript failed: "@,
            Stage::Done => ""@,
            Stage::Aborted => ""@,
        }
    }

    fn failure_label(self) -> (prefix: &'static str)
        ensures
            prefix@ == self.failure_prefix(),
    {
        match self {
            Stage::ResolveRegion => "Bucket region lookup failed: ",
            Stage::Upload => "Upload failed: ",
            Stage::Transcribe => "Transcription failed: ",
            Stage::Summarize => "Summarization failed: ",
            Stage::Deliver => "Output failed: ",
            Stage::Cleanup => "Cleanup failed: ",
            Stage::SaveTranscript => "Saving the transcript failed: ",
            Stage::Done => "",
            Stage::Aborted => "",
        }
    }
}

/// What a run was asked to do, as a mathematical value.
pub struct Request {
    pub model_id: Seq<char>,
    pub input_audio_file: Seq<char>,
    pub file_name: Seq<char>,
    pub language_code: Seq<char>,
    pub bucket: Seq<char>,
    pub summary_file_name: Seq<char>,
    pub output_type: OutputType,
    pub delete_after: bool,
    pub save_transcript: bool,
}

/// What a run was asked to do: the model that summarizes, the source file and
/// the name it is stored under, its language, the bucket, the base name of the output files, where
/// the summary goes, and whether the uploaded object is deleted and the
/// transcript kept at the end.
#[derive(Clone, Debug, PartialEq, Eq)]
pub struct RunOptions {
    pub model_id: String,
    pub input_audio_file: String,
    pub file_name: String,
    pub language_code: String,
    pub bucket: String,
    pub summary_file_name: String,
    pub output_type: OutputType,
    pub delete_after: bool,
    pub save_transcript: bool,
}

impl View for RunOptions {
    type V = Request;

    open spec fn view(&self) -> Request {
        Request {
            model_id: self.model_id@,
            input_audio_file: self.input_audio_file@,
            file_name: self.file_name@,
            language_code: self.language_code@,
            bucket: self.bucket@,
            summary_file_name: self.summary_file_name@,
            output_type: self.output_type,
            delete_after: self.delete_after,
            save_transcript: self.save_transcript,
        }
    }
}

/// What came of a stage's work, as a mathematical value.
pub enum Outcome {
    Completed(Seq<char>),
    Failed(Seq<char>),
}

/// What came of a stage's work: it completed, with the text it produced (the
/// region, the transcript, the summary; empty for the others), or it failed,
/// with the reason.
#[derive(Clone, Debug, PartialEq, Eq)]
pub enum StageOutcome {
    Completed(String),
    Failed(String),
}

impl View for StageOutcome {
    type V = Outcome;

    open spec fn view(&self) -> Outcome {
        match self {
            StageOutcome::Completed(text) => Outcome::Completed(text@),
            StageOutcome::Failed(reason) => Outcome::Failed(reason@),
        }
    }
}

/// A run, as a mathematical value.
pub struct Run {
    pub request: Request,
    pub stage: Stage,
    pub region: Option<Seq<char>>,
    pub transcript: Option<Seq<char>>,
    pub summary: Option<Seq<char>>,
    pub error: Option<Seq<char>>,
}

/// What a run asks for, as a mathematical value.
pub enum Task {
    ResolveRegion { bucket: Seq<char> },
    Upload { input_audio_file: Seq<char>, object: Object, region: Seq<char> },
    Transcribe { media_uri: Seq<char>, language_code: Seq<char>, region: Seq<char> },
    Summarize { transcript: Seq<char> },
    Deliver { output_type: OutputType, summary_file_name: Seq<char>, summary: Seq<char> },
    Delete { object: Object },
    SaveTranscript { file: Document },
    Finish { exit_code: u8 },
    Abort { exit_code: u8, message: Seq<char> },
}

/// What a run asks for next. `Finish` and `Abort` end it, with the exit
/// status of the process.
#[derive(Clone, Debug, PartialEq, Eq)]
pub enum RunAction {
    ResolveRegion { bucket: String },
    Upload { input_audio_file: String, artifact: Artifact, region: String },
    Transcribe { media_uri: String, language_code: String, region: String },
    Summarize { transcript: String },
    Deliver { output_type: OutputType, summary_file_name: String, summary: String },
    Delete { artifact: Artifact },
    SaveTranscript { file: FileOutput },
    Finish { exit_code: u8 },
    Abort { exit_code: u8, message: String },
}

impl View for RunAction {
    type V = Task;

    open spec fn view(&self) -> Task {
        match self {
            RunAction::ResolveRegion { bucket } => Task::ResolveRegion { bucket: bucket@ },
            RunAction::Upload { input_audio_file, artifact, region } => Task::Upload {
                input_audio_file: input_audio_file@,
                object: artifact@,
                region: region@,
            },
            RunAction::Transcribe { media_uri, language_code, region } => Task::Transcribe {
                media_uri: media_uri@,
                language_code: language_code@,
                region: region@,
            },
            RunAction::Summarize { transcript } => Task::Summarize { transcript: transcript@ },
            RunAction::Deliver { output_type, summary_file_name, summary } => Task::Deliver {
                output_type: *output_type,
                summary_file_name: summary_file_name@,
                summary: summary@,
            },
            RunAction::Delete { artifact } => Task::Delete { object: artifact@ },
            RunAction::SaveTranscript { file } => Task::SaveTranscript { file: file@ },
            RunAction::Finish { exit_code } => Task::Finish { exit_code: *exit_code },
            RunAction::Abort { exit_code, message } => Task::Abort {
                exit_code: *exit_code,
                message: message@,
            },
        }
    }
}

/// The message shown when one of the stages up to the summary begins; the
/// later stages show none.
pub open spec fn stage_message(stage: Stage, region: Option<Seq<char>>) -> Seq<char> {
    match stage {
        Stage::ResolveRegion => "Uploading file to S3..."@,
        Stage::Upload => "Using bucket region "@ + match region {
            Some(name) => name,
            None => Seq::empty(),
        },
        Stage::Transcribe => "Transcribing audio..."@,
        Stage::Summarize => "Summarizing text..."@,
        _ => Seq::empty(),
    }
}

impl Run {
    /// A run at its start.
    pub open spec fn started(request: Request) -> Run {
        Run {
            request,
            stage: Stage::ResolveRegion,
            region: None,
            transcript: None,
            summary: None,
            error: None,
        }
    }

    /// The object that the run uploads.
    pub open spec fn object(self) -> Object {
        Object { bucket: self.request.bucket, key: self.request.file_name }
    }

    /// A run has a model and a bucket; every stage has what the stages before
    /// it produced; and a run holds an error exactly when it was aborted.
    pub open spec fn wf(self) -> bool {
        &&& run_fault(self.request.model_id, self.request.bucket) is None
        &&& self.error is Some <==> self.stage == Stage::Aborted
        &&& !self.stage.terminal() && self.stage.rank() >= Stage::Upload.rank()
            ==> self.region is Some
        &&& !self.stage.terminal() && self.stage.rank() >= Stage::Summarize.rank()
            ==> self.transcript is Some
        &&& !self.stage.terminal() && self.stage.rank() >= Stage::Deliver.rank()
            ==> self.summary is Some
        &&& self.stage == Stage::Done ==> self.transcript is Some && self.summary is Some
    }

    /// The stage that follows the delivery, and the cleanup.
    pub open spec fn after(self, stage: Stage) -> Stage {
        if stage == Stage::Deliver && self.request.delete_after {
            Stage::Cleanup
        } else if self.request.save_transcript {
            Stage::SaveTranscript
        } else {
            Stage::Done
        }
    }

    /// The run after a stage's outcome. A failure aborts the run with a
    /// message that names the stage and the reason; a completion moves the
    /// run to the next stage. A run that is over stays as it is.
    pub open spec fn advance(self, outcome: Outcome) -> Run {
        if self.stage.terminal() {
            self
        } else {
            match outcome {
                Outcome::Failed(reason) => Run {
                    stage: Stage::Aborted,
                    error: Some(self.stage.failure_prefix() + reason),
                    ..self
                },
                Outcome::Completed(text) => match self.stage {
                    Stage::ResolveRegion => Run { stage: Stage::Upload, region: Some(text), ..self },
                    Stage::Upload => Run { stage: Stage::Transcribe, ..self },
                    Stage::Transcribe => Run {
                        stage: Stage::Summarize,
                        transcript: Some(text),
                        ..self
                    },
                    Stage::Summarize => Run { stage: Stage::Deliver, summary: Some(text), ..self },
                    Stage::Deliver => Run { stage: self.after(Stage::Deliver), ..self },
                    Stage::Cleanup => Run { stage: self.after(Stage::Cleanup), ..self },
                    _ => Run { stage: Stage::Done, ..self },
                },
            }
        }
    }

    /// What the run asks for in its state.
    pub open spec fn task(self) -> Task {
        match self.stage {
            Stage::ResolveRegion => Task::ResolveRegion { bucket: self.request.bucket },
            Stage::Upload => Task::Upload {
                input_audio_file: self.request.input_audio_file,
                object: self.object(),
                region: self.region->0,
            },
            Stage::Transcribe => Task::Transcribe {
                media_uri: locator_text(self.object()),
                language_code: self.request.language_code,
                region: self.region->0,
            },
            Stage::Summarize => Task::Summarize { transcript: self.transcript->0 },
            Stage::Deliver => Task::Deliver {
                output_type: self.request.output_type,
                summary_file_name: self.request.summary_file_name,
                summary: self.summary->0,
            },
            Stage::Cleanup => Task::Delete { object: self.object() },
            Stage::SaveTranscript => Task::SaveTranscript {
                file: Document {
                    path: output_path(self.request.summary_file_name, FileFormat::Transcript),
                    contents: Contents::Text(self.transcript->0),
                },
            },
            Stage::Done => Task::Finish { exit_code: 0 },
            Stage::Aborted => Task::Abort { exit_code: 1, message: self.error->0 },
        }
    }

    /// What an outcome shows on the reporter. A failure closes it with the
    /// run's error. The end of the run closes it with success. The stages up
    /// to the summary announce themselves; delivery and what follows leave
    /// the reporter to those who do the work.
    pub open spec fn shows(self, outcome: Outcome, reporter: ProgressState) -> ProgressState {
        if self.stage.terminal() {
            reporter
        } else {
            let next = self.advance(outcome);
            match next.stage {
                Stage::Aborted => reporter.closed_with(next.error->0, FinalKind::Fail),
                Stage::Done => reporter.closed_with(DONE@, FinalKind::Success),
                Stage::Upload | Stage::Transcribe | Stage::Summarize => reporter.updated(
                    stage_message(next.stage, next.region),
                    Tone::Neutral,
                ),
                _ => reporter,
            }
        }
    }
}

/// A run moves strictly forward: every outcome takes a run that is not over
/// to a later stage, and none brings it back to an earlier one.
pub proof fn lemma_forward_only(run: Run, outcome: Outcome)
    requires
        run.wf(),
    ensures
        run.advance(outcome).wf(),
        run.advance(outcome).stage.rank() >= run.stage.rank(),
        !run.stage.terminal() ==> run.advance(outcome).stage.rank() > run.stage.rank(),
        run.stage.terminal() ==> run.advance(outcome) == run,
        run.advance(outcome).request == run.request,
{
}

/// The run after a sequence of outcomes, taken in order.
pub open spec fn after_outcomes(run: Run, outcomes: Seq<Outcome>) -> Run
    decreases outcomes.len(),
{
    if outcomes.len() == 0 {
        run
    } else {
        after_outcomes(run, outcomes.drop_last()).advance(outcomes.last())
    }
}

/// Whatever the stages report, a run is well formed from its start on, keeps
/// what it was asked to do, and ends with exit status zero only with both the
/// transcript and the summary in hand.
pub proof fn lemma_every_run_is_wf(request: Request, outcomes: Seq<Outcome>)
    requires
        run_fault(request.model_id, request.bucket) is None,
    ensures
        after_outcomes(Run::started(request), outcomes).wf(),
        after_outcomes(Run::started(request), outcomes).request == request,
        after_outcomes(Run::started(request), outcomes).task() == (Task::Finish { exit_code: 0 })
            ==> after_outcomes(Run::started(request), outcomes).transcript is Some
            && after_outcomes(Run::started(request), outcomes).summary is Some,
    decreases outcomes.len(),
{
    if outcomes.len() > 0 {
        lemma_every_run_is_wf(request, outcomes.drop_last());
        lemma_forward_only(
            after_outcomes(Run::started(request), outcomes.drop_last()),
            outcomes.last(),
        );
    }
}

/// A failed stage aborts the run at once: nothing that a later stage would
/// have done is asked for, and the exit status is not zero. In particular a
/// failed transcription is followed neither by a summary nor by a delivery.
pub proof fn lemma_failure_aborts(run: Run, reason: Seq<char>, later: Outcome)
    requires
        run.wf(),
        !run.stage.terminal(),
    ensures
        run.advance(Outcome::Failed(reason)).stage == Stage::Aborted,
        run.advance(Outcome::Failed(reason)).task() == (Task::Abort {
            exit_code: 1,
            message: run.stage.failure_prefix() + reason,
        }),
        run.advance(Outcome::Failed(reason)).advance(later) == run.advance(Outcome::Failed(reason)),
{
}

/// The uploaded object is deleted only on the way to success, and only
/// where the run was asked to: the cleanup follows a completed delivery.
pub proof fn lemma_cleanup_after_delivery(run: Run, outcome: Outcome)
    requires
        run.wf(),
    ensures
        run.advance(outcome).stage == Stage::Cleanup ==> run.stage == Stage::Deliver
            && outcome is Completed && run.request.delete_after,
        run.stage == Stage::Deliver && outcome is Completed && run.request.delete_after
            ==> run.advance(outcome).stage == Stage::Cleanup,
{
}

fn stage_text(stage: Stage, region: &Option<String>) -> (message: String)
    ensures
        message@ == stage_message(stage, text_view(*region)),
{
    match stage {
        Stage::ResolveRegion => "Uploading file to S3...".to_owned(),
        Stage::Upload => {
            let mut message = "Using bucket region ".to_owned();
            if let Some(name) = region {
                message.append(name.as_str());
            }
            message
        },
        Stage::Transcribe => "Transcribing audio...".to_owned(),
        Stage::Summarize => "Summarizing text...".to_owned(),
        _ => String::new(),
    }
}

/// One run.
#[derive(Debug)]
pub struct Pipeline {
    options: RunOptions,
    stage: Stage,
    region: Option<String>,
    transcript: Option<String>,
    summary: Option<String>,
    error: Option<String>,
}

impl View for Pipeline {
    type V = Run;

    closed spec fn view(&self) -> Run {
        Run {
            request: self.options@,
            stage: self.stage,
            region: text_view(self.region),
            transcript: text_view(self.transcript),
            summary: text_view(self.summary),
            error: text_view(self.error),
        }
    }
}

impl Pipeline {
    #[verifier::type_invariant]
    spec fn inv(self) -> bool {
        self@.wf()
    }

    /// Starts a run. A configuration without a model id, or without a
    /// bucket, starts none: the error comes back before any stage is asked
    /// for, and the reporter is closed with it. Otherwise the first stage
    /// resolves the bucket's region, and the reporter shows that the upload is
    /// being prepared.
    pub fn start(options: RunOptions, reporter: &mut ProgressReporter) -> (started: Result<
        Pipeline,
        ConfigError,
    >)
        ensures
            match started {
                Ok(run) => run_fault(options@.model_id, options@.bucket) is None && run@
                    == Run::started(options@) && run@.wf() && final(reporter)@ == old(
                    reporter,
                )@.updated(stage_message(Stage::ResolveRegion, None), Tone::Neutral),
                Err(error) => run_fault(options@.model_id, options@.bucket) == Some(error)
                    && final(reporter)@ == old(reporter)@.closed_with(
                    error.message_text(),
                    FinalKind::Fail,
                ),
            },
    {
        match check_run(options.model_id.as_str(), options.bucket.as_str()) {
            Err(error) => {
                reporter.finalize(error.message(), FinalKind::Fail);
                Err(error)
            },
            Ok(_) => {
                let none: Option<String> = None;
                reporter.update(stage_text(Stage::ResolveRegion, &none).as_str(), Tone::Neutral);
                Ok(
                    Pipeline {
                        options,
                        stage: Stage::ResolveRegion,
                        region: None,
                        transcript: None,
                        summary: None,
                        error: None,
                    },
                )
            },
        }
    }

    pub fn stage(&self) -> (stage: Stage)
        ensures
            stage == self@.stage,
            self@.wf(),
    {
        proof {
            use_type_invariant(self);
        }
        self.stage
    }

    /// Whether the run is over.
    pub fn is_over(&self) -> (over: bool)
        ensures
            over == self@.stage.terminal(),
    {
        match self.stage {
            Stage::Done | Stage::Aborted => true,
            _ => false,
        }
    }

    /// The region of the bucket, once resolved.
    pub fn region(&self) -> (region: Option<&str>)
        ensures
            crate::text::str_view(region) == self@.region,
    {
        match &self.region {
            Some(name) => Some(name.as_str()),
            None => None,
        }
    }

    /// The transcript, once the job delivered it.
    pub fn transcript(&self) -> (transcript: Option<&str>)
        ensures
            crate::text::str_view(transcript) == self@.transcript,
    {
        match &self.transcript {
            Some(text) => Some(text.as_str()),
            None => None,
        }
    }

    /// The summary, once made.
    pub fn summary(&self) -> (summary: Option<&str>)
        ensures
            crate::text::str_view(summary) == self@.summary,
    {
        match &self.summary {
            Some(text) => Some(text.as_str()),
            None => None,
        }
    }

    /// The error of an aborted run.
    pub fn error(&self) -> (error: Option<&str>)
        ensures
            crate::text::str_view(error) == self@.error,
            error is Some <==> self@.stage == Stage::Aborted,
    {
        proof {
            use_type_invariant(self);
        }
        match &self.error {
            Some(text) => Some(text.as_str()),
            None => None,
        }
    }

    fn artifact(&self) -> (artifact: Artifact)
        ensures
            artifact@ == self@.object(),
    {
        Artifact { bucket: self.options.bucket.clone(), key: self.options.file_name.clone() }
    }

    /// What to do next.
    pub fn action(&self) -> (action: RunAction)
        ensures
            action@ == self@.task(),
            self@.wf(),
    {
        proof {
            use_type_invariant(self);
        }
        match self.stage {
            Stage::ResolveRegion => RunAction::ResolveRegion { bucket: self.options.bucket.clone() },
            Stage::Upload => RunAction::Upload {
                input_audio_file: self.options.input_audio_file.clone(),
                artifact: self.artifact(),
                region: held(&self.region),
            },
            Stage::Transcribe => RunAction::Transcribe {
                media_uri: self.artifact().locator(),
                language_code: self.options.language_code.clone(),
                region: held(&self.region),
            },
            Stage::Summarize => RunAction::Summarize { transcript: held(&self.transcript) },
            Stage::Deliver => RunAction::Deliver {
                output_type: self.options.output_type,
                summary_file_name: self.options.summary_file_name.clone(),
                summary: held(&self.summary),
            },
            Stage::Cleanup => RunAction::Delete { artifact: self.artifact() },
            Stage::SaveTranscript => RunAction::SaveTranscript {
                file: transcript_file(
                    self.options.summary_file_name.as_str(),
                    held(&self.transcript).as_str(),
                ),
            },
            Stage::Done => RunAction::Finish { exit_code: 0 },
            Stage::Aborted => RunAction::Abort { exit_code: 1, message: held(&self.error) },
        }
    }

    /// Takes the outcome of the stage's work and moves the run on.
    pub fn step(self, outcome: StageOutcome, reporter: &mut ProgressReporter) -> (next: Pipeline)
        ensures
            next@ == self@.advance(outcome@),
            next@.wf(),
            final(reporter)@ == self@.shows(outcome@, old(reporter)@),
    {
        proof {
            use_type_invariant(&self);
        }
        let Pipeline { options, stage, region, transcript, summary, error } = self;
        match stage {
            Stage::Done | Stage::Aborted => {
                return Pipeline { options, stage, region, transcript, summary, error };
            },
            _ => {},
        }
        match outcome {
            StageOutcome::Failed(reason) => {
                let mut message = stage.failure_label().to_owned();
                message.append(reason.as_str());
                reporter.finalize(message.as_str(), FinalKind::Fail);
                Pipeline {
                    options,
                    stage: Stage::Aborted,
                    region,
                    transcript,
                    summary,
                    error: Some(message),
                }
            },
            StageOutcome::Completed(text) => {
                let after_cleanup = if options.save_transcript {
                    Stage::SaveTranscript
                } else {
                    Stage::Done
                };
                let after_delivery = if options.delete_after {
                    Stage::Cleanup
                } else {
                    after_cleanup
                };
                let next = match stage {
                    Stage::ResolveRegion => Pipeline {
                        options,
                        stage: Stage::Upload,
                        region: Some(text),
                        transcript,
                        summary,
                        error,
                    },
                    Stage::Upload => Pipeline {
                        options,
                        stage: Stage::Transcribe,
                        region,
                        transcript,
                        summary,
                        error,
                    },
                    Stage::Transcribe => Pipeline {
                        options,
                        stage: Stage::Summarize,
                        region,
                        transcript: Some(text),
                        summary,
                        error,
                    },
                    Stage::Summarize => Pipeline {
                        options,
                        stage: Stage::Deliver,
                        region,
                        transcript,
                        summary: Some(text),
                        error,
                    },
                    Stage::Deliver => Pipeline {
                        options,
                        stage: after_delivery,
                        region,
                        transcript,
                        summary,
                        error,
                    },
                    Stage::Cleanup => Pipeline {
                        options,
                        stage: after_cleanup,
                        region,
                        transcript,
                        summary,
                        error,
                    },
                    _ => Pipeline { options, stage: Stage::Done, region, transcript, summary, error },
                };
                match next.stage {
                    Stage::Done => {
                        reporter.finalize(DONE, FinalKind::Success);
                    },
                    Stage::Upload | Stage::Transcribe | Stage::Summarize => {
                        reporter.update(
                            stage_text(next.stage, &next.region).as_str(),
                            Tone::Neutral,
                        );
                    },
                    _ => {},
                }
                next
            },
        }
    }
}

/// The text that a stage before this one produced.
fn held(text: &Option<String>) -> (copy: String)
    requires
        text is Some,
    ensures
        Some(copy@) == text_view(*text),
{
    match text {
        Some(t) => t.clone(),
        None => String::new(),
    }
}

} // verus!
