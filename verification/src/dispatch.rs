//! Delivery of one finished text to the selected channels of a platform.
//!
//! The dispatcher decides; it sends nothing itself. `Dispatch::start` fixes the
//! channels to contact and their order, `begin` hands out the next request,
//! `record` takes what the transport reports for it, and `finish` closes the
//! progress reporter with the aggregate. A failed delivery never stops the
//! others, and no outcome of a dispatch is an error of the run.

use crate::channels::{
    channel_slots, slots, slots_view, Channel, ChannelConfig, ChannelKind, ChannelSource,
    Source,
};
use crate::json::json_quoted;
use crate::payload::{slack_content, slack_envelope_text, slack_payload, teams_card_text, teams_payload};
use crate::progress::{FinalKind, ProgressReporter, ProgressState, Tone};
use crate::text::{decimal, decimal_string};
use vstd::prelude::*;

verus! {

/// What is delivered, as a mathematical value.
pub enum Notice {
    Slack,
    Teams { title: Seq<char>, date_header: Seq<char>, success_message: Seq<char> },
}

/// What is delivered: a text envelope, or a card with a title and a date line.
/// A card names the message that reports its delivery.
#[derive(Clone, Debug, PartialEq, Eq)]
pub enum Notification {
    Slack,
    Teams { title: String, date_header: String, success_message: String },
}

impl View for Notification {
    type V = Notice;

    open spec fn view(&self) -> Notice {
        match self {
            Notification::Slack => Notice::Slack,
            Notification::Teams { title, date_header, success_message } => Notice::Teams {
                title: title@,
                date_header: date_header@,
                success_message: success_message@,
            },
        }
    }
}

impl Notice {
    pub open spec fn kind(self) -> ChannelKind {
        match self {
            Notice::Slack => ChannelKind::Slack,
            Notice::Teams { .. } => ChannelKind::Teams,
        }
    }

    /// The request body that carries `text`.
    pub open spec fn payload(self, text: Seq<char>) -> Seq<char> {
        match self {
            Notice::Slack => slack_envelope_text(json_quoted(slack_content(text))),
            Notice::Teams { title, date_header, success_message } => teams_card_text(
                json_quoted(title),
                json_quoted(date_header),
                json_quoted(text),
            ),
        }
    }
}

/// What the transport reports for one request, as a mathematical value.
pub enum Reply {
    Responded { status: u16, status_line: Seq<char> },
    TransportError(Seq<char>),
}

/// What the transport reports for one request: the response's status with
/// its printed form, or the error that kept a response from arriving.
#[derive(Clone, Debug, PartialEq, Eq)]
pub enum Delivery {
    Responded { status: u16, status_line: String },
    TransportError(String),
}

impl View for Delivery {
    type V = Reply;

    open spec fn view(&self) -> Reply {
        match self {
            Delivery::Responded { status, status_line } => Reply::Responded {
                status: *status,
                status_line: status_line@,
            },
            Delivery::TransportError(message) => Reply::TransportError(message@),
        }
    }
}

/// The fate of one delivery, as a mathematical value.
pub enum Fate {
    Sent,
    Failed(Seq<char>),
}

/// The fate of one delivery: sent, or failed with the reason.
#[derive(Clone, Debug, PartialEq, Eq)]
pub enum Outcome {
    Sent,
    Failed(String),
}

impl View for Outcome {
    type V = Fate;

    open spec fn view(&self) -> Fate {
        match self {
            Outcome::Sent => Fate::Sent,
            Outcome::Failed(reason) => Fate::Failed(reason@),
        }
    }
}

/// A status from 200 to 299 is a delivery; any other status fails with its
/// printed form, and a transport error with its message.
pub open spec fn classified(reply: Reply) -> Fate {
    match reply {
        Reply::Responded { status, status_line } => if 200 <= status <= 299 {
            Fate::Sent
        } else {
            Fate::Failed(status_line)
        },
        Reply::TransportError(message) => Fate::Failed(message),
    }
}

/// Classifies what the transport reported.
pub fn classify(delivery: &Delivery) -> (outcome: Outcome)
    ensures
        outcome@ == classified(delivery@),
{
    match delivery {
        Delivery::Responded { status, status_line } => {
            if 200 <= *status && *status <= 299 {
                Outcome::Sent
            } else {
                Outcome::Failed(status_line.clone())
            }
        },
        Delivery::TransportError(message) => Outcome::Failed(message.clone()),
    }
}

/// One channel's result, as a mathematical value.
pub struct ChannelFate {
    pub channel_name: Seq<char>,
    pub outcome: Fate,
}

/// One channel's result.
#[derive(Clone, Debug, PartialEq, Eq)]
pub struct ChannelResult {
    pub channel_name: String,
    pub outcome: Outcome,
}

impl View for ChannelResult {
    type V = ChannelFate;

    open spec fn view(&self) -> ChannelFate {
        ChannelFate { channel_name: self.channel_name@, outcome: self.outcome@ }
    }
}

/// The views of a list of results.
pub open spec fn results_view(results: Seq<ChannelResult>) -> Seq<ChannelFate> {
    Seq::new(results.len(), |i: int| results[i]@)
}

/// How many of the results are deliveries.
pub open spec fn sent_count(results: Seq<ChannelFate>) -> nat
    decreases results.len(),
{
    if results.len() == 0 {
        0
    } else {
        sent_count(results.drop_last()) + if results.last().outcome is Sent {
            1nat
        } else {
            0nat
        }
    }
}

/// How many of the results are failures.
pub open spec fn failed_count(results: Seq<ChannelFate>) -> nat
    decreases results.len(),
{
    if results.len() == 0 {
        0
    } else {
        failed_count(results.drop_last()) + if results.last().outcome is Failed {
            1nat
        } else {
            0nat
        }
    }
}

/// The aggregate of a dispatch.
#[derive(Clone, Copy, Debug, PartialEq, Eq, Structural)]
pub enum Aggregate {
    /// Nothing was configured or nothing was selected.
    Skipped,
    /// Every contacted channel took the text.
    Success,
    /// Some channels took it and some did not.
    Partial,
    /// No channel took it.
    Failure,
}

/// Why a dispatch contacts nobody.
#[derive(Clone, Copy, Debug, PartialEq, Eq, Structural)]
pub enum SkipReason {
    /// The older form is in use and its endpoint is empty.
    NotConfigured,
    /// The list is empty, or no position was selected.
    NothingSelected,
}

/// The aggregate for the two counts: success needs a delivery and no failure.
pub open spec fn aggregate_of(sent: nat, failed: nat) -> Aggregate {
    if failed == 0 && sent > 0 {
        Aggregate::Success
    } else if failed > 0 && sent > 0 {
        Aggregate::Partial
    } else {
        Aggregate::Failure
    }
}

/// How each aggregate closes the progress reporter.
pub open spec fn final_kind(aggregate: Aggregate) -> FinalKind {
    match aggregate {
        Aggregate::Success => FinalKind::Success,
        Aggregate::Partial => FinalKind::Warn,
        Aggregate::Skipped => FinalKind::Warn,
        Aggregate::Failure => FinalKind::Fail,
    }
}

/// A channel to contact, as a mathematical value: its configured position and
/// what it is.
pub struct Target {
    pub index: int,
    pub channel: Channel,
}

/// A channel to contact.
#[derive(Clone, Debug, PartialEq, Eq)]
pub struct PlannedSend {
    pub index: usize,
    pub channel: ChannelConfig,
}

impl View for PlannedSend {
    type V = Target;

    open spec fn view(&self) -> Target {
        Target { index: self.index as int, channel: self.channel@ }
    }
}

/// The views of a list of planned sends.
pub open spec fn targets_view(targets: Seq<PlannedSend>) -> Seq<Target> {
    Seq::new(targets.len(), |i: int| targets[i]@)
}

/// Whether a selection names a position.
pub open spec fn chosen(selection: Seq<usize>, index: int) -> bool {
    exists|k: int| 0 <= k < selection.len() && selection[k] == index
}

/// Whether the channel at a position is to be contacted: the single channel
/// of the older form always is, a listed one if the selection names it.
pub open spec fn selected(source: Source, selection: Seq<usize>, index: int) -> bool {
    match source {
        Source::Legacy(_) => true,
        Source::List(_) => chosen(selection, index),
    }
}

/// The channels to contact among the first `n` slots, in configured order.
pub open spec fn plan_upto(
    source: Source,
    selection: Seq<usize>,
    n: int,
) -> Seq<Target>
    decreases n,
{
    if n <= 0 {
        Seq::empty()
    } else {
        let before = plan_upto(source, selection, n - 1);
        match slots(source)[n - 1] {
            Some(channel) => if selected(source, selection, n - 1) {
                before.push(Target { index: n - 1, channel })
            } else {
                before
            },
            None => before,
        }
    }
}

/// The channels to contact, in configured order: every slot that holds a
/// channel and is selected, and no other.
pub open spec fn plan(source: Source, selection: Seq<usize>) -> Seq<Target> {
    plan_upto(source, selection, slots(source).len() as int)
}

/// Why nobody is contacted, if so: the older form without an endpoint, an
/// empty list, or an empty selection from a list.
pub open spec fn skip_reason(source: Source, selection: Seq<usize>) -> Option<SkipReason> {
    match source {
        Source::Legacy(endpoint) => if endpoint.len() == 0 {
            Some(SkipReason::NotConfigured)
        } else {
            None
        },
        Source::List(entries) => if entries.len() == 0 || selection.len() == 0 {
            Some(SkipReason::NothingSelected)
        } else {
            None
        },
    }
}

/// The number of channels announced when a dispatch starts.
pub open spec fn announced_count(source: Source, selection: Seq<usize>) -> nat {
    match source {
        Source::Legacy(_) => 1,
        Source::List(_) => selection.len(),
    }
}

pub open spec fn skip_message(kind: ChannelKind, reason: SkipReason) -> Seq<char> {
    match reason {
        SkipReason::NotConfigured => kind.label()
            + " webhook endpoint is not configured. Skipping "@ + kind.label() + " notification."@,
        SkipReason::NothingSelected => "No "@ + kind.label() + " webhooks selected. Skipping "@
            + kind.label() + " notification."@,
    }
}

pub open spec fn processing_message(kind: ChannelKind, count: nat) -> Seq<char> {
    "Processing "@ + decimal(count) + " "@ + kind.label() + " webhooks..."@
}

pub open spec fn sending_message(kind: ChannelKind, name: Seq<char>) -> Seq<char> {
    "Sending to "@ + kind.label() + " ("@ + name + ")"@
}

pub open spec fn sent_message(kind: ChannelKind, name: Seq<char>) -> Seq<char> {
    "Successfully sent to "@ + kind.label() + " ("@ + name + ")"@
}

pub open spec fn error_message(kind: ChannelKind, name: Seq<char>, reason: Seq<char>) -> Seq<
    char,
> {
    "Error sending to "@ + kind.label() + " ("@ + name + "): "@ + reason
}

/// The message shown for one channel's fate, and its colouring.
pub open spec fn fate_message(kind: ChannelKind, name: Seq<char>, fate: Fate) -> Seq<char> {
    match fate {
        Fate::Sent => sent_message(kind, name),
        Fate::Failed(reason) => error_message(kind, name, reason),
    }
}

pub open spec fn fate_tone(fate: Fate) -> Tone {
    match fate {
        Fate::Sent => Tone::Good,
        Fate::Failed(_) => Tone::Bad,
    }
}

/// The terminal message of a dispatch that contacted its channels.
pub open spec fn final_message(notice: Notice, sent: nat, failed: nat) -> Seq<char> {
    match aggregate_of(sent, failed) {
        Aggregate::Success => match notice {
            Notice::Slack => "Summary sent to "@ + decimal(sent) + " Slack webhooks"@,
            Notice::Teams { title, date_header, success_message } => success_message
                + " (Sent to "@ + decimal(sent) + " webhooks)"@,
        },
        Aggregate::Partial => "Sent to "@ + decimal(sent) + " "@ + notice.kind().label()
            + " webhooks, failed to send to "@ + decimal(failed) + " webhooks"@,
        _ => "Failed to send summary to any "@ + notice.kind().label() + " webhooks!"@,
    }
}

/// One request for the transport, as a mathematical value.
pub struct Request {
    pub index: int,
    pub channel_name: Seq<char>,
    pub endpoint_url: Seq<char>,
    pub payload: Seq<char>,
}

/// One request for the transport: `payload` goes to `endpoint_url` as a JSON
/// body.
#[derive(Clone, Debug, PartialEq, Eq)]
pub struct SendRequest {
    pub index: usize,
    pub channel_name: String,
    pub endpoint_url: String,
    pub payload: String,
}

impl View for SendRequest {
    type V = Request;

    open spec fn view(&self) -> Request {
        Request {
            index: self.index as int,
            channel_name: self.channel_name@,
            endpoint_url: self.endpoint_url@,
            payload: self.payload@,
        }
    }
}

/// What a finished dispatch reports, as a mathematical value.
pub struct Report {
    pub results: Seq<ChannelFate>,
    pub sent_count: nat,
    pub failed_count: nat,
    pub aggregate: Aggregate,
    pub undelivered_text: Option<Seq<char>>,
}

/// What a finished dispatch reports: each contacted channel's result in the
/// order of contact, the two counts, the aggregate, and, where nobody was
/// contacted because nothing was configured or selected, the text itself.
#[derive(Clone, Debug, PartialEq, Eq)]
pub struct DispatchResult {
    pub results: Vec<ChannelResult>,
    pub sent_count: usize,
    pub failed_count: usize,
    pub aggregate: Aggregate,
    pub undelivered_text: Option<String>,
}

impl View for DispatchResult {
    type V = Report;

    open spec fn view(&self) -> Report {
        Report {
            results: results_view(self.results@),
            sent_count: self.sent_count as nat,
            failed_count: self.failed_count as nat,
            aggregate: self.aggregate,
            undelivered_text: match self.undelivered_text {
                Some(t) => Some(t@),
                None => None,
            },
        }
    }
}

/// The state of a dispatch, as a mathematical value.
pub struct DispatchState {
    pub notice: Notice,
    pub text: Seq<char>,
    pub payload: Seq<char>,
    pub skip: Option<SkipReason>,
    pub targets: Seq<Target>,
    pub results: Seq<ChannelFate>,
}

impl DispatchState {
    /// The state in which a dispatch starts.
    pub open spec fn initial(
        notice: Notice,
        source: Source,
        selection: Seq<usize>,
        text: Seq<char>,
    ) -> DispatchState {
        DispatchState {
            notice,
            text,
            payload: notice.payload(text),
            skip: skip_reason(source, selection),
            targets: if skip_reason(source, selection) is Some {
                Seq::empty()
            } else {
                plan(source, selection)
            },
            results: Seq::empty(),
        }
    }

    /// The payload carries the text; results never outrun the plan, and each
    /// belongs to the channel at its position in the plan.
    pub open spec fn wf(self) -> bool {
        &&& self.payload == self.notice.payload(self.text)
        &&& self.results.len() <= self.targets.len()
        &&& forall|i: int|
            0 <= i < self.results.len() ==> (#[trigger] self.results[i]).channel_name
                == self.targets[i].channel.name
        &&& self.skip is Some ==> self.targets.len() == 0
    }

    /// A channel is still to be contacted.
    pub open spec fn pending(self) -> bool {
        self.results.len() < self.targets.len()
    }

    /// The request for the next channel to contact.
    pub open spec fn next_request(self) -> Request {
        let target = self.targets[self.results.len() as int];
        Request {
            index: target.index,
            channel_name: target.channel.name,
            endpoint_url: target.channel.endpoint_url,
            payload: self.payload,
        }
    }

    /// The state after the transport's report on the next channel; a dispatch
    /// with nothing pending ignores it.
    pub open spec fn recorded(self, reply: Reply) -> DispatchState {
        if self.pending() {
            DispatchState {
                results: self.results.push(
                    ChannelFate {
                        channel_name: self.targets[self.results.len() as int].channel.name,
                        outcome: classified(reply),
                    },
                ),
                ..self
            }
        } else {
            self
        }
    }

    /// The aggregate of what has been recorded.
    pub open spec fn aggregate(self) -> Aggregate {
        if self.skip is Some {
            Aggregate::Skipped
        } else {
            aggregate_of(sent_count(self.results), failed_count(self.results))
        }
    }

    /// The report of what has been recorded.
    pub open spec fn report(self) -> Report {
        Report {
            results: self.results,
            sent_count: sent_count(self.results),
            failed_count: failed_count(self.results),
            aggregate: self.aggregate(),
            undelivered_text: if self.skip is Some {
                Some(self.text)
            } else {
                None
            },
        }
    }

    /// The reporter after the dispatch has closed it: a skipped dispatch was
    /// closed at its start and leaves it as it is.
    pub open spec fn closes(self, reporter: ProgressState) -> ProgressState {
        if self.skip is Some {
            reporter
        } else {
            reporter.closed_with(
                final_message(self.notice, sent_count(self.results), failed_count(self.results)),
                final_kind(self.aggregate()),
            )
        }
    }
}

/// Whether a selection names a position.
pub fn is_chosen(selection: &Vec<usize>, index: usize) -> (found: bool)
    ensures
        found == chosen(selection@, index as int),
{
    let mut k: usize = 0;
    while k < selection.len()
        invariant
            k <= selection.len(),
            forall|j: int| 0 <= j < k ==> selection[j] != index,
        decreases selection.len() - k,
    {
        if selection[k] == index {
            return true;
        }
        k = k + 1;
    }
    false
}

fn is_legacy(source: &ChannelSource) -> (legacy: bool)
    ensures
        legacy == (source@ is Legacy),
{
    match source {
        ChannelSource::Legacy(_) => true,
        ChannelSource::List(_) => false,
    }
}

/// The channels to contact for a configuration and a selection, in
/// configured order.
pub fn plan_sends(source: &ChannelSource, selection: &Vec<usize>) -> (targets: Vec<PlannedSend>)
    ensures
        targets_view(targets@) == plan(source@, selection@),
{
    let list = channel_slots(source);
    let legacy = is_legacy(source);
    let mut targets: Vec<PlannedSend> = Vec::new();
    let mut i: usize = 0;
    while i < list.len()
        invariant
            i <= list.len(),
            slots_view(list@) == slots(source@),
            legacy == (source@ is Legacy),
            targets_view(targets@) == plan_upto(source@, selection@, i as int),
        decreases list.len() - i,
    {
        if let Some(channel) = &list[i] {
            if legacy || is_chosen(selection, i) {
                targets.push(
                    PlannedSend {
                        index: i,
                        channel: ChannelConfig {
                            name: channel.name.clone(),
                            endpoint_url: channel.endpoint_url.clone(),
                        },
                    },
                );
            }
        }
        i = i + 1;
    }
    targets
}

fn skip_of(source: &ChannelSource, selection: &Vec<usize>) -> (skip: Option<SkipReason>)
    ensures
        skip == skip_reason(source@, selection@),
{
    match source {
        ChannelSource::Legacy(endpoint) => {
            if endpoint.as_str().is_empty() {
                Some(SkipReason::NotConfigured)
            } else {
                None
            }
        },
        ChannelSource::List(entries) => {
            if entries.len() == 0 || selection.len() == 0 {
                Some(SkipReason::NothingSelected)
            } else {
                None
            }
        },
    }
}

fn skip_text(kind: ChannelKind, reason: SkipReason) -> (message: String)
    ensures
        message@ == skip_message(kind, reason),
{
    match reason {
        SkipReason::NotConfigured => {
            let mut message = kind.name().to_owned();
            message.append(" webhook endpoint is not configured. Skipping ");
            message.append(kind.name());
            message.append(" notification.");
            message
        },
        SkipReason::NothingSelected => {
            let mut message = "No ".to_owned();
            message.append(kind.name());
            message.append(" webhooks selected. Skipping ");
            message.append(kind.name());
            message.append(" notification.");
            message
        },
    }
}

fn processing_text(kind: ChannelKind, count: usize) -> (message: String)
    ensures
        message@ == processing_message(kind, count as nat),
{
    let mut message = "Processing ".to_owned();
    message.append(decimal_string(count as u64).as_str());
    message.append(" ");
    message.append(kind.name());
    message.append(" webhooks...");
    message
}

fn sending_text(kind: ChannelKind, name: &str) -> (message: String)
    ensures
        message@ == sending_message(kind, name@),
{
    let mut message = "Sending to ".to_owned();
    message.append(kind.name());
    message.append(" (");
    message.append(name);
    message.append(")");
    message
}

fn fate_text(kind: ChannelKind, name: &str, outcome: &Outcome) -> (message: String)
    ensures
        message@ == fate_message(kind, name@, outcome@),
{
    match outcome {
        Outcome::Sent => {
            let mut message = "Successfully sent to ".to_owned();
            message.append(kind.name());
            message.append(" (");
            message.append(name);
            message.append(")");
            message
        },
        Outcome::Failed(reason) => {
            let mut message = "Error sending to ".to_owned();
            message.append(kind.name());
            message.append(" (");
            message.append(name);
            message.append("): ");
            message.append(reason.as_str());
            message
        },
    }
}

/// The aggregate for the two counts.
pub fn aggregate(sent: usize, failed: usize) -> (result: Aggregate)
    ensures
        result == aggregate_of(sent as nat, failed as nat),
{
    if failed == 0 && sent > 0 {
        Aggregate::Success
    } else if failed > 0 && sent > 0 {
        Aggregate::Partial
    } else {
        Aggregate::Failure
    }
}

fn kind_of(notice: &Notification) -> (kind: ChannelKind)
    ensures
        kind == notice@.kind(),
{
    match notice {
        Notification::Slack => ChannelKind::Slack,
        Notification::Teams { .. } => ChannelKind::Teams,
    }
}

fn final_text(notice: &Notification, sent: usize, failed: usize) -> (message: String)
    ensures
        message@ == final_message(notice@, sent as nat, failed as nat),
{
    let kind = kind_of(notice);
    match aggregate(sent, failed) {
        Aggregate::Success => match notice {
            Notification::Slack => {
                let mut message = "Summary sent to ".to_owned();
                message.append(decimal_string(sent as u64).as_str());
                message.append(" Slack webhooks");
                message
            },
            Notification::Teams { title, date_header, success_message } => {
                let mut message = success_message.clone();
                message.append(" (Sent to ");
                message.append(decimal_string(sent as u64).as_str());
                message.append(" webhooks)");
                message
            },
        },
        Aggregate::Partial => {
            let mut message = "Sent to ".to_owned();
            message.append(decimal_string(sent as u64).as_str());
            message.append(" ");
            message.append(kind.name());
            message.append(" webhooks, failed to send to ");
            message.append(decimal_string(failed as u64).as_str());
            message.append(" webhooks");
            message
        },
        _ => {
            let mut message = "Failed to send summary to any ".to_owned();
            message.append(kind.name());
            message.append(" webhooks!");
            message
        },
    }
}

fn kind_closes(aggregate: Aggregate) -> (kind: FinalKind)
    ensures
        kind == final_kind(aggregate),
{
    match aggregate {
        Aggregate::Success => FinalKind::Success,
        Aggregate::Partial => FinalKind::Warn,
        Aggregate::Skipped => FinalKind::Warn,
        Aggregate::Failure => FinalKind::Fail,
    }
}

/// Builds the request body of a notification for a text.
pub fn payload_for(notice: &Notification, text: &str) -> (payload: String)
    ensures
        payload@ == notice@.payload(text@),
{
    match notice {
        Notification::Slack => slack_payload(text),
        Notification::Teams { title, date_header, success_message } => teams_payload(
            title.as_str(),
            date_header.as_str(),
            text,
        ),
    }
}

/// Counts the deliveries and the failures among results.
pub fn count_results(results: &Vec<ChannelResult>) -> (counts: (usize, usize))
    ensures
        counts.0 == sent_count(results_view(results@)),
        counts.1 == failed_count(results_view(results@)),
        counts.0 + counts.1 == results.len(),
{
    let mut sent: usize = 0;
    let mut failed: usize = 0;
    let mut i: usize = 0;
    let ghost all = results_view(results@);
    while i < results.len()
        invariant
            i <= results.len(),
            all == results_view(results@),
            sent == sent_count(all.take(i as int)),
            failed == failed_count(all.take(i as int)),
            sent + failed == i,
        decreases results.len() - i,
    {
        assert(all.take(i + 1).drop_last() =~= all.take(i as int));
        match &results[i].outcome {
            Outcome::Sent => {
                sent = sent + 1;
            },
            Outcome::Failed(_) => {
                failed = failed + 1;
            },
        }
        i = i + 1;
    }
    assert(all.take(i as int) =~= all);
    (sent, failed)
}

/// A dispatch in progress.
#[derive(Debug)]
pub struct Dispatch {
    notice: Notification,
    text: String,
    payload: String,
    skip: Option<SkipReason>,
    targets: Vec<PlannedSend>,
    results: Vec<ChannelResult>,
}

impl View for Dispatch {
    type V = DispatchState;

    closed spec fn view(&self) -> DispatchState {
        DispatchState {
            notice: self.notice@,
            text: self.text@,
            payload: self.payload@,
            skip: self.skip,
            targets: targets_view(self.targets@),
            results: results_view(self.results@),
        }
    }
}

impl Dispatch {
    #[verifier::type_invariant]
    spec fn inv(self) -> bool {
        self@.wf()
    }

    /// Starts a dispatch of `text`. Where nothing is configured or selected
    /// the reporter is closed with a warning and nobody will be contacted;
    /// otherwise the reporter announces the number of selected channels.
    pub fn start(
        notice: Notification,
        source: &ChannelSource,
        selection: &Vec<usize>,
        text: &str,
        reporter: &mut ProgressReporter,
    ) -> (dispatch: Dispatch)
        ensures
            dispatch@ == DispatchState::initial(notice@, source@, selection@, text@),
            dispatch@.wf(),
            final(reporter)@ == match skip_reason(source@, selection@) {
                Some(reason) => old(reporter)@.closed_with(
                    skip_message(notice@.kind(), reason),
                    FinalKind::Warn,
                ),
                None => old(reporter)@.updated(
                    processing_message(notice@.kind(), announced_count(source@, selection@)),
                    Tone::Neutral,
                ),
            },
    {
        let kind = kind_of(&notice);
        let payload = payload_for(&notice, text);
        let skip = skip_of(source, selection);
        let targets = match skip {
            Some(reason) => {
                reporter.finalize(skip_text(kind, reason).as_str(), FinalKind::Warn);
                let none: Vec<PlannedSend> = Vec::new();
                assert(targets_view(none@) =~= Seq::<Target>::empty());
                none
            },
            None => {
                let count = if is_legacy(source) {
                    1
                } else {
                    selection.len()
                };
                reporter.update(processing_text(kind, count).as_str(), Tone::Neutral);
                plan_sends(source, selection)
            },
        };
        let results: Vec<ChannelResult> = Vec::new();
        assert(results_view(results@) =~= Seq::<ChannelFate>::empty());
        Dispatch { notice, text: text.to_owned(), payload, skip, targets, results }
    }

    /// Whether a channel is still to be contacted.
    pub fn is_pending(&self) -> (pending: bool)
        ensures
            pending == self@.pending(),
    {
        self.results.len() < self.targets.len()
    }

    /// The text being delivered.
    pub fn text(&self) -> (text: &str)
        ensures
            text@ == self@.text,
    {
        self.text.as_str()
    }

    /// Hands out the request for the next channel and shows on the reporter
    /// that it is being contacted; `None`, and nothing shown, once every
    /// channel has been attempted.
    pub fn begin(&self, reporter: &mut ProgressReporter) -> (request: Option<SendRequest>)
        ensures
            match request {
                Some(r) => self@.pending() && r@ == self@.next_request() && final(reporter)@ == old(
                    reporter,
                )@.updated(
                    sending_message(self@.notice.kind(), self@.next_request().channel_name),
                    Tone::Neutral,
                ),
                None => !self@.pending() && final(reporter)@ == old(reporter)@,
            },
    {
        proof {
            use_type_invariant(self);
        }
        let k = self.results.len();
        if k < self.targets.len() {
            let target = &self.targets[k];
            let kind = kind_of(&self.notice);
            reporter.update(sending_text(kind, target.channel.name.as_str()).as_str(), Tone::Neutral);
            Some(
                SendRequest {
                    index: target.index,
                    channel_name: target.channel.name.clone(),
                    endpoint_url: target.channel.endpoint_url.clone(),
                    payload: self.payload.clone(),
                },
            )
        } else {
            None
        }
    }

    /// Takes the transport's report on the channel handed out last and shows
    /// its fate on the reporter. Returns whether a channel was pending; a
    /// report with none pending is ignored.
    pub fn record(&mut self, delivery: &Delivery, reporter: &mut ProgressReporter) -> (recorded:
        bool)
        ensures
            recorded == old(self)@.pending(),
            final(self)@ == old(self)@.recorded(delivery@),
            final(self)@.wf(),
            final(reporter)@ == if old(self)@.pending() {
                old(reporter)@.updated(
                    fate_message(
                        old(self)@.notice.kind(),
                        old(self)@.next_request().channel_name,
                        classified(delivery@),
                    ),
                    fate_tone(classified(delivery@)),
                )
            } else {
                old(reporter)@
            },
    {
        proof {
            use_type_invariant(&*self);
        }
        let k = self.results.len();
        if k < self.targets.len() {
            let outcome = classify(delivery);
            let kind = kind_of(&self.notice);
            let name = self.targets[k].channel.name.clone();
            let tone = match outcome {
                Outcome::Sent => Tone::Good,
                Outcome::Failed(_) => Tone::Bad,
            };
            reporter.update(fate_text(kind, name.as_str(), &outcome).as_str(), tone);
            let ghost before = results_view(self.results@);
            let ghost fate = ChannelFate { channel_name: name@, outcome: outcome@ };
            let mut results: Vec<ChannelResult> = Vec::new();
            core::mem::swap(&mut self.results, &mut results);
            results.push(ChannelResult { channel_name: name, outcome });
            assert(results_view(results@) =~= before.push(fate));
            self.results = results;
            true
        } else {
            false
        }
    }

    /// Closes a dispatch whose channels have all been attempted: the reporter
    /// is closed with the aggregate (a skipped dispatch closed it at its
    /// start) and the report is handed out. A dispatch with a channel pending
    /// comes back unchanged, and the reporter stays as it is.
    pub fn finish(self, reporter: &mut ProgressReporter) -> (outcome: Result<
        DispatchResult,
        Dispatch,
    >)
        ensures
            match outcome {
                Ok(result) => !self@.pending() && result@ == self@.report() && final(reporter)@
                    == self@.closes(old(reporter)@),
                Err(dispatch) => self@.pending() && dispatch@ == self@ && final(reporter)@ == old(
                    reporter,
                )@,
            },
    {
        proof {
            use_type_invariant(&self);
        }
        if self.results.len() < self.targets.len() {
            return Err(self);
        }
        let (sent, failed) = count_results(&self.results);
        let Dispatch { notice, text, payload, skip, targets, results } = self;
        match skip {
            Some(_) => Ok(
                DispatchResult {
                    results,
                    sent_count: sent,
                    failed_count: failed,
                    aggregate: Aggregate::Skipped,
                    undelivered_text: Some(text),
                },
            ),
            None => {
                let total = aggregate(sent, failed);
                reporter.finalize(final_text(&notice, sent, failed).as_str(), kind_closes(total));
                Ok(
                    DispatchResult {
                        results,
                        sent_count: sent,
                        failed_count: failed,
                        aggregate: total,
                        undelivered_text: None,
                    },
                )
            },
        }
    }
}

/// Starts the delivery of a summary to the selected text-envelope channels.
pub fn send_slack_notification(
    source: &ChannelSource,
    reporter: &mut ProgressReporter,
    summarized_text: &str,
    webhook_indices: &Vec<usize>,
) -> (dispatch: Dispatch)
    ensures
        dispatch@ == DispatchState::initial(
            Notice::Slack,
            source@,
            webhook_indices@,
            summarized_text@,
        ),
        dispatch@.wf(),
        final(reporter)@ == match skip_reason(source@, webhook_indices@) {
            Some(reason) => old(reporter)@.closed_with(
                skip_message(ChannelKind::Slack, reason),
                FinalKind::Warn,
            ),
            None => old(reporter)@.updated(
                processing_message(ChannelKind::Slack, announced_count(source@, webhook_indices@)),
                Tone::Neutral,
            ),
        },
{
    Dispatch::start(Notification::Slack, source, webhook_indices, summarized_text, reporter)
}

/// Starts the delivery of a summary, as a card with a title and a date line,
/// to the selected card channels. `success_message` reports the delivery
/// when every channel took the card.
pub fn send_teams_notification(
    source: &ChannelSource,
    reporter: &mut ProgressReporter,
    summarized_text: &str,
    user_input: &str,
    date_header: &str,
    success_message: &str,
    webhook_indices: &Vec<usize>,
) -> (dispatch: Dispatch)
    ensures
        dispatch@ == DispatchState::initial(
            Notice::Teams {
                title: user_input@,
                date_header: date_header@,
                success_message: success_message@,
            },
            source@,
            webhook_indices@,
            summarized_text@,
        ),
        dispatch@.wf(),
        final(reporter)@ == match skip_reason(source@, webhook_indices@) {
            Some(reason) => old(reporter)@.closed_with(
                skip_message(ChannelKind::Teams, reason),
                FinalKind::Warn,
            ),
            None => old(reporter)@.updated(
                processing_message(ChannelKind::Teams, announced_count(source@, webhook_indices@)),
                Tone::Neutral,
            ),
        },
{
    let notice = Notification::Teams {
        title: user_input.to_owned(),
        date_header: date_header.to_owned(),
        success_message: success_message.to_owned(),
    };
    Dispatch::start(notice, source, webhook_indices, summarized_text, reporter)
}

/// The state after the transport's reports on the next channels, in order.
pub open spec fn replayed(state: DispatchState, replies: Seq<Reply>) -> DispatchState
    decreases replies.len(),
{
    if replies.len() == 0 {
        state
    } else {
        replayed(state, replies.drop_last()).recorded(replies.last())
    }
}

/// How many of the reports are failures.
pub open spec fn failures(replies: Seq<Reply>) -> nat
    decreases replies.len(),
{
    if replies.len() == 0 {
        0
    } else {
        failures(replies.drop_last()) + if classified(replies.last()) is Failed {
            1nat
        } else {
            0nat
        }
    }
}

/// Every result is a delivery or a failure: the two counts add up to the
/// number of results.
pub proof fn lemma_counts_partition(results: Seq<ChannelFate>)
    ensures
        sent_count(results) + failed_count(results) == results.len(),
    decreases results.len(),
{
    if results.len() > 0 {
        lemma_counts_partition(results.drop_last());
    }
}

/// Reports on pending channels are recorded one by one: nothing but the
/// results changes, each report adds one result, and the counts grow by the
/// deliveries and the failures among the reports.
pub proof fn lemma_replay(state: DispatchState, replies: Seq<Reply>)
    requires
        state.wf(),
        state.results.len() + replies.len() <= state.targets.len(),
    ensures
        replayed(state, replies).wf(),
        replayed(state, replies).notice == state.notice,
        replayed(state, replies).text == state.text,
        replayed(state, replies).skip == state.skip,
        replayed(state, replies).targets == state.targets,
        replayed(state, replies).results.len() == state.results.len() + replies.len(),
        forall|i: int|
            0 <= i < state.results.len() ==> replayed(state, replies).results[i]
                == state.results[i],
        forall|i: int|
            0 <= i < replies.len() ==> (#[trigger] replayed(state, replies).results[
                state.results.len() + i
            ]) == (ChannelFate {
                channel_name: state.targets[state.results.len() + i].channel.name,
                outcome: classified(replies[i]),
            }),
        failed_count(replayed(state, replies).results) == failed_count(state.results) + failures(
            replies,
        ),
        sent_count(replayed(state, replies).results) + failures(replies) == sent_count(
            state.results,
        ) + replies.len(),
    decreases replies.len(),
{
    if replies.len() > 0 {
        let earlier = replies.drop_last();
        lemma_replay(state, earlier);
        let before = replayed(state, earlier);
        let after = before.recorded(replies.last());
        assert(after.results.drop_last() =~= before.results);
        assert forall|i: int| 0 <= i < replies.len() implies (#[trigger] after.results[
            state.results.len() + i
        ]) == (ChannelFate {
            channel_name: state.targets[state.results.len() + i].channel.name,
            outcome: classified(replies[i]),
        }) by {
            if i < earlier.len() {
            }
        }
    }
}

/// A dispatch over N channels of which K fail reports N - K deliveries and K
/// failures, has nothing pending, and reports success only where K is zero.
pub proof fn lemma_dispatch_counts(
    notice: Notice,
    source: Source,
    selection: Seq<usize>,
    text: Seq<char>,
    replies: Seq<Reply>,
)
    requires
        replies.len() == DispatchState::initial(notice, source, selection, text).targets.len(),
    ensures
        ({
            let done = replayed(DispatchState::initial(notice, source, selection, text), replies);
            &&& !done.pending()
            &&& done.report().results.len() == replies.len()
            &&& done.report().failed_count == failures(replies)
            &&& done.report().sent_count == replies.len() - failures(replies)
            &&& failures(replies) > 0 ==> done.report().aggregate != Aggregate::Success
            &&& done.report().aggregate == Aggregate::Success ==> done.report().sent_count
                == replies.len() && replies.len() > 0
        }),
{
    let start = DispatchState::initial(notice, source, selection, text);
    lemma_replay(start, replies);
}

/// The plan follows the configuration: its positions strictly increase, each
/// is a selected slot that holds the planned channel, and every selected slot
/// that holds a channel is planned.
pub proof fn lemma_plan_upto(source: Source, selection: Seq<usize>, n: int)
    requires
        0 <= n <= slots(source).len(),
    ensures
        forall|i: int|
            0 <= i < plan_upto(source, selection, n).len() ==> {
                let target = #[trigger] plan_upto(source, selection, n)[i];
                &&& 0 <= target.index < n
                &&& selected(source, selection, target.index)
                &&& slots(source)[target.index] == Some(target.channel)
            },
        forall|i: int, j: int|
            0 <= i < j < plan_upto(source, selection, n).len() ==> (#[trigger] plan_upto(
                source,
                selection,
                n,
            )[i]).index < (#[trigger] plan_upto(source, selection, n)[j]).index,
        forall|index: int|
            0 <= index < n && selected(source, selection, index) && (#[trigger] slots(
                source,
            )[index]) is Some ==> exists|i: int|
                0 <= i < plan_upto(source, selection, n).len() && (#[trigger] plan_upto(
                    source,
                    selection,
                    n,
                )[i]).index == index,
        plan_upto(source, selection, n).len() <= n,
    decreases n,
{
    if n > 0 {
        lemma_plan_upto(source, selection, n - 1);
        let before = plan_upto(source, selection, n - 1);
        let now = plan_upto(source, selection, n);
        assert forall|index: int|
            0 <= index < n && selected(source, selection, index) && (#[trigger] slots(
                source,
            )[index]) is Some implies exists|i: int|
            0 <= i < now.len() && (#[trigger] now[i]).index == index by {
            if index < n - 1 {
                let i = choose|i: int| 0 <= i < before.len() && (#[trigger] before[i]).index == index;
                assert(now[i] == before[i]);
            } else {
                assert(now[now.len() - 1].index == index);
            }
        }
    }
}

/// Channels are contacted in configured order: the k-th request of a dispatch
/// goes to the k-th planned channel, and the planned positions strictly
/// increase.
pub proof fn lemma_contact_order(
    notice: Notice,
    source: Source,
    selection: Seq<usize>,
    text: Seq<char>,
    replies: Seq<Reply>,
)
    requires
        skip_reason(source, selection) is None,
        replies.len() < plan(source, selection).len(),
    ensures
        ({
            let state = replayed(DispatchState::initial(notice, source, selection, text), replies);
            let request = state.next_request();
            &&& state.pending()
            &&& request.index == plan(source, selection)[replies.len() as int].index
            &&& request.channel_name == plan(source, selection)[replies.len() as int].channel.name
            &&& request.endpoint_url == plan(
                source,
                selection,
            )[replies.len() as int].channel.endpoint_url
            &&& request.payload == notice.payload(text)
        }),
        forall|i: int, j: int|
            0 <= i < j < plan(source, selection).len() ==> (#[trigger] plan(
                source,
                selection,
            )[i]).index < (#[trigger] plan(source, selection)[j]).index,
{
    lemma_replay(DispatchState::initial(notice, source, selection, text), replies);
    lemma_plan_upto(source, selection, slots(source).len() as int);
}

/// With every configured entry usable and every position selected, the plan
/// is the configured list itself.
pub proof fn lemma_plan_of_all(source: Source, selection: Seq<usize>, n: int)
    requires
        0 <= n <= slots(source).len(),
        forall|index: int|
            0 <= index < slots(source).len() ==> selected(source, selection, index) && (
            #[trigger] slots(source)[index]) is Some,
    ensures
        plan_upto(source, selection, n).len() == n,
        forall|i: int|
            0 <= i < n ==> (#[trigger] plan_upto(source, selection, n)[i]) == (Target {
                index: i,
                channel: slots(source)[i]->0,
            }),
    decreases n,
{
    if n > 0 {
        lemma_plan_of_all(source, selection, n - 1);
    }
}

/// An empty selection from a list raises nothing and keeps the text: the
/// dispatch is skipped, contacts nobody, and its report hands the text back.
pub proof fn lemma_empty_selection_keeps_text(
    notice: Notice,
    entries: Seq<crate::channels::Entry>,
    text: Seq<char>,
)
    ensures
        ({
            let state = DispatchState::initial(
                notice,
                Source::List(entries),
                Seq::<usize>::empty(),
                text,
            );
            &&& state.wf()
            &&& !state.pending()
            &&& state.text == text
            &&& state.report().aggregate == Aggregate::Skipped
            &&& state.report().undelivered_text == Some(text)
            &&& state.report().results.len() == 0
        }),
{
}

/// Whatever is recorded, a dispatch keeps the text it was started with.
pub proof fn lemma_text_is_kept(
    notice: Notice,
    source: Source,
    selection: Seq<usize>,
    text: Seq<char>,
    replies: Seq<Reply>,
)
    ensures
        replayed(DispatchState::initial(notice, source, selection, text), replies).text == text,
    decreases replies.len(),
{
    if replies.len() > 0 {
        lemma_text_is_kept(notice, source, selection, text, replies.drop_last());
    }
}

} // verus!
