//! The shared progress indicator and its finalize-once guard.
//!
//! One reporter lives for one run. Every stage may replace its message while
//! the run is open; the first stage that closes it fixes the terminal line, and
//! every later attempt to write is ignored.

use vstd::prelude::*;

verus! {

/// How a run's progress indicator was closed.
#[derive(Clone, Copy, Debug, PartialEq, Eq, Structural)]
pub enum FinalKind {
    Success,
    Warn,
    Fail,
}

/// The colouring of an intermediate message.
#[derive(Clone, Copy, Debug, PartialEq, Eq, Structural)]
pub enum Tone {
    Neutral,
    Good,
    Bad,
}

/// The mathematical state of a reporter.
pub struct ProgressState {
    pub message: Seq<char>,
    pub tone: Tone,
    pub outcome: Option<FinalKind>,
}

impl ProgressState {
    /// The reporter has been closed.
    pub open spec fn finalized(self) -> bool {
        self.outcome is Some
    }

    /// The state after an `update`: a closed reporter ignores it.
    pub open spec fn updated(self, message: Seq<char>, tone: Tone) -> ProgressState {
        if self.finalized() {
            self
        } else {
            ProgressState { message, tone, outcome: None }
        }
    }

    /// The state after a `finalize`: a closed reporter ignores it.
    pub open spec fn closed_with(self, message: Seq<char>, kind: FinalKind) -> ProgressState {
        if self.finalized() {
            self
        } else {
            ProgressState { message, tone: self.tone, outcome: Some(kind) }
        }
    }

    /// The state at the start of the next run: open again, message kept.
    pub open spec fn reopened(self) -> ProgressState {
        ProgressState { message: self.message, tone: self.tone, outcome: None }
    }
}

/// The progress indicator of one run.
pub struct ProgressReporter {
    message: String,
    tone: Tone,
    outcome: Option<FinalKind>,
}

impl View for ProgressReporter {
    type V = ProgressState;

    closed spec fn view(&self) -> ProgressState {
        ProgressState { message: self.message@, tone: self.tone, outcome: self.outcome }
    }
}

impl ProgressReporter {
    /// An open reporter that shows `message`.
    pub fn new(message: &str) -> (reporter: ProgressReporter)
        ensures
            reporter@ == (ProgressState { message: message@, tone: Tone::Neutral, outcome: None }),
    {
        ProgressReporter { message: message.to_owned(), tone: Tone::Neutral, outcome: None }
    }

    /// Replaces the message of an open reporter. Returns whether the message
    /// was taken; it never closes the reporter.
    pub fn update(&mut self, message: &str, tone: Tone) -> (applied: bool)
        ensures
            applied == !old(self)@.finalized(),
            final(self)@ == old(self)@.updated(message@, tone),
    {
        if self.outcome.is_some() {
            false
        } else {
            self.message = message.to_owned();
            self.tone = tone;
            true
        }
    }

    /// Closes an open reporter with its terminal message. Returns whether this
    /// call was the one that closed it.
    pub fn finalize(&mut self, message: &str, kind: FinalKind) -> (applied: bool)
        ensures
            applied == !old(self)@.finalized(),
            final(self)@ == old(self)@.closed_with(message@, kind),
            final(self)@.finalized(),
    {
        if self.outcome.is_some() {
            false
        } else {
            self.message = message.to_owned();
            self.outcome = Some(kind);
            true
        }
    }

    pub fn is_finalized(&self) -> (finalized: bool)
        ensures
            finalized == self@.finalized(),
    {
        self.outcome.is_some()
    }

    pub fn message(&self) -> (message: &str)
        ensures
            message@ == self@.message,
    {
        self.message.as_str()
    }

    pub fn tone(&self) -> (tone: Tone)
        ensures
            tone == self@.tone,
    {
        self.tone
    }

    pub fn outcome(&self) -> (outcome: Option<FinalKind>)
        ensures
            outcome == self@.outcome,
    {
        self.outcome
    }
}

/// Opens the reporter again at the start of a run.
pub fn reset_spinner_flag(reporter: &mut ProgressReporter)
    ensures
        final(reporter)@ == old(reporter)@.reopened(),
        !final(reporter)@.finalized(),
{
    reporter.outcome = None;
}

/// Closing is idempotent: of two `finalize` calls only the first is recorded.
pub proof fn lemma_finalize_once(
    state: ProgressState,
    first: Seq<char>,
    first_kind: FinalKind,
    second: Seq<char>,
    second_kind: FinalKind,
)
    ensures
        state.closed_with(first, first_kind).closed_with(second, second_kind) == state.closed_with(
            first,
            first_kind,
        ),
        !state.finalized() ==> state.closed_with(first, first_kind).closed_with(
            second,
            second_kind,
        ).message == first,
        !state.finalized() ==> state.closed_with(first, first_kind).closed_with(
            second,
            second_kind,
        ).outcome == Some(first_kind),
{
}

/// A closed reporter is frozen: neither `update` nor `finalize` changes it.
pub proof fn lemma_closed_is_frozen(
    state: ProgressState,
    message: Seq<char>,
    tone: Tone,
    kind: FinalKind,
)
    requires
        state.finalized(),
    ensures
        state.updated(message, tone) == state,
        state.closed_with(message, kind) == state,
{
}

/// `update` never closes a reporter.
pub proof fn lemma_update_never_finalizes(state: ProgressState, message: Seq<char>, tone: Tone)
    ensures
        state.updated(message, tone).finalized() == state.finalized(),
{
}

} // verus!
