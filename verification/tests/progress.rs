use distill::progress::{reset_spinner_flag, FinalKind, ProgressReporter, Tone};

#[test]
fn new_reporter_is_open() {
    let reporter = ProgressReporter::new("Uploading file to S3...");
    assert!(!reporter.is_finalized());
    assert_eq!(reporter.message(), "Uploading file to S3...");
    assert_eq!(reporter.tone(), Tone::Neutral);
    assert_eq!(reporter.outcome(), None);
}

#[test]
fn update_replaces_message_and_never_finalizes() {
    let mut reporter = ProgressReporter::new("a");
    assert!(reporter.update("b", Tone::Good));
    assert_eq!(reporter.message(), "b");
    assert_eq!(reporter.tone(), Tone::Good);
    assert!(!reporter.is_finalized());
    assert!(reporter.update("c", Tone::Bad));
    assert_eq!(reporter.message(), "c");
    assert!(!reporter.is_finalized());
}

#[test]
fn finalize_is_idempotent_first_message_wins() {
    let mut reporter = ProgressReporter::new("working");
    assert!(reporter.finalize("Done!", FinalKind::Success));
    assert!(!reporter.finalize("Failed to send summary to Slack!", FinalKind::Fail));
    assert!(reporter.is_finalized());
    assert_eq!(reporter.message(), "Done!");
    assert_eq!(reporter.outcome(), Some(FinalKind::Success));
}

#[test]
fn update_after_finalize_is_ignored() {
    let mut reporter = ProgressReporter::new("working");
    reporter.finalize("partial", FinalKind::Warn);
    assert!(!reporter.update("late", Tone::Good));
    assert_eq!(reporter.message(), "partial");
    assert_eq!(reporter.outcome(), Some(FinalKind::Warn));
}

#[test]
fn reset_opens_the_reporter_for_the_next_run() {
    let mut reporter = ProgressReporter::new("working");
    reporter.finalize("Done!", FinalKind::Success);
    reset_spinner_flag(&mut reporter);
    assert!(!reporter.is_finalized());
    assert_eq!(reporter.outcome(), None);
    assert_eq!(reporter.message(), "Done!");
    assert!(reporter.finalize("again", FinalKind::Fail));
    assert_eq!(reporter.message(), "again");
    assert_eq!(reporter.outcome(), Some(FinalKind::Fail));
}

#[test]
fn reset_on_open_reporter_changes_nothing() {
    let mut reporter = ProgressReporter::new("working");
    reset_spinner_flag(&mut reporter);
    assert!(!reporter.is_finalized());
    assert_eq!(reporter.message(), "working");
}
