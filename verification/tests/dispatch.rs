use distill::channels::{ChannelKind, ChannelSource, WebhookEntry};
use distill::dispatch::{
    aggregate, classify, count_results, is_chosen, payload_for, plan_sends,
    send_slack_notification, send_teams_notification, Aggregate, ChannelResult, Delivery,
    Dispatch, DispatchResult, Notification, Outcome, SendRequest,
};
use distill::payload::{slack_payload, teams_payload};
use distill::progress::{FinalKind, ProgressReporter, Tone};

fn channel(name: &str, endpoint: &str) -> WebhookEntry {
    WebhookEntry::Table { name: Some(name.to_string()), endpoint: Some(endpoint.to_string()) }
}

fn three_channels() -> ChannelSource {
    ChannelSource::List(vec![
        channel("A", "https://hooks.example/a"),
        channel("B", "https://hooks.example/b"),
        channel("C", "https://hooks.example/c"),
    ])
}

fn ok_reply() -> Delivery {
    Delivery::Responded { status: 200, status_line: "200 OK".to_string() }
}

fn run_with(
    notice: Notification,
    source: &ChannelSource,
    selection: &Vec<usize>,
    text: &str,
    replies: Vec<Delivery>,
    reporter: &mut ProgressReporter,
) -> (Vec<SendRequest>, Vec<String>, DispatchResult) {
    let mut dispatch = Dispatch::start(notice, source, selection, text, reporter);
    let mut sent = Vec::new();
    let mut shown = vec![reporter.message().to_string()];
    let mut replies = replies.into_iter();
    while let Some(request) = dispatch.begin(reporter) {
        shown.push(reporter.message().to_string());
        sent.push(request);
        let reply = replies.next().expect("a reply for every request");
        assert!(dispatch.record(&reply, reporter));
        shown.push(reporter.message().to_string());
    }
    assert!(!dispatch.is_pending());
    match dispatch.finish(reporter) {
        Ok(result) => (sent, shown, result),
        Err(_) => panic!("a dispatch with nothing pending must finish"),
    }
}

#[test]
fn classify_by_status() {
    assert_eq!(classify(&ok_reply()), Outcome::Sent);
    assert_eq!(
        classify(&Delivery::Responded { status: 299, status_line: "299".to_string() }),
        Outcome::Sent
    );
    assert_eq!(
        classify(&Delivery::Responded { status: 199, status_line: "199".to_string() }),
        Outcome::Failed("199".to_string())
    );
    assert_eq!(
        classify(&Delivery::Responded { status: 300, status_line: "300 Multiple Choices".to_string() }),
        Outcome::Failed("300 Multiple Choices".to_string())
    );
    assert_eq!(
        classify(&Delivery::Responded { status: 404, status_line: "404 Not Found".to_string() }),
        Outcome::Failed("404 Not Found".to_string())
    );
    assert_eq!(
        classify(&Delivery::TransportError("connection refused".to_string())),
        Outcome::Failed("connection refused".to_string())
    );
}

#[test]
fn aggregate_policy() {
    assert_eq!(aggregate(3, 0), Aggregate::Success);
    assert_eq!(aggregate(1, 0), Aggregate::Success);
    assert_eq!(aggregate(2, 1), Aggregate::Partial);
    assert_eq!(aggregate(0, 3), Aggregate::Failure);
    assert_eq!(aggregate(0, 0), Aggregate::Failure);
}

#[test]
fn chosen_positions() {
    assert!(is_chosen(&vec![2, 0], 0));
    assert!(is_chosen(&vec![2, 0], 2));
    assert!(!is_chosen(&vec![2, 0], 1));
    assert!(!is_chosen(&vec![], 0));
}

#[test]
fn empty_selection_is_skipped_and_keeps_the_text() {
    let mut reporter = ProgressReporter::new("Summarizing text...");
    let (sent, _, result) = run_with(
        Notification::Slack,
        &three_channels(),
        &vec![],
        "Greeting exchanged.",
        vec![],
        &mut reporter,
    );
    assert!(sent.is_empty());
    assert_eq!(
        result,
        DispatchResult {
            results: vec![],
            sent_count: 0,
            failed_count: 0,
            aggregate: Aggregate::Skipped,
            undelivered_text: Some("Greeting exchanged.".to_string()),
        }
    );
    assert_eq!(reporter.outcome(), Some(FinalKind::Warn));
    assert_eq!(reporter.message(), "No Slack webhooks selected. Skipping Slack notification.");
}

#[test]
fn empty_channel_list_is_skipped() {
    let mut reporter = ProgressReporter::new("x");
    let (sent, _, result) = run_with(
        Notification::Slack,
        &ChannelSource::List(vec![]),
        &vec![0],
        "text",
        vec![],
        &mut reporter,
    );
    assert!(sent.is_empty());
    assert_eq!(result.aggregate, Aggregate::Skipped);
    assert_eq!(result.undelivered_text, Some("text".to_string()));
}

#[test]
fn unconfigured_legacy_endpoint_is_skipped() {
    let mut reporter = ProgressReporter::new("x");
    let notice = Notification::Teams {
        title: "t".to_string(),
        date_header: "d".to_string(),
        success_message: "Summary sent to Teams!".to_string(),
    };
    let (sent, _, result) = run_with(
        notice,
        &ChannelSource::Legacy(String::new()),
        &vec![0],
        "text",
        vec![],
        &mut reporter,
    );
    assert!(sent.is_empty());
    assert_eq!(result.aggregate, Aggregate::Skipped);
    assert_eq!(result.undelivered_text, Some("text".to_string()));
    assert_eq!(
        reporter.message(),
        "Teams webhook endpoint is not configured. Skipping Teams notification."
    );
    assert_eq!(reporter.outcome(), Some(FinalKind::Warn));
}

#[test]
fn channels_are_contacted_in_configured_order() {
    let mut reporter = ProgressReporter::new("x");
    let (sent, shown, result) = run_with(
        Notification::Slack,
        &three_channels(),
        &vec![0, 1, 2],
        "hello",
        vec![ok_reply(), ok_reply(), ok_reply()],
        &mut reporter,
    );
    let order: Vec<&str> = sent.iter().map(|r| r.channel_name.as_str()).collect();
    assert_eq!(order, vec!["A", "B", "C"]);
    let endpoints: Vec<&str> = sent.iter().map(|r| r.endpoint_url.as_str()).collect();
    assert_eq!(
        endpoints,
        vec!["https://hooks.example/a", "https://hooks.example/b", "https://hooks.example/c"]
    );
    let positions: Vec<usize> = sent.iter().map(|r| r.index).collect();
    assert_eq!(positions, vec![0, 1, 2]);
    for request in &sent {
        assert_eq!(request.payload, slack_payload("hello"));
    }
    assert_eq!(
        shown,
        vec![
            "Processing 3 Slack webhooks...",
            "Sending to Slack (A)",
            "Successfully sent to Slack (A)",
            "Sending to Slack (B)",
            "Successfully sent to Slack (B)",
            "Sending to Slack (C)",
            "Successfully sent to Slack (C)",
        ]
    );
    assert_eq!(result.sent_count, 3);
    assert_eq!(result.failed_count, 0);
    assert_eq!(result.aggregate, Aggregate::Success);
    assert_eq!(result.undelivered_text, None);
    assert_eq!(reporter.message(), "Summary sent to 3 Slack webhooks");
    assert_eq!(reporter.outcome(), Some(FinalKind::Success));
}

#[test]
fn selection_order_does_not_change_contact_order() {
    let mut reporter = ProgressReporter::new("x");
    let (sent, _, result) = run_with(
        Notification::Slack,
        &three_channels(),
        &vec![2, 0, 2],
        "hello",
        vec![ok_reply(), ok_reply()],
        &mut reporter,
    );
    let order: Vec<&str> = sent.iter().map(|r| r.channel_name.as_str()).collect();
    assert_eq!(order, vec!["A", "C"]);
    assert_eq!(result.sent_count, 2);
}

#[test]
fn partial_failure_is_counted_and_not_success() {
    let mut reporter = ProgressReporter::new("x");
    let (sent, shown, result) = run_with(
        Notification::Slack,
        &three_channels(),
        &vec![0, 1, 2],
        "hello",
        vec![
            ok_reply(),
            Delivery::Responded { status: 500, status_line: "500 Internal Server Error".to_string() },
            Delivery::TransportError("timed out".to_string()),
        ],
        &mut reporter,
    );
    assert_eq!(sent.len(), 3);
    assert_eq!(
        result.results,
        vec![
            ChannelResult { channel_name: "A".to_string(), outcome: Outcome::Sent },
            ChannelResult {
                channel_name: "B".to_string(),
                outcome: Outcome::Failed("500 Internal Server Error".to_string()),
            },
            ChannelResult {
                channel_name: "C".to_string(),
                outcome: Outcome::Failed("timed out".to_string()),
            },
        ]
    );
    assert_eq!(result.sent_count, 1);
    assert_eq!(result.failed_count, 2);
    assert_eq!(result.aggregate, Aggregate::Partial);
    assert_eq!(shown[4], "Error sending to Slack (B): 500 Internal Server Error");
    assert_eq!(shown[6], "Error sending to Slack (C): timed out");
    assert_eq!(reporter.message(), "Sent to 1 Slack webhooks, failed to send to 2 webhooks");
    assert_eq!(reporter.outcome(), Some(FinalKind::Warn));
    assert_eq!(count_results(&result.results), (1, 2));
}

#[test]
fn all_failed_is_failure_and_not_fatal() {
    let mut reporter = ProgressReporter::new("x");
    let (_, _, result) = run_with(
        Notification::Slack,
        &three_channels(),
        &vec![1],
        "hello",
        vec![Delivery::Responded { status: 403, status_line: "403 Forbidden".to_string() }],
        &mut reporter,
    );
    assert_eq!(result.sent_count, 0);
    assert_eq!(result.failed_count, 1);
    assert_eq!(result.aggregate, Aggregate::Failure);
    assert_eq!(reporter.message(), "Failed to send summary to any Slack webhooks!");
    assert_eq!(reporter.outcome(), Some(FinalKind::Fail));
}

#[test]
fn unusable_and_out_of_range_selections_are_not_contacted() {
    let source = ChannelSource::List(vec![
        WebhookEntry::Invalid,
        WebhookEntry::Table { name: Some("no endpoint".to_string()), endpoint: None },
        WebhookEntry::Table { name: None, endpoint: Some("https://hooks.example/c".to_string()) },
    ]);
    let planned = plan_sends(&source, &vec![0, 1, 2, 7]);
    assert_eq!(planned.len(), 1);
    assert_eq!(planned[0].index, 2);
    assert_eq!(planned[0].channel.name, "Webhook 3");
    let mut reporter = ProgressReporter::new("x");
    let (sent, shown, result) = run_with(
        Notification::Slack,
        &source,
        &vec![0, 1, 2, 7],
        "hello",
        vec![ok_reply()],
        &mut reporter,
    );
    assert_eq!(shown[0], "Processing 4 Slack webhooks...");
    assert_eq!(sent.len(), 1);
    assert_eq!(result.aggregate, Aggregate::Success);
    assert_eq!(reporter.message(), "Summary sent to 1 Slack webhooks");
}

#[test]
fn nothing_contactable_is_failure() {
    let source = ChannelSource::List(vec![WebhookEntry::Invalid]);
    let mut reporter = ProgressReporter::new("x");
    let (sent, _, result) =
        run_with(Notification::Slack, &source, &vec![0], "hello", vec![], &mut reporter);
    assert!(sent.is_empty());
    assert_eq!(result.aggregate, Aggregate::Failure);
    assert_eq!(result.undelivered_text, None);
    assert_eq!(reporter.outcome(), Some(FinalKind::Fail));
}

#[test]
fn legacy_endpoint_is_always_selected() {
    let mut reporter = ProgressReporter::new("x");
    let notice = Notification::Teams {
        title: "Weekly".to_string(),
        date_header: "Date: now UTC".to_string(),
        success_message: "Summary sent to Teams!".to_string(),
    };
    let (sent, shown, result) = run_with(
        notice,
        &ChannelSource::Legacy("https://teams.example/hook".to_string()),
        &vec![],
        "hello",
        vec![ok_reply()],
        &mut reporter,
    );
    assert_eq!(sent.len(), 1);
    assert_eq!(sent[0].endpoint_url, "https://teams.example/hook");
    assert_eq!(sent[0].payload, teams_payload("Weekly", "Date: now UTC", "hello"));
    assert_eq!(shown[0], "Processing 1 Teams webhooks...");
    assert_eq!(shown[1], "Sending to Teams (Webhook 1)");
    assert_eq!(result.aggregate, Aggregate::Success);
    assert_eq!(reporter.message(), "Summary sent to Teams! (Sent to 1 webhooks)");
    assert_eq!(reporter.outcome(), Some(FinalKind::Success));
}

#[test]
fn teams_partial_message_names_the_platform() {
    let mut reporter = ProgressReporter::new("x");
    let notice = Notification::Teams {
        title: "t".to_string(),
        date_header: "d".to_string(),
        success_message: "Summary sent to Teams and written to output file!".to_string(),
    };
    let (_, _, result) = run_with(
        notice,
        &three_channels(),
        &vec![0, 1],
        "hello",
        vec![ok_reply(), Delivery::TransportError("dns".to_string())],
        &mut reporter,
    );
    assert_eq!(result.aggregate, Aggregate::Partial);
    assert_eq!(reporter.message(), "Sent to 1 Teams webhooks, failed to send to 1 webhooks");
}

#[test]
fn finish_with_a_channel_pending_hands_the_dispatch_back() {
    let mut reporter = ProgressReporter::new("x");
    let dispatch =
        Dispatch::start(Notification::Slack, &three_channels(), &vec![0], "hello", &mut reporter);
    assert!(dispatch.is_pending());
    assert_eq!(dispatch.text(), "hello");
    let message = reporter.message().to_string();
    match dispatch.finish(&mut reporter) {
        Ok(_) => panic!("a pending dispatch must not finish"),
        Err(mut dispatch) => {
            assert!(dispatch.is_pending());
            assert_eq!(reporter.message(), message);
            assert!(!reporter.is_finalized());
            assert!(dispatch.begin(&mut reporter).is_some());
            assert!(dispatch.record(&ok_reply(), &mut reporter));
            assert!(!dispatch.record(&ok_reply(), &mut reporter));
            assert!(dispatch.begin(&mut reporter).is_none());
            assert!(dispatch.finish(&mut reporter).is_ok());
        }
    }
}

#[test]
fn dispatch_does_not_reopen_a_closed_reporter() {
    let mut reporter = ProgressReporter::new("x");
    reporter.finalize("Done!", FinalKind::Success);
    let (_, _, result) = run_with(
        Notification::Slack,
        &three_channels(),
        &vec![0],
        "hello",
        vec![Delivery::TransportError("down".to_string())],
        &mut reporter,
    );
    assert_eq!(result.aggregate, Aggregate::Failure);
    assert_eq!(reporter.message(), "Done!");
    assert_eq!(reporter.outcome(), Some(FinalKind::Success));
    assert_eq!(reporter.tone(), Tone::Neutral);
}

#[test]
fn payload_depends_on_the_platform() {
    assert_eq!(payload_for(&Notification::Slack, "s"), slack_payload("s"));
    let notice = Notification::Teams {
        title: "t".to_string(),
        date_header: "d".to_string(),
        success_message: "m".to_string(),
    };
    assert_eq!(payload_for(&notice, "s"), teams_payload("t", "d", "s"));
    assert_eq!(ChannelKind::Teams.name(), "Teams");
}

#[test]
fn slack_notification_starts_a_text_envelope_dispatch() {
    let mut reporter = ProgressReporter::new("x");
    let mut dispatch =
        send_slack_notification(&three_channels(), &mut reporter, "hello", &vec![1]);
    assert_eq!(reporter.message(), "Processing 1 Slack webhooks...");
    let request = dispatch.begin(&mut reporter).unwrap();
    assert_eq!(request.channel_name, "B");
    assert_eq!(request.payload, slack_payload("hello"));
    dispatch.record(&ok_reply(), &mut reporter);
    match dispatch.finish(&mut reporter) {
        Ok(result) => assert_eq!(result.aggregate, Aggregate::Success),
        Err(_) => panic!("the dispatch must finish"),
    }
    assert_eq!(reporter.message(), "Summary sent to 1 Slack webhooks");
}

#[test]
fn teams_notification_starts_a_card_dispatch() {
    let mut reporter = ProgressReporter::new("x");
    let mut dispatch = send_teams_notification(
        &three_channels(),
        &mut reporter,
        "hello",
        "Weekly",
        "Date: now UTC",
        "Summary sent to Teams!",
        &vec![0, 2],
    );
    assert_eq!(reporter.message(), "Processing 2 Teams webhooks...");
    let first = dispatch.begin(&mut reporter).unwrap();
    assert_eq!(first.channel_name, "A");
    assert_eq!(first.payload, teams_payload("Weekly", "Date: now UTC", "hello"));
    dispatch.record(&ok_reply(), &mut reporter);
    let second = dispatch.begin(&mut reporter).unwrap();
    assert_eq!(second.channel_name, "C");
    dispatch.record(&ok_reply(), &mut reporter);
    match dispatch.finish(&mut reporter) {
        Ok(result) => assert_eq!(result.sent_count, 2),
        Err(_) => panic!("the dispatch must finish"),
    }
    assert_eq!(reporter.message(), "Summary sent to Teams! (Sent to 2 webhooks)");
}

#[test]
fn notification_with_nothing_selected_is_skipped() {
    let mut reporter = ProgressReporter::new("x");
    let dispatch = send_slack_notification(&three_channels(), &mut reporter, "hello", &vec![]);
    assert!(!dispatch.is_pending());
    assert_eq!(dispatch.text(), "hello");
    assert_eq!(reporter.outcome(), Some(FinalKind::Warn));
}
