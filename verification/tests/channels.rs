use distill::channels::{
    channel_slots, select_webhooks, ChannelConfig, ChannelKind, ChannelSource, SelectionPlan,
    WebhookEntry,
};

fn table(name: Option<&str>, endpoint: Option<&str>) -> WebhookEntry {
    WebhookEntry::Table {
        name: name.map(|n| n.to_string()),
        endpoint: endpoint.map(|e| e.to_string()),
    }
}

#[test]
fn platform_names() {
    assert_eq!(ChannelKind::Slack.name(), "Slack");
    assert_eq!(ChannelKind::Teams.name(), "Teams");
    assert_eq!(ChannelKind::Slack.config_section(), "slack");
    assert_eq!(ChannelKind::Teams.config_section(), "teams");
}

#[test]
fn list_entries_become_slots_by_position() {
    let source = ChannelSource::List(vec![
        table(Some("general"), Some("https://hooks.example/a")),
        WebhookEntry::Invalid,
        table(None, Some("https://hooks.example/c")),
        table(Some("no endpoint"), None),
        table(Some("empty endpoint"), Some("")),
    ]);
    assert_eq!(
        channel_slots(&source),
        vec![
            Some(ChannelConfig {
                name: "general".to_string(),
                endpoint_url: "https://hooks.example/a".to_string(),
            }),
            None,
            Some(ChannelConfig {
                name: "Webhook 3".to_string(),
                endpoint_url: "https://hooks.example/c".to_string(),
            }),
            None,
            None,
        ]
    );
}

#[test]
fn legacy_endpoint_is_a_list_of_one() {
    let source = ChannelSource::Legacy("https://hooks.example/legacy".to_string());
    assert_eq!(
        channel_slots(&source),
        vec![Some(ChannelConfig {
            name: "Webhook 1".to_string(),
            endpoint_url: "https://hooks.example/legacy".to_string(),
        })]
    );
}

#[test]
fn empty_legacy_endpoint_is_no_channel() {
    assert_eq!(channel_slots(&ChannelSource::Legacy(String::new())), vec![]);
    assert_eq!(channel_slots(&ChannelSource::List(vec![])), vec![]);
}

#[test]
fn default_names_count_from_one() {
    let mut entries = Vec::new();
    for _ in 0..12 {
        entries.push(table(None, Some("https://hooks.example/x")));
    }
    let slots = channel_slots(&ChannelSource::List(entries));
    assert_eq!(slots[0].as_ref().unwrap().name, "Webhook 1");
    assert_eq!(slots[9].as_ref().unwrap().name, "Webhook 10");
    assert_eq!(slots[11].as_ref().unwrap().name, "Webhook 12");
}

#[test]
fn nothing_configured_selects_nothing() {
    assert_eq!(
        select_webhooks(&ChannelSource::List(vec![]), ChannelKind::Slack),
        SelectionPlan::Fixed(vec![])
    );
    assert_eq!(
        select_webhooks(&ChannelSource::Legacy(String::new()), ChannelKind::Teams),
        SelectionPlan::Fixed(vec![])
    );
}

#[test]
fn single_channel_is_selected_without_asking() {
    let one = ChannelSource::List(vec![table(Some("only"), Some("https://hooks.example/a"))]);
    assert_eq!(select_webhooks(&one, ChannelKind::Slack), SelectionPlan::Fixed(vec![0]));
    let legacy = ChannelSource::Legacy("https://hooks.example/legacy".to_string());
    assert_eq!(select_webhooks(&legacy, ChannelKind::Teams), SelectionPlan::Fixed(vec![0]));
}

#[test]
fn several_channels_are_put_to_the_user() {
    let source = ChannelSource::List(vec![
        table(Some("general"), Some("https://hooks.example/a")),
        table(None, Some("https://hooks.example/b")),
        WebhookEntry::Invalid,
    ]);
    assert_eq!(
        select_webhooks(&source, ChannelKind::Teams),
        SelectionPlan::Ask {
            prompt: "📝 Select teams channels to send the summary to".to_string(),
            labels: vec![
                "general".to_string(),
                "Unnamed webhook".to_string(),
                "Invalid webhook".to_string(),
            ],
        }
    );
    match select_webhooks(&source, ChannelKind::Slack) {
        SelectionPlan::Ask { prompt, .. } => {
            assert_eq!(prompt, "📝 Select slack channels to send the summary to")
        }
        SelectionPlan::Fixed(_) => panic!("several channels must be asked for"),
    }
}
