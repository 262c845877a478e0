use distill::payload::{
    current_date_header, date_header, date_header_from, slack_envelope, slack_payload, teams_card, teams_payload,
    ZoneError, SLACK_LEAD, TIMESTAMP_PATTERN,
};
use serde_json::{Number, Value};

fn text_value(text: &str) -> Value {
    Value::String(text.to_string())
}

fn object_of(entries: Vec<(&str, Value)>) -> Value {
    let mut map = serde_json::Map::new();
    for (key, value) in entries {
        map.insert(key.to_string(), value);
    }
    Value::Object(map)
}

fn expected_card(title: &str, date: &str, text: &str) -> Value {
    let icon = object_of(vec![
        ("type", text_value("Icon")),
        ("name", text_value("Flash")),
        ("size", text_value("Large")),
        ("style", text_value("Filled")),
        ("color", text_value("Accent")),
    ]);
    let icon_column = object_of(vec![
        ("type", text_value("Column")),
        ("items", Value::Array(vec![icon])),
        ("width", text_value("auto")),
    ]);
    let title_block = object_of(vec![
        ("type", text_value("TextBlock")),
        ("wrap", Value::Bool(true)),
        ("style", text_value("heading")),
        ("weight", text_value("Bolder")),
        ("size", text_value("Large")),
        ("text", text_value(title)),
    ]);
    let title_column = object_of(vec![
        ("type", text_value("Column")),
        ("spacing", text_value("medium")),
        ("verticalContentAlignment", text_value("center")),
        ("items", Value::Array(vec![title_block])),
        ("width", text_value("auto")),
    ]);
    let column_set = object_of(vec![
        ("type", text_value("ColumnSet")),
        ("columns", Value::Array(vec![icon_column, title_column])),
    ]);
    let date_block = object_of(vec![
        ("type", text_value("TextBlock")),
        ("wrap", Value::Bool(true)),
        ("style", text_value("heading")),
        ("weight", text_value("Bolder")),
        ("size", text_value("Medium")),
        ("text", text_value(date)),
    ]);
    let text_block = object_of(vec![
        ("type", text_value("TextBlock")),
        ("maxLines", Value::Number(Number::from(100))),
        ("wrap", Value::Bool(true)),
        ("text", text_value(text)),
    ]);
    let container = object_of(vec![
        ("type", text_value("Container")),
        ("showBorder", Value::Bool(true)),
        ("roundedCorners", Value::Bool(true)),
        ("maxHeight", text_value("400px")),
        ("items", Value::Array(vec![text_block])),
    ]);
    let content = object_of(vec![
        ("$schema", text_value("http://adaptivecards.io/schemas/adaptive-card.json")),
        ("type", text_value("AdaptiveCard")),
        ("version", text_value("1.5")),
        ("msteams", object_of(vec![("width", text_value("Full"))])),
        ("body", Value::Array(vec![column_set, date_block, container])),
    ]);
    let attachment = object_of(vec![
        ("contentType", text_value("application/vnd.microsoft.card.adaptive")),
        ("contentUrl", Value::Null),
        ("content", content),
    ]);
    object_of(vec![
        ("type", text_value("message")),
        ("attachments", Value::Array(vec![attachment])),
    ])
}

#[test]
fn slack_envelope_wraps_quoted_content() {
    assert_eq!(slack_envelope("\"hi\""), "{\"content\":\"hi\"}");
}

#[test]
fn slack_payload_exact_text() {
    assert_eq!(
        slack_payload("Greeting exchanged."),
        "{\"content\":\"A summarization job just completed:\\n\\nGreeting exchanged.\"}"
    );
    assert_eq!(SLACK_LEAD, "A summarization job just completed:\n\n");
}

#[test]
fn slack_payload_escapes_and_parses_back() {
    let text = "He said \"hello\"\nand left.\tBack\\slash \u{1} é 🙂";
    let body = slack_payload(text);
    let parsed: Value = serde_json::from_str(&body).unwrap();
    let expected = object_of(vec![(
        "content",
        text_value(&format!("A summarization job just completed:\n\n{}", text)),
    )]);
    assert_eq!(parsed, expected);
    assert_eq!(body, expected.to_string());
    assert_ne!(body, format!("{{\"content\":{}{}}}", SLACK_LEAD, text));
}

#[test]
fn teams_card_lays_quoted_parts_in_order() {
    let body = teams_card("\"T\"", "\"D\"", "\"X\"");
    let parsed: Value = serde_json::from_str(&body).unwrap();
    assert_eq!(parsed, expected_card("T", "D", "X"));
}

#[test]
fn teams_payload_is_what_serde_json_writes() {
    let title = "Weekly \"sync\"";
    let date = "Date: 01-31-2025 09:05:07 AM CET";
    let text = "Line one\nLine two with \\ and \"quotes\" and é";
    let body = teams_payload(title, date, text);
    let expected = expected_card(title, date, text);
    assert_eq!(body, expected.to_string());
    let parsed: Value = serde_json::from_str(&body).unwrap();
    assert_eq!(parsed, expected);
    assert_eq!(
        parsed["attachments"][0]["content"]["body"][2]["items"][0]["text"].as_str(),
        Some(text)
    );
    assert_eq!(
        parsed["attachments"][0]["content"]["body"][0]["columns"][1]["items"][0]["text"].as_str(),
        Some(title)
    );
    assert_eq!(parsed["attachments"][0]["content"]["body"][1]["text"].as_str(), Some(date));
}

#[test]
fn date_header_joins_time_and_zone() {
    assert_eq!(date_header("01-31-2025 09:05:07 AM", "CET"), "Date: 01-31-2025 09:05:07 AM CET");
    assert_eq!(date_header("t", ""), "Date: t ");
    assert_eq!(TIMESTAMP_PATTERN, "%m-%d-%Y %I:%M:%S %p");
}

#[test]
fn current_date_header_has_the_fixed_lead() {
    match current_date_header() {
        Ok(line) => {
            assert!(line.starts_with("Date: "));
            let rest = &line["Date: ".len()..];
            let parts: Vec<&str> = rest.split(' ').collect();
            assert_eq!(parts.len(), 4);
            assert_eq!(parts[0].len(), 10);
            assert_eq!(parts[1].len(), 8);
            assert!(parts[2] == "AM" || parts[2] == "PM");
            assert!(parts[3].chars().count() <= 7);
        }
        Err(e) => assert!(e == ZoneError::NoTimeZone || e == ZoneError::NoLocalTimeType),
    }
}

#[test]
fn zone_errors_have_messages() {
    assert_eq!(ZoneError::NoTimeZone.message(), "Unable to determine timezone");
    assert_eq!(ZoneError::NoLocalTimeType.message(), "Could not find local timezone type");
}

#[test]
fn date_header_from_a_found_designation_or_the_lookup_error() {
    assert_eq!(
        date_header_from("01-31-2025 09:05:07 AM", Ok("CET".to_string())),
        Ok("Date: 01-31-2025 09:05:07 AM CET".to_string())
    );
    assert_eq!(date_header_from("t", Ok(String::new())), Ok("Date: t ".to_string()));
    assert_eq!(date_header_from("t", Err(ZoneError::NoTimeZone)), Err(ZoneError::NoTimeZone));
    assert_eq!(
        date_header_from("t", Err(ZoneError::NoLocalTimeType)),
        Err(ZoneError::NoLocalTimeType)
    );
}
