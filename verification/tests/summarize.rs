use distill::progress::ProgressReporter;
use distill::settings::{check_model_id, check_run, ConfigError};
use distill::summarize::{
    request_body, summarize_request, summarize_response, summarize_text, summary_in,
    InvokeRequest, ModelSettings, SummaryError, JSON_MEDIA_TYPE,
};
use serde_json::{Number, Value};

fn settings() -> ModelSettings {
    ModelSettings {
        prompt_template: "Summarize the following \"meeting\":".to_string(),
        anthropic_version: "bedrock-2023-05-31".to_string(),
        system: "You are a careful\nnote taker.".to_string(),
        model_id: "example.summarizer-v1:0".to_string(),
        max_tokens: 2000,
        temperature: 1,
        top_p: 0,
        top_k: 250,
    }
}

fn object_from(entries: Vec<(&str, Value)>) -> Value {
    let mut map = serde_json::Map::new();
    for (key, value) in entries {
        map.insert(key.to_string(), value);
    }
    Value::Object(map)
}

fn string_value(text: &str) -> Value {
    Value::String(text.to_string())
}

#[test]
fn request_body_lays_out_the_parts() {
    assert_eq!(
        request_body("\"v\"", 10, "\"p\"", "\"s\"", -1, 3, 0),
        "{\"anthropic_version\":\"v\",\"max_tokens\":10,\"messages\":[{\"content\":[{\"text\":\"p\",\"type\":\"text\"}],\"role\":\"user\"}],\"system\":\"s\",\"temperature\":-1,\"top_k\":3,\"top_p\":0}"
    );
}

#[test]
fn request_is_what_serde_json_writes() {
    let transcript = "Hello world.\nSecond \"line\".";
    let request = summarize_request(&settings(), transcript).unwrap();
    let prompt = format!("Summarize the following \"meeting\":\n\n{}", transcript);
    let message = object_from(vec![
        ("role", string_value("user")),
        (
            "content",
            Value::Array(vec![object_from(vec![
                ("type", string_value("text")),
                ("text", string_value(&prompt)),
            ])]),
        ),
    ]);
    let expected = object_from(vec![
        ("anthropic_version", string_value("bedrock-2023-05-31")),
        ("max_tokens", Value::Number(Number::from(2000))),
        ("system", string_value("You are a careful\nnote taker.")),
        ("messages", Value::Array(vec![message])),
        ("temperature", Value::Number(Number::from(1))),
        ("top_p", Value::Number(Number::from(0))),
        ("top_k", Value::Number(Number::from(250))),
    ]);
    assert_eq!(
        request,
        InvokeRequest {
            model_id: "example.summarizer-v1:0".to_string(),
            content_type: "application/json".to_string(),
            accept: "application/json".to_string(),
            body: expected.to_string(),
        }
    );
    let parsed: Value = serde_json::from_str(&request.body).unwrap();
    assert_eq!(parsed, expected);
    assert_eq!(JSON_MEDIA_TYPE, "application/json");
}

#[test]
fn request_with_missing_settings_is_still_a_document() {
    let empty = ModelSettings {
        prompt_template: String::new(),
        anthropic_version: String::new(),
        system: String::new(),
        model_id: "m".to_string(),
        max_tokens: 0,
        temperature: 0,
        top_p: 0,
        top_k: 0,
    };
    let request = summarize_request(&empty, "t").unwrap();
    assert_eq!(
        request.body,
        "{\"anthropic_version\":\"\",\"max_tokens\":0,\"messages\":[{\"content\":[{\"text\":\"\\n\\nt\",\"type\":\"text\"}],\"role\":\"user\"}],\"system\":\"\",\"temperature\":0,\"top_k\":0,\"top_p\":0}"
    );
    assert_eq!(request.model_id, "m");
}

#[test]
fn summary_is_read_and_line_breaks_restored() {
    let body = "{\"id\":\"msg\",\"content\":[{\"type\":\"text\",\"text\":\"Greeting exchanged.\"}]}";
    assert_eq!(summarize_response(Some(body)), Ok("Greeting exchanged.".to_string()));
    let escaped = "{\"content\":[{\"type\":\"text\",\"text\":\"One\\\\nTwo\\nThree\"}]}";
    assert_eq!(summarize_response(Some(escaped)), Ok("One\nTwo\nThree".to_string()));
}

#[test]
fn summary_field_of_a_document() {
    let document: Value =
        serde_json::from_str("{\"content\":[{\"text\":\"first\"},{\"text\":\"second\"}]}").unwrap();
    assert_eq!(summary_in(&document), Some("first".to_string()));
    let wrong: Value = serde_json::from_str("{\"content\":{\"text\":\"x\"}}").unwrap();
    assert_eq!(summary_in(&wrong), None);
}

#[test]
fn malformed_answer_is_an_error() {
    assert_eq!(summarize_response(None), Err(SummaryError::Malformed));
    assert_eq!(summarize_response(Some("")), Err(SummaryError::Malformed));
    assert_eq!(summarize_response(Some("{\"content\":")), Err(SummaryError::Malformed));
}

#[test]
fn missing_text_is_an_error_not_an_empty_summary() {
    assert_eq!(summarize_response(Some("{}")), Err(SummaryError::MissingText));
    assert_eq!(summarize_response(Some("{\"content\":[]}")), Err(SummaryError::MissingText));
    assert_eq!(
        summarize_response(Some("{\"content\":[{\"type\":\"text\"}]}")),
        Err(SummaryError::MissingText)
    );
    assert_eq!(
        summarize_response(Some("{\"content\":[{\"text\":null}]}")),
        Err(SummaryError::MissingText)
    );
    assert_eq!(summarize_response(Some("\"content\"")), Err(SummaryError::MissingText));
    assert_eq!(
        summarize_response(Some("{\"content\":[{\"text\":\"\"}]}")),
        Ok(String::new())
    );
}

#[test]
fn summarize_text_announces_and_builds_the_request() {
    let mut reporter = ProgressReporter::new("Summarizing text...");
    let request = summarize_text(&settings(), "Hello world.", &mut reporter);
    assert!(request.is_ok());
    assert_eq!(request, summarize_request(&settings(), "Hello world."));
    assert_eq!(reporter.message(), "Summarizing transcription...");
    assert!(!reporter.is_finalized());
}

#[test]
fn summary_errors_have_messages() {
    assert_eq!(SummaryError::Malformed.message(), "Summary answer is malformed");
    assert_eq!(SummaryError::MissingText.message(), "Summary answer holds no text");
}

#[test]
fn missing_model_id_is_a_configuration_error_before_anything_is_asked() {
    let mut unnamed = settings();
    unnamed.model_id = String::new();
    let mut reporter = ProgressReporter::new("Summarizing text...");
    assert_eq!(
        summarize_text(&unnamed, "Hello world.", &mut reporter),
        Err(ConfigError::MissingModelId)
    );
    assert_eq!(reporter.message(), "Summarizing text...");
    assert_eq!(summarize_request(&unnamed, "Hello world."), Err(ConfigError::MissingModelId));
}

#[test]
fn configuration_checks() {
    assert_eq!(check_model_id(""), Err(ConfigError::MissingModelId));
    assert_eq!(check_model_id("example.summarizer-v1:0"), Ok(()));
    assert_eq!(check_run("", "bucket"), Err(ConfigError::MissingModelId));
    assert_eq!(check_run("", ""), Err(ConfigError::MissingModelId));
    assert_eq!(check_run("m", ""), Err(ConfigError::MissingBucket));
    assert_eq!(check_run("m", "bucket"), Ok(()));
    assert_eq!(
        ConfigError::MissingModelId.message(),
        "Configuration error: model.model_id is missing or empty in config.toml"
    );
    assert_eq!(ConfigError::MissingBucket.message(), "Configuration error: no S3 bucket is named");
}
