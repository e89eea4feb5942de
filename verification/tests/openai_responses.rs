use ownpager::json::{JsonMember, JsonNumber, JsonValue};
use ownpager::openai_responses::{
    extract_output_text, parse_openai_response, responses_url, usage_is_readable, OpenAiTokenUsage,
};

fn to_json_value(v: &serde_json::Value) -> JsonValue {
    match v {
        serde_json::Value::Null => JsonValue::Null,
        serde_json::Value::Bool(b) => JsonValue::Bool(*b),
        serde_json::Value::Number(n) => match (n.as_u64(), n.as_i64()) {
            (Some(u), _) => JsonValue::Number(JsonNumber::Unsigned(u)),
            (None, Some(i)) => JsonValue::Number(JsonNumber::Negative(i)),
            _ => JsonValue::Number(JsonNumber::Decimal(n.to_string())),
        },
        serde_json::Value::String(s) => JsonValue::String(s.clone()),
        serde_json::Value::Array(a) => JsonValue::Array(a.iter().map(to_json_value).collect()),
        serde_json::Value::Object(m) => JsonValue::Object(
            m.iter()
                .map(|(k, v)| JsonMember { key: k.clone(), value: to_json_value(v) })
                .collect(),
        ),
    }
}

fn parse(text: &str) -> JsonValue {
    to_json_value(&serde_json::from_str::<serde_json::Value>(text).unwrap())
}

#[test]
fn parses_message_output_text() {
    let response = parse_openai_response(parse(
        r#"{
            "output": [
                {
                    "type": "message",
                    "content": [
                        {"type": "output_text", "text": "Hello world"}
                    ]
                }
            ]
        }"#,
    ));

    assert_eq!(response.output_text, "Hello world");
    assert!(response.function_calls.is_empty());
}

#[test]
fn parses_function_calls() {
    let response = parse_openai_response(parse(
        r#"{
            "output": [
                {
                    "type": "function_call",
                    "call_id": "call_123",
                    "name": "terminal",
                    "arguments": "{\"command\":\"pwd\"}"
                }
            ]
        }"#,
    ));

    assert_eq!(response.function_calls.len(), 1);
    assert_eq!(response.function_calls[0].name, "terminal");
}

#[test]
fn parses_response_usage() {
    let response = parse_openai_response(parse(
        r#"{
            "output_text": "Done",
            "usage": {
                "input_tokens": 100,
                "output_tokens": 25,
                "total_tokens": 125,
                "input_tokens_details": {
                    "cached_tokens": 40
                },
                "output_tokens_details": {
                    "reasoning_tokens": 10
                }
            }
        }"#,
    ));

    assert_eq!(
        response.usage,
        Some(OpenAiTokenUsage {
            input_tokens: 60,
            output_tokens: 25,
            cached_input_tokens: 40,
            reasoning_output_tokens: 10,
            total_tokens: 125,
        })
    );
}

#[test]
fn chat_style_usage_names_are_read_and_total_defaults_to_the_sum() {
    let response = parse_openai_response(parse(
        r#"{
            "usage": {
                "prompt_tokens": 7,
                "completion_tokens": 5,
                "prompt_tokens_details": {"cache_read_tokens": 9}
            }
        }"#,
    ));
    assert_eq!(
        response.usage,
        Some(OpenAiTokenUsage {
            input_tokens: 0,
            output_tokens: 5,
            cached_input_tokens: 9,
            reasoning_output_tokens: 0,
            total_tokens: 12,
        })
    );
    assert_eq!(response.output_text, "");
}

#[test]
fn function_call_defaults_and_text_joining() {
    let response = parse_openai_response(parse(
        r#"{
            "output": [
                {"type": "function_call"},
                {"type": "message", "content": [
                    {"type": "output_text", "text": "one"},
                    {"type": "refusal", "text": "skip"},
                    {"type": "output_text", "text": "two"}
                ]},
                {"type": "message", "content": [{"type": "output_text", "text": "three"}]}
            ]
        }"#,
    ));
    assert_eq!(response.function_calls.len(), 1);
    assert_eq!(response.function_calls[0].call_id, "");
    assert_eq!(response.function_calls[0].name, "");
    assert_eq!(response.function_calls[0].arguments, "{}");
    assert_eq!(response.output_text, "one\ntwo\nthree");
    assert_eq!(response.output_items.len(), 3);
    assert!(response.usage.is_none());
}

#[test]
fn output_text_member_wins_over_message_blocks() {
    let response = parse_openai_response(parse(
        r#"{
            "output_text": "direct",
            "output": [{"type": "message", "content": [{"type": "output_text", "text": "block"}]}]
        }"#,
    ));
    assert_eq!(response.output_text, "direct");
    let items = vec![parse(r#"{"type": "reasoning"}"#)];
    assert!(extract_output_text(&items).is_none());
}

#[test]
fn responses_endpoint_drops_trailing_slashes() {
    assert_eq!(responses_url("https://api.openai.com/v1//"), "https://api.openai.com/v1/responses");
    assert_eq!(responses_url("http://x"), "http://x/responses");
    assert_eq!(responses_url(""), "/responses");
}

#[test]
fn usage_that_cannot_be_summed_is_not_readable() {
    assert!(usage_is_readable(&parse(r#"{"output_text": "x"}"#)));
    assert!(usage_is_readable(&parse(r#"{"usage": {"input_tokens": 1, "output_tokens": 2}}"#)));
    let huge = format!(
        r#"{{"usage": {{"input_tokens": {}, "output_tokens": {}}}}}"#,
        u64::MAX,
        u64::MAX
    );
    assert!(!usage_is_readable(&parse(&huge)));
    let with_total = format!(
        r#"{{"usage": {{"input_tokens": {}, "output_tokens": {}, "total_tokens": 3}}}}"#,
        u64::MAX,
        u64::MAX
    );
    assert!(usage_is_readable(&parse(&with_total)));
}
