use ks_forward::error::AppError;
use ks_forward::models::my_ai_response::{Event, Root};
use ks_forward::services::http_client::Method;
use ks_forward::services::my_ai_service::{
    after_salvage, after_strict, begin, chat_payload, chat_request, is_json_like, normalize,
    parse_failure, plain_reply, salvage_candidate, truncate_content, NormalizeStep,
    MAX_CONTENT_CHARS,
};

fn text_field(value: &serde_json::Value, name: &str) -> Result<String, String> {
    match value.get(name).and_then(|v| v.as_str()) {
        Some(text) => Ok(text.to_string()),
        None => Err(format!("missing field `{}`", name)),
    }
}

fn event_of(value: &serde_json::Value) -> Result<Event, String> {
    Ok(Event {
        step: value.get("step").and_then(|v| v.as_i64()).ok_or("missing field `step`")?,
        agent: text_field(value, "agent")?,
        action: text_field(value, "action")?,
        tool: value.get("tool").map(|v| v.to_string()).unwrap_or_default(),
        target_agent: value.get("target_agent").map(|v| v.to_string()).unwrap_or_default(),
        thought: text_field(value, "thought")?,
    })
}

/// Strict decoding with the real JSON parser: the whole text must be one
/// JSON document that holds the reply's fields.
fn decode(text: &str) -> Result<Root, String> {
    let value: serde_json::Value = serde_json::from_str(text).map_err(|e| e.to_string())?;
    let mut events = Vec::new();
    if let Some(list) = value.get("events").and_then(|v| v.as_array()) {
        for item in list {
            events.push(event_of(item)?);
        }
    }
    Ok(Root {
        answer: text_field(&value, "answer")?,
        events,
        session_id: text_field(&value, "session_id")?,
        context_used: value
            .get("context_used")
            .and_then(|v| v.as_bool())
            .ok_or("missing field `context_used`")?,
    })
}

fn reply(answer: &str, session_id: &str, context_used: bool) -> Root {
    Root {
        answer: answer.to_string(),
        events: Vec::new(),
        session_id: session_id.to_string(),
        context_used,
    }
}

const URL: &str = "https://ai.example/chat";

#[test]
fn plain_text_body_is_the_answer() {
    let got = normalize("not-json-at-all", 200, URL, decode);
    assert_eq!(got, Ok(reply("not-json-at-all", "unknown", false)));
}

#[test]
fn plain_text_body_is_kept_whole() {
    let got = normalize("  two lines\nof text  ", 200, URL, decode);
    assert_eq!(got, Ok(reply("  two lines\nof text  ", "unknown", false)));
}

#[test]
fn empty_body_is_an_empty_plain_answer() {
    assert_eq!(normalize("", 200, URL, decode), Ok(reply("", "unknown", false)));
    assert_eq!(normalize("   ", 200, URL, decode), Ok(reply("   ", "unknown", false)));
}

#[test]
fn strict_json_body_is_decoded() {
    let body = r#"{"answer":"hello","events":[],"session_id":"s9","context_used":false}"#;
    assert_eq!(normalize(body, 200, URL, decode), Ok(reply("hello", "s9", false)));
}

#[test]
fn strict_json_body_may_carry_a_trace() {
    let body = r#" {"answer":"a","session_id":"s","context_used":true,"events":[{"step":1,"agent":"planner","action":"call","tool":{"name":"search"},"target_agent":null,"thought":"look it up"}]}"#;
    let got = normalize(body, 200, URL, decode).unwrap();
    assert_eq!(got.answer, "a");
    assert_eq!(got.session_id, "s");
    assert!(got.context_used);
    assert_eq!(
        got.events,
        vec![Event {
            step: 1,
            agent: "planner".to_string(),
            action: "call".to_string(),
            tool: r#"{"name":"search"}"#.to_string(),
            target_agent: "null".to_string(),
            thought: "look it up".to_string(),
        }]
    );
}

#[test]
fn trailing_garbage_is_salvaged() {
    let body = r#"{"answer":"hi","session_id":"s1","context_used":true}extra-garbage"#;
    assert!(decode(body).is_err());
    assert_eq!(normalize(body, 200, URL, decode), Ok(reply("hi", "s1", true)));
}

#[test]
fn salvage_runs_from_first_open_brace_to_last_close_brace() {
    assert_eq!(
        salvage_candidate(r#"[{"answer":"x"}] tail } more"#),
        Some(r#"{"answer":"x"}] tail }"#.to_string())
    );
    assert_eq!(salvage_candidate(r#"xx{"a":{"b":1}}yy"#), Some(r#"{"a":{"b":1}}"#.to_string()));
    assert_eq!(salvage_candidate("{}"), Some("{}".to_string()));
    assert_eq!(salvage_candidate("ก{ข}ค"), Some("{ข}".to_string()));
}

#[test]
fn salvage_needs_an_open_brace_before_a_close_brace() {
    assert_eq!(salvage_candidate("no braces"), None);
    assert_eq!(salvage_candidate("only { open"), None);
    assert_eq!(salvage_candidate("only } close"), None);
    assert_eq!(salvage_candidate("} reversed {"), None);
    assert_eq!(salvage_candidate(""), None);
}

#[test]
fn json_likeness_looks_past_leading_white_space() {
    assert!(is_json_like("{\"a\":1}"));
    assert!(is_json_like("[1,2]"));
    assert!(is_json_like(" \n\t {"));
    assert!(is_json_like("\u{3000}["));
    assert!(!is_json_like("not-json-at-all"));
    assert!(!is_json_like(""));
    assert!(!is_json_like("   "));
    assert!(!is_json_like("x{"));
    assert!(!is_json_like("\"{\""));
}

#[test]
fn undecodable_body_fails_with_the_first_error_and_an_excerpt() {
    let body = r#"{"answer": broken}"#;
    let first = decode(body).unwrap_err();
    let got = normalize(body, 502, URL, decode);
    assert_eq!(
        got,
        Err(AppError::JsonParse {
            location: "https://ai.example/chat (status 502)".to_string(),
            message: format!("{}; body excerpt: {}", first, body),
        })
    );
}

#[test]
fn body_without_salvage_span_fails_after_one_decoding() {
    let body = "[1, 2";
    let first = decode(body).unwrap_err();
    let got = normalize(body, 200, URL, decode);
    assert_eq!(got, Err(parse_failure(&first, body, 200, URL)));
}

#[test]
fn parse_failure_quotes_at_most_the_excerpt_length() {
    let body = format!("{{{}", "z".repeat(500));
    let failure = parse_failure("expected value", &body, 200, URL);
    let shown: String = body.chars().take(200).collect();
    assert_eq!(
        failure,
        AppError::JsonParse {
            location: "https://ai.example/chat (status 200)".to_string(),
            message: format!("expected value; body excerpt: {}", shown),
        }
    );
    assert_eq!(failure.category(), "parse");
    assert!(!failure.is_retryable());
}

#[test]
fn chain_steps_can_be_taken_one_by_one() {
    let body = r#"{"answer":"hi","session_id":"s1","context_used":true}extra-garbage"#;
    assert_eq!(begin(body), NormalizeStep::Decode(body.to_string()));
    let strict = decode(body);
    let first_error = strict.clone().unwrap_err();
    let step = after_strict(body, 200, URL, strict);
    assert_eq!(
        step,
        NormalizeStep::Decode(r#"{"answer":"hi","session_id":"s1","context_used":true}"#.to_string())
    );
    let text = match step {
        NormalizeStep::Decode(text) => text,
        _ => unreachable!(),
    };
    let got = after_salvage(body, 200, URL, &first_error, decode(&text));
    assert_eq!(got, Ok(reply("hi", "s1", true)));
}

#[test]
fn chain_begins_with_plain_text() {
    assert_eq!(begin("hello"), NormalizeStep::Finished(plain_reply("hello")));
    assert_eq!(plain_reply("hello"), reply("hello", "unknown", false));
}

#[test]
fn chain_stops_where_strict_decoding_succeeds() {
    let decoded = reply("a", "b", true);
    assert_eq!(
        after_strict("{}", 200, URL, Ok(decoded.clone())),
        NormalizeStep::Finished(decoded)
    );
}

#[test]
fn chain_fails_where_nothing_can_be_salvaged() {
    assert_eq!(
        after_strict("[oops", 200, URL, Err("bad".to_string())),
        NormalizeStep::Failed(parse_failure("bad", "[oops", 200, URL))
    );
    assert_eq!(
        after_salvage("{oops}", 500, URL, "first", Err("second".to_string())),
        Err(parse_failure("first", "{oops}", 500, URL))
    );
}

#[test]
fn content_is_cut_at_the_budget() {
    assert_eq!(MAX_CONTENT_CHARS, 100000);
    assert_eq!(truncate_content("short"), "short");
    let exact = "a".repeat(100000);
    assert_eq!(truncate_content(&exact), exact);
    let long = format!("{}tail", exact);
    assert_eq!(truncate_content(&long), exact);
    let thai = "ก".repeat(100001);
    assert_eq!(truncate_content(&thai).chars().count(), 100000);
}

#[test]
fn chat_payload_holds_one_user_message() {
    let payload = chat_payload("the transcript");
    assert_eq!(payload.persona, "ks-discord");
    assert_eq!(payload.user_id, "ks-discord");
    assert_eq!(payload.messages.len(), 1);
    assert_eq!(payload.messages[0].role, "user");
    assert_eq!(payload.messages[0].content, "the transcript");
    let long = "b".repeat(100005);
    assert_eq!(chat_payload(&long).messages[0].content.len(), 100000);
}

#[test]
fn chat_request_posts_json() {
    let request = chat_request(URL);
    assert_eq!(request.method, Method::Post);
    assert_eq!(request.url, URL);
    assert_eq!(
        request.headers,
        vec![
            ("accept".to_string(), "application/json".to_string()),
            ("content-type".to_string(), "application/json".to_string()),
        ]
    );
    assert!(request.query.is_empty());
}
