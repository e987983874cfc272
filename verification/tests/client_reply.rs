use serde_json::Value;
use streamable_mcp::client::error::ClientError;
use streamable_mcp::client::reply::{
    carries_message, error_in, extract_id, is_answer_to, parse_json_response, parse_sse_event,
    result_in, SseEvent, StreamProgress,
};

fn json(text: &str) -> Value {
    serde_json::from_str(text).unwrap()
}

fn event(kind: Option<&str>, data: Option<&str>) -> SseEvent {
    SseEvent { event: kind.map(str::to_owned), data: data.map(str::to_owned) }
}

fn failure(text: &str, id: &str) -> String {
    match parse_json_response(json(text), id) {
        Ok(_) => panic!("unexpected answer"),
        Err(error) => error.message(),
    }
}

#[test]
fn json_answer_is_read() {
    let message = json("{\"id\": \"7\", \"result\": {\"a\": [1, null]}}");
    match parse_json_response(message, "7") {
        Ok(response) => {
            assert_eq!(response.result, json("{\"a\": [1, null]}"));
            assert!(response.notifications.is_empty());
        }
        Err(error) => panic!("{}", error.message()),
    }
}

#[test]
fn numeric_identifier_answers_by_its_notation() {
    assert!(is_answer_to(&json("{\"id\": 12}"), "12"));
    assert!(is_answer_to(&json("{\"id\": -3}"), "-3"));
    assert!(is_answer_to(&json("{\"id\": 18446744073709551615}"), "18446744073709551615"));
    assert!(is_answer_to(&json("{\"id\": 1.5}"), "1.5"));
    assert!(!is_answer_to(&json("{\"id\": 1.0}"), "1"));
    assert!(!is_answer_to(&json("{\"id\": 12}"), "1"));
}

#[test]
fn identifier_is_a_string_or_a_number() {
    assert_eq!(extract_id(&json("\"abc\"")), Some("abc".to_owned()));
    assert_eq!(extract_id(&json("42")), Some("42".to_owned()));
    assert_eq!(extract_id(&json("2.50")), Some("2.5".to_owned()));
    assert_eq!(extract_id(&json("null")), None);
    assert_eq!(extract_id(&json("true")), None);
    assert_eq!(extract_id(&json("[1]")), None);
    assert_eq!(extract_id(&json("{}")), None);
}

#[test]
fn message_without_identifier_answers_nothing() {
    assert!(!is_answer_to(&json("{\"result\": 1}"), "1"));
    assert!(!is_answer_to(&json("{\"id\": null}"), "null"));
    assert!(!is_answer_to(&json("[1]"), "1"));
}

#[test]
fn reported_error_comes_before_everything_else() {
    let text = "{\"id\": \"1\", \"result\": 1, \"error\": {\"code\": -32601, \"message\": \"no\"}}";
    assert_eq!(failure(text, "1"), "MCP error -32601: no");
    assert_eq!(failure(text, "2"), "MCP error -32601: no");
}

#[test]
fn reported_error_has_defaults() {
    assert_eq!(failure("{\"error\": {}}", "1"), "MCP error 0: unknown error");
    assert_eq!(failure("{\"error\": null}", "1"), "MCP error 0: unknown error");
    assert_eq!(
        failure("{\"error\": {\"code\": \"5\", \"message\": 5}}", "1"),
        "MCP error 0: unknown error"
    );
    assert_eq!(
        failure("{\"error\": {\"code\": 9223372036854775808}}", "1"),
        "MCP error 0: unknown error"
    );
    assert_eq!(
        failure("{\"error\": {\"code\": -9223372036854775808, \"message\": \"\"}}", "1"),
        "MCP error -9223372036854775808: "
    );
}

#[test]
fn missing_result_is_reported() {
    assert_eq!(failure("{\"id\": \"1\"}", "1"), "JSON-RPC response missing `result` field");
}

#[test]
fn wrong_identifier_is_reported() {
    assert_eq!(
        failure("{\"id\": \"2\", \"result\": 1}", "1"),
        "JSON response did not contain the expected result for id 1"
    );
}

#[test]
fn null_result_is_a_result() {
    match result_in(&json("{\"result\": null}")) {
        Ok(value) => assert!(value.is_null()),
        Err(_) => panic!("no result"),
    }
    assert!(result_in(&json("{}")).is_err());
}

#[test]
fn message_without_error_reports_none() {
    assert!(error_in(&json("{\"result\": 1}")).is_none());
    assert!(error_in(&json("\"error\"")).is_none());
}

#[test]
fn only_message_events_carry_messages() {
    assert!(carries_message(&event(None, None)));
    assert!(carries_message(&event(Some("message"), None)));
    assert!(!carries_message(&event(Some("ping"), None)));
    assert!(!carries_message(&event(Some("Message"), None)));
    assert!(!carries_message(&event(Some(""), None)));
}

#[test]
fn other_event_is_passed_over() {
    let seen = vec![json("1")];
    match parse_sse_event(&event(Some("ping"), None), "1", seen) {
        StreamProgress::Open(seen) => assert_eq!(seen, vec![json("1")]),
        StreamProgress::Decided(_) => panic!("decided"),
    }
}

#[test]
fn event_failures_are_told_apart() {
    let cases = vec![
        (event(None, None), "SSE event missing data payload"),
        (event(None, Some("{")), "failed to deserialize SSE JSON payload"),
        (event(None, Some("")), "failed to deserialize SSE JSON payload"),
        (event(None, Some("{\"error\": {\"code\": 3}}")), "MCP error 3: unknown error"),
        (event(None, Some("{\"id\": 1}")), "JSON-RPC response missing `result` field"),
    ];
    for (event, text) in cases {
        match parse_sse_event(&event, "1", Vec::new()) {
            StreamProgress::Decided(Err(error)) => assert_eq!(error.message(), text),
            _ => panic!("not failed: {}", text),
        }
    }
}

#[test]
fn first_decisive_event_decides_with_the_notifications_before_it() {
    let events = vec![
        event(None, Some("{\"method\": \"progress\"}")),
        event(Some("ping"), Some("not JSON")),
        event(Some("message"), Some("{\"id\": \"9\", \"result\": 0}")),
        event(None, Some("{\"id\": \"1\", \"result\": \"done\"}")),
        event(None, Some("{\"id\": \"1\", \"result\": \"late\"}")),
    ];
    let mut seen: Vec<Value> = Vec::new();
    let mut decided = None;
    for event in &events {
        match parse_sse_event(event, "1", seen) {
            StreamProgress::Open(next) => seen = next,
            StreamProgress::Decided(Ok(response)) => {
                decided = Some(response);
                break;
            }
            StreamProgress::Decided(Err(error)) => panic!("{}", error.message()),
        }
    }
    let response = decided.unwrap();
    assert_eq!(response.result, json("\"done\""));
    assert_eq!(
        response.notifications,
        vec![json("{\"method\": \"progress\"}"), json("{\"id\": \"9\", \"result\": 0}")]
    );
}

#[test]
fn event_and_body_agree_on_one_message() {
    let text = "{\"id\": 5, \"result\": [2]}";
    let body = parse_json_response(json(text), "5");
    let streamed = parse_sse_event(&event(None, Some(text)), "5", Vec::new());
    match (body, streamed) {
        (Ok(a), StreamProgress::Decided(Ok(b))) => assert_eq!(a.result, b.result),
        _ => panic!("no answer"),
    }
    assert!(parse_json_response(json(text), "6").is_err());
    match parse_sse_event(&event(None, Some(text)), "6", Vec::new()) {
        StreamProgress::Open(seen) => assert_eq!(seen, vec![json(text)]),
        StreamProgress::Decided(_) => panic!("decided"),
    }
}

#[test]
fn every_failure_has_its_message() {
    let text = |error: ClientError| error.message();
    assert_eq!(text(ClientError::Setup), "failed to build HTTP client for streamable MCP");
    assert_eq!(
        text(ClientError::InvalidUrl("x y".to_owned())),
        "invalid MCP streamable HTTP URL `x y`"
    );
    assert_eq!(text(ClientError::SendTimedOut), "timed out awaiting streamable HTTP response");
    assert_eq!(text(ClientError::Transport("broken".to_owned())), "broken");
    assert_eq!(text(ClientError::InvalidSession), "invalid session header value");
    assert_eq!(
        text(ClientError::Status { status: "404 Not Found".to_owned(), body: "b".to_owned() }),
        "streamable HTTP request failed with status 404 Not Found: b"
    );
    assert_eq!(text(ClientError::InvalidBody), "error decoding response body");
    assert_eq!(
        text(ClientError::UnsupportedContentType("text/html".to_owned())),
        "unsupported response content type `text/html` from streamable HTTP server"
    );
    assert_eq!(text(ClientError::InvalidEvent), "failed to parse SSE event");
    assert_eq!(
        text(ClientError::StreamTimedOut),
        "timed out awaiting streamable HTTP SSE response"
    );
    assert_eq!(text(ClientError::StreamClosed), "stream closed before receiving response");
    assert_eq!(
        text(ClientError::BackgroundClosed),
        "event stream closed before delivering response"
    );
    assert_eq!(
        text(ClientError::BackgroundTimedOut),
        "timed out awaiting streamable HTTP response over event stream"
    );
    assert_eq!(
        text(ClientError::MissingSession),
        "missing MCP session id for streamable HTTP listener"
    );
    assert_eq!(
        text(ClientError::InvalidResult),
        "failed to deserialize JSON-RPC result payload"
    );
}
