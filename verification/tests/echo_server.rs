use axum::http::HeaderValue;
use serde_json::Value;
use streamable_mcp::client::reply::{parse_sse_event, SseEvent, StreamProgress};
use streamable_mcp::echo_server::{
    bad_request, bind_address, echo_tool, handle_call_tool, handle_get, handle_post,
    internal_error, sse_response, sse_response_with_session, AppState, CallToolRequestParams,
    Method, Refusal, SseReply,
};

fn json(text: &str) -> Value {
    serde_json::from_str(text).unwrap()
}

fn header(text: &str) -> Option<HeaderValue> {
    Some(HeaderValue::from_str(text).unwrap())
}

fn accepted(reply: Result<SseReply, Refusal>) -> SseReply {
    match reply {
        Ok(reply) => reply,
        Err(refusal) => panic!("{}", refusal.message),
    }
}

fn refused<T>(reply: Result<T, Refusal>) -> (u16, String) {
    match reply {
        Ok(_) => panic!("accepted"),
        Err(refusal) => (refusal.status, refusal.message),
    }
}

fn payload(reply: &SseReply) -> Value {
    assert_eq!(reply.status, 200);
    assert_eq!(reply.content_type, "text/event-stream");
    assert_eq!(reply.cache_control, "no-cache");
    json(reply.body.strip_prefix("data: ").unwrap().strip_suffix("\n\n").unwrap())
}

fn call(name: &str, arguments: Option<&str>) -> Result<CallToolRequestParams, String> {
    Ok(CallToolRequestParams { name: name.to_owned(), arguments: arguments.map(json) })
}

#[test]
fn post_needs_an_event_stream() {
    let refusal = (406, "Client must accept text/event-stream".to_owned());
    assert_eq!(refused(handle_post(&None, "initialize")), refusal);
    assert_eq!(refused(handle_post(&header("application/json"), "initialize")), refusal);
    let opaque = Some(HeaderValue::from_bytes(b"text/event-stream\xff").unwrap());
    assert_eq!(refused(handle_post(&opaque, "initialize")), refusal);
}

#[test]
fn methods_are_told_apart() {
    let accept = header("text/event-stream, application/json");
    let method = |name: &str| match handle_post(&accept, name) {
        Ok(method) => method,
        Err(refusal) => panic!("{}", refusal.message),
    };
    assert_eq!(method("initialize"), Method::Initialize);
    assert_eq!(method("tools/list"), Method::ListTools);
    assert_eq!(method("tools/call"), Method::CallTool);
    assert_eq!(
        refused(handle_post(&accept, "ping")),
        (400, "unsupported method: ping".to_owned())
    );
}

#[test]
fn handshake_opens_a_session_that_is_admitted() {
    let mut state = AppState::new();
    assert_eq!(
        refused(state.handle_list_tools(&json("1"), &header("x"))),
        (401, "session not initialized".to_owned())
    );
    let first = accepted(state.handle_initialize(&json("\"1\"")));
    assert_eq!(
        payload(&first),
        json(
            "{\"jsonrpc\": \"2.0\", \"id\": \"1\", \"result\": {\"capabilities\": {\"tools\": {\"listChanged\": true}}, \"protocolVersion\": \"2025-03-26\", \"serverInfo\": {\"name\": \"rmcp\", \"version\": \"0.7.0\"}}}"
        )
    );
    assert!(state.verify_session(&first.session).is_ok());
    let second = accepted(state.handle_initialize(&json("2")));
    assert_ne!(first.session, second.session);
    assert!(state.verify_session(&second.session).is_ok());
    assert_eq!(
        refused(state.verify_session(&first.session)),
        (401, "invalid session".to_owned())
    );
    assert_eq!(
        refused(state.verify_session(&None)),
        (400, "missing mcp-session-id".to_owned())
    );
}

#[test]
fn session_can_be_given() {
    let mut state = AppState::new();
    let reply = accepted(state.open_session(&json("1"), "s".to_owned()));
    assert_eq!(reply.session, header("s"));
    assert_eq!(state.session_id, Some("s".to_owned()));
    assert_eq!(
        refused(state.open_session(&json("1"), "a\u{0}".to_owned())),
        (500, "invalid session id header: failed to parse header value".to_owned())
    );
}

#[test]
fn tools_are_listed() {
    let mut state = AppState::new();
    let opened = accepted(state.handle_initialize(&json("1")));
    let reply = accepted(state.handle_list_tools(&json("2"), &opened.session));
    assert!(reply.session.is_none());
    assert_eq!(
        payload(&reply),
        json(
            "{\"jsonrpc\": \"2.0\", \"id\": 2, \"result\": {\"tools\": [{\"name\": \"echo\", \"description\": \"Echo back the provided message and include environment data.\", \"inputSchema\": {\"type\": \"object\"}}]}}"
        )
    );
    let tool = echo_tool();
    assert_eq!(tool.name, "echo");
    assert_eq!(tool.input_schema.kind, "object");
    assert!(tool.description.is_some());
}

#[test]
fn call_needs_a_session_and_parameters() {
    let mut state = AppState::new();
    let opened = accepted(state.handle_initialize(&json("1")));
    assert_eq!(
        refused(state.admit_call(&None, Some(json("{}")))),
        (400, "missing mcp-session-id".to_owned())
    );
    assert_eq!(
        refused(state.admit_call(&header("other"), None)),
        (401, "invalid session".to_owned())
    );
    assert_eq!(
        refused(state.admit_call(&opened.session, None)),
        (400, "missing params".to_owned())
    );
    match state.admit_call(&opened.session, Some(json("{\"name\": \"echo\"}"))) {
        Ok(params) => assert_eq!(params, json("{\"name\": \"echo\"}")),
        Err(refusal) => panic!("{}", refusal.message),
    }
}

#[test]
fn message_is_echoed_with_the_environment() {
    let reply = accepted(handle_call_tool(
        &json("7"),
        call("echo", Some("{\"message\": \"hi\"}")),
        Some("v".to_owned()),
    ));
    assert_eq!(
        payload(&reply),
        json(
            "{\"jsonrpc\": \"2.0\", \"id\": 7, \"result\": {\"content\": [], \"isError\": false, \"structuredContent\": {\"echo\": \"ECHOING: hi\", \"env\": \"v\"}}}"
        )
    );
}

#[test]
fn missing_message_is_echoed_as_empty() {
    for arguments in [None, Some("{}"), Some("{\"message\": 1}"), Some("[]")] {
        let reply = accepted(handle_call_tool(&json("1"), call("echo", arguments), None));
        let content = &payload(&reply)["result"]["structuredContent"];
        assert_eq!(content, &json("{\"echo\": \"ECHOING: \", \"env\": null}"));
    }
}

#[test]
fn other_calls_are_refused() {
    assert_eq!(
        refused(handle_call_tool(&json("1"), call("shout", None), None)),
        (400, "unknown tool: shout".to_owned())
    );
    assert_eq!(
        refused(handle_call_tool(&json("1"), Err("missing field `name`".to_owned()), None)),
        (400, "invalid call params: missing field `name`".to_owned())
    );
}

#[test]
fn answer_is_one_event_that_a_client_understands() {
    let reply = accepted(sse_response(&json("\"q\""), json("{\"text\": \"two\\nlines\"}")));
    let data = reply.body.strip_prefix("data: ").unwrap().strip_suffix("\n\n").unwrap();
    assert!(!data.contains('\n'));
    let event = SseEvent { event: None, data: Some(data.to_owned()) };
    match parse_sse_event(&event, "q", Vec::new()) {
        StreamProgress::Decided(Ok(response)) => {
            assert_eq!(response.result, json("{\"text\": \"two\\nlines\"}"))
        }
        _ => panic!("not answered"),
    }
}

#[test]
fn session_is_sent_where_there_is_one() {
    let reply = accepted(sse_response_with_session(&json("1"), json("2"), Some("s".to_owned())));
    assert_eq!(reply.session, header("s"));
    let reply = accepted(sse_response_with_session(&json("1"), json("2"), None));
    assert_eq!(reply.session, None);
}

#[test]
fn stream_for_a_get_is_empty() {
    let reply = handle_get();
    assert_eq!(reply.status, 200);
    assert_eq!(reply.content_type, "text/event-stream");
    assert_eq!(reply.cache_control, "no-cache");
    assert_eq!(reply.body, "");
    assert!(reply.session.is_none());
}

#[test]
fn first_given_address_is_bound() {
    let given = |text: &str| Some(text.to_owned());
    assert_eq!(bind_address(given("a:1"), given("b:2")), "a:1");
    assert_eq!(bind_address(None, given("b:2")), "b:2");
    assert_eq!(bind_address(None, None), "127.0.0.1:3920");
}

#[test]
fn refusals_have_their_status() {
    let refusal = bad_request("b".to_owned());
    assert_eq!((refusal.status, refusal.message), (400, "b".to_owned()));
    let refusal = internal_error("i".to_owned());
    assert_eq!((refusal.status, refusal.message), (500, "i".to_owned()));
}
