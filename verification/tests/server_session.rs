use axum::http::HeaderValue;
use serde_json::Value;
use streamable_mcp::message::{
    JSONRPCError, JSONRPCErrorError, JSONRPCMessage, JSONRPCNotification, JSONRPCResponse,
    RequestId,
};
use streamable_mcp::server::session::{
    after_forward, after_wait, event_data, post_reply, Body, Expectation, HttpState, PostAction,
    PostEvent, PostStep, Received,
};

fn json(text: &str) -> Value {
    serde_json::from_str(text).unwrap()
}

fn header(text: &str) -> Option<HeaderValue> {
    Some(HeaderValue::from_str(text).unwrap())
}

fn text_of(header: &Option<HeaderValue>) -> Option<String> {
    header.as_ref().map(|value| value.to_str().unwrap().to_owned())
}

fn request(id: &str) -> Value {
    json(&format!("{{\"id\": {}, \"method\": \"m\"}}", id))
}

fn response(id: RequestId) -> JSONRPCMessage {
    JSONRPCMessage::Response(JSONRPCResponse {
        id,
        jsonrpc: "2.0".to_owned(),
        result: json("1"),
    })
}

fn is_uuid_v4(text: &str) -> bool {
    let bytes = text.as_bytes();
    bytes.len() == 36
        && bytes[14] == b'4'
        && matches!(bytes[19], b'8' | b'9' | b'a' | b'b')
        && bytes.iter().enumerate().all(|(at, b)| {
            if at == 8 || at == 13 || at == 18 || at == 23 {
                *b == b'-'
            } else {
                b.is_ascii_digit() || (b'a'..=b'f').contains(b)
            }
        })
}

#[test]
fn single_server_passes_over_the_named_session() {
    let mut state: HttpState<u32> = HttpState::single("own".to_owned());
    let plan = state.handle_post(&header("other"), &header("text/event-stream"), &request("1"), 9);
    assert_eq!(plan.session, "own");
    assert!(!plan.created);
    assert_eq!(text_of(&plan.session_header), Some("own".to_owned()));
    assert!(matches!(plan.action, PostAction::ForwardAndWait(JSONRPCMessage::Request(_))));
    let stream = state.handle_sse(&header("other"));
    assert_eq!(stream.session, "own");
    assert!(!stream.created);
    assert_eq!(text_of(&stream.session_header), Some("own".to_owned()));
    assert_eq!(state.remove_pending(&"own".to_owned(), &RequestId::Integer(1)), Some(9));
}

#[test]
fn single_server_makes_up_its_session() {
    let mut state: HttpState<u32> = HttpState::new_single();
    let first = state.handle_post(&None, &None, &request("1"), 1);
    let second = state.handle_post(&None, &None, &request("2"), 2);
    assert!(is_uuid_v4(&first.session));
    assert_eq!(first.session, second.session);
    let other: HttpState<u32> = HttpState::new_single();
    assert_ne!(other.choose_session(&None), first.session);
}

#[test]
fn several_sessions_are_opened_on_demand() {
    let mut state: HttpState<u32> = HttpState::multi();
    let plan = state.handle_post(&header("a"), &None, &request("1"), 1);
    assert_eq!(plan.session, "a");
    assert!(plan.created);
    assert_eq!(text_of(&plan.session_header), Some("a".to_owned()));
    let plan = state.handle_post(&header("a"), &None, &request("2"), 2);
    assert!(!plan.created);
    let stream = state.handle_sse(&header("b"));
    assert_eq!(stream.session, "b");
    assert!(stream.created);
    assert_eq!(text_of(&stream.session_header), Some("b".to_owned()));
    let stream = state.handle_sse(&header("b"));
    assert!(!stream.created);
}

#[test]
fn fresh_session_is_recognised_when_it_is_sent_back() {
    let mut state: HttpState<u32> = HttpState::multi();
    let plan = state.handle_post(&None, &None, &request("1"), 1);
    assert!(is_uuid_v4(&plan.session));
    assert!(plan.created);
    assert_eq!(text_of(&plan.session_header), Some(plan.session.clone()));
    let again = state.handle_post(&plan.session_header, &None, &request("2"), 2);
    assert_eq!(again.session, plan.session);
    assert!(!again.created);
}

#[test]
fn unreadable_session_header_counts_as_absent() {
    let mut state: HttpState<u32> = HttpState::multi();
    let opaque = Some(HeaderValue::from_bytes(b"\xff").unwrap());
    let plan = state.handle_post(&opaque, &None, &request("1"), 1);
    assert!(is_uuid_v4(&plan.session));
}

#[test]
fn body_that_is_no_message_opens_nothing() {
    let mut state: HttpState<u32> = HttpState::multi();
    let plan = state.handle_post(&header("a"), &None, &json("{}"), 1);
    assert!(matches!(plan.action, PostAction::Refuse));
    assert!(!plan.created);
    assert_eq!(text_of(&plan.session_header), Some("a".to_owned()));
    assert!(state.handle_sse(&header("a")).created);
}

#[test]
fn stream_is_the_response_where_it_is_accepted() {
    let mut state: HttpState<u32> = HttpState::multi();
    let accept = header("application/json, text/event-stream");
    let plan = state.handle_post(&header("a"), &accept, &request("1"), 1);
    assert!(matches!(plan.action, PostAction::ForwardAndStream(_)));
    assert_eq!(state.remove_pending(&"a".to_owned(), &RequestId::Integer(1)), None);
    let plan = state.handle_post(&header("a"), &header("application/json"), &request("1"), 1);
    assert!(matches!(plan.action, PostAction::ForwardAndWait(_)));
    assert_eq!(state.remove_pending(&"a".to_owned(), &RequestId::Integer(1)), Some(1));
}

#[test]
fn messages_that_want_no_answer_are_acknowledged() {
    let mut state: HttpState<u32> = HttpState::multi();
    let accept = header("text/event-stream");
    let bodies = vec![
        json("{\"method\": \"n\"}"),
        json("{\"id\": 1, \"result\": 1}"),
        json("{\"id\": 1, \"error\": {\"code\": 1, \"message\": \"\"}}"),
    ];
    for body in bodies {
        let plan = state.handle_post(&header("a"), &accept, &body, 1);
        assert!(matches!(plan.action, PostAction::Acknowledge(_)));
    }
}

#[test]
fn answer_reaches_its_request_once() {
    let mut state: HttpState<u32> = HttpState::multi();
    let session = "a".to_owned();
    let _ = state.handle_post(&header("a"), &None, &request("\"x\""), 7);
    let _ = state.handle_post(&header("a"), &None, &request("8"), 8);
    let step = state.bridge(&session, &response(RequestId::String("x".to_owned())));
    assert_eq!(step.session, "a");
    assert_eq!(step.responder, Some(7));
    assert_eq!(step.json, "{\"id\":\"x\",\"jsonrpc\":\"2.0\",\"result\":1}");
    let step = state.bridge(&session, &response(RequestId::String("x".to_owned())));
    assert_eq!(step.responder, None);
    let failed = JSONRPCMessage::Error(JSONRPCError {
        error: JSONRPCErrorError { code: 1, message: "m".to_owned(), data: None },
        id: RequestId::Integer(8),
        jsonrpc: "2.0".to_owned(),
    });
    assert_eq!(state.bridge(&session, &failed).responder, Some(8));
}

#[test]
fn text_and_number_are_different_identifiers() {
    let mut state: HttpState<u32> = HttpState::single("s".to_owned());
    let session = "s".to_owned();
    let _ = state.handle_post(&None, &None, &request("1"), 1);
    assert_eq!(state.bridge(&session, &response(RequestId::String("1".to_owned()))).responder, None);
    assert_eq!(state.bridge(&session, &response(RequestId::Integer(1))).responder, Some(1));
}

#[test]
fn no_answer_crosses_sessions() {
    let mut state: HttpState<u32> = HttpState::multi();
    let _ = state.handle_post(&header("a"), &None, &request("1"), 10);
    let _ = state.handle_post(&header("b"), &None, &request("1"), 20);
    assert_eq!(state.bridge(&"b".to_owned(), &response(RequestId::Integer(1))).responder, Some(20));
    assert_eq!(state.bridge(&"b".to_owned(), &response(RequestId::Integer(1))).responder, None);
    assert_eq!(state.bridge(&"c".to_owned(), &response(RequestId::Integer(1))).responder, None);
    assert_eq!(state.bridge(&"a".to_owned(), &response(RequestId::Integer(1))).responder, Some(10));
}

#[test]
fn notification_leaves_requests_waiting() {
    let mut state: HttpState<u32> = HttpState::single("s".to_owned());
    let session = "s".to_owned();
    let _ = state.handle_post(&None, &None, &request("1"), 1);
    let notification = JSONRPCMessage::Notification(JSONRPCNotification {
        jsonrpc: "2.0".to_owned(),
        method: "n".to_owned(),
        params: None,
    });
    let step = state.bridge(&session, &notification);
    assert_eq!(step.responder, None);
    assert_eq!(step.json, "{\"jsonrpc\":\"2.0\",\"method\":\"n\"}");
    let _ = state.bridge(&session, &response(RequestId::Integer(2)));
    assert_eq!(state.remove_pending(&session, &RequestId::Integer(1)), Some(1));
}

#[test]
fn later_request_with_one_identifier_takes_the_place() {
    let mut state: HttpState<u32> = HttpState::single("s".to_owned());
    let session = "s".to_owned();
    state.register_pending(&session, RequestId::Integer(1), 1);
    state.register_pending(&session, RequestId::Integer(1), 2);
    assert_eq!(state.remove_pending(&session, &RequestId::Integer(1)), Some(2));
    assert_eq!(state.remove_pending(&session, &RequestId::Integer(1)), None);
}

#[test]
fn session_is_opened_once() {
    let mut state: HttpState<u32> = HttpState::multi();
    assert!(state.ensure_session(&"a".to_owned()));
    assert!(!state.ensure_session(&"a".to_owned()));
    let plan = state.open_stream("a".to_owned());
    assert!(!plan.created);
    let plan = state.plan_post("a".to_owned(), false, &request("3"), 3);
    assert!(!plan.created);
    assert_eq!(state.remove_pending(&"a".to_owned(), &RequestId::Integer(3)), Some(3));
}

#[test]
fn session_that_cannot_be_sent_has_no_header() {
    let mut state: HttpState<u32> = HttpState::single("a\nb".to_owned());
    let plan = state.handle_post(&None, &None, &request("1"), 1);
    assert_eq!(plan.session, "a\nb");
    assert!(plan.session_header.is_none());
}

#[test]
fn forwarding_decides_how_a_post_goes_on() {
    assert!(matches!(after_forward(Expectation::Answer, true), PostStep::Await));
    assert!(matches!(after_forward(Expectation::Stream, true), PostStep::Stream));
    assert!(matches!(
        after_forward(Expectation::Answer, false),
        PostStep::Finish(PostEvent::ProcessorGone)
    ));
    assert!(matches!(
        after_forward(Expectation::Stream, false),
        PostStep::Finish(PostEvent::ProcessorGone)
    ));
    for taken in [true, false] {
        assert!(matches!(
            after_forward(Expectation::Nothing, taken),
            PostStep::Finish(PostEvent::Acknowledged)
        ));
    }
    assert!(matches!(after_wait(None), PostEvent::Unanswered));
    match after_wait(Some("1".to_owned())) {
        PostEvent::Answered(text) => assert_eq!(text, "1"),
        _ => panic!("not answered"),
    }
}

#[test]
fn every_end_of_a_post_has_its_response() {
    let cases = vec![
        (PostEvent::Refused, 400, "invalid JSON-RPC"),
        (PostEvent::ProcessorGone, 500, "processor unavailable"),
        (PostEvent::Unanswered, 500, "no response"),
    ];
    for (event, status, text) in cases {
        let reply = post_reply(&event);
        assert_eq!(reply.status, status);
        match reply.body {
            Body::Text(body) => assert_eq!(body, text),
            _ => panic!("no text"),
        }
    }
    let reply = post_reply(&PostEvent::Acknowledged);
    assert_eq!(reply.status, 204);
    assert!(matches!(reply.body, Body::Empty));
}

#[test]
fn answer_is_the_body_of_the_response() {
    let reply = post_reply(&PostEvent::Answered("{\"id\":1,\"result\":[]}".to_owned()));
    assert_eq!(reply.status, 200);
    match reply.body {
        Body::Json(value) => assert_eq!(value, json("{\"id\": 1, \"result\": []}")),
        _ => panic!("no JSON"),
    }
    match post_reply(&PostEvent::Answered("{".to_owned())).body {
        Body::Json(value) => assert!(value.is_null()),
        _ => panic!("no JSON"),
    }
}

#[test]
fn gap_gives_no_event() {
    let received = vec![
        Received::Message("{\"a\":1}".to_owned()),
        Received::Gap,
        Received::Message("{}".to_owned()),
    ];
    let events: Vec<String> = received.into_iter().filter_map(event_data).collect();
    assert_eq!(events, vec!["{\"a\":1}", "{}"]);
}

#[test]
fn session_lives_on_after_its_requests() {
    let mut state: HttpState<u32> = HttpState::multi();
    let _ = state.handle_post(&header("a"), &None, &request("1"), 1);
    let _ = state.bridge(&"a".to_owned(), &response(RequestId::Integer(1)));
    let _ = state.handle_post(&header("b"), &None, &request("1"), 2);
    assert!(!state.handle_sse(&header("a")).created);
    assert!(!state.handle_sse(&header("b")).created);
}

#[test]
fn shared_session_stays_the_same() {
    let mut state: HttpState<u32> = HttpState::single("s".to_owned());
    for named in [None, header("x"), header("s")] {
        let plan = state.handle_post(&named, &None, &json("{\"method\": \"n\"}"), 1);
        assert_eq!(plan.session, "s");
        assert_eq!(state.handle_sse(&named).session, "s");
        assert_eq!(state.choose_session(&named), "s");
    }
}
