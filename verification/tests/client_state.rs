use axum::http::HeaderValue;
use serde_json::Value;
use streamable_mcp::client::error::ClientError;
use streamable_mcp::client::exchange::{Exchange, ExchangeEvent, Progress};
use streamable_mcp::client::listener::{Delivery, ListenerEvent, ListenerStage};
use streamable_mcp::client::reply::{RpcResponse, SseEvent};
use streamable_mcp::client::state::{PostRequest, StreamableHttpClient};

type Client = StreamableHttpClient<u32>;

fn json(text: &str) -> Value {
    serde_json::from_str(text).unwrap()
}

fn client() -> Client {
    match Client::new("http://localhost:3920/mcp", Some("Bearer secret".to_owned())) {
        Ok(client) => client,
        Err(error) => panic!("{}", error.message()),
    }
}

fn header(text: &str) -> Option<HeaderValue> {
    Some(HeaderValue::from_str(text).unwrap())
}

fn head(status: u16, session: Option<&str>, content_type: Option<&str>) -> ExchangeEvent {
    ExchangeEvent::HeadReceived {
        status,
        session: session.and_then(header),
        content_type: content_type.and_then(header),
    }
}

fn message_event(data: &str) -> SseEvent {
    SseEvent { event: None, data: Some(data.to_owned()) }
}

fn go_on(client: &mut Client, exchange: Exchange, event: ExchangeEvent) -> Exchange {
    match client.advance(exchange, event) {
        Progress::Continue(next) => next,
        Progress::Done(_) => panic!("done"),
    }
}

fn finish(
    client: &mut Client,
    exchange: Exchange,
    event: ExchangeEvent,
) -> Result<RpcResponse<Value>, ClientError> {
    match client.advance(exchange, event) {
        Progress::Continue(_) => panic!("not done"),
        Progress::Done(outcome) => outcome,
    }
}

fn failure(outcome: Result<RpcResponse<Value>, ClientError>) -> String {
    match outcome {
        Ok(_) => panic!("succeeded"),
        Err(error) => error.message(),
    }
}

fn result(outcome: Result<RpcResponse<Value>, ClientError>) -> Value {
    match outcome {
        Ok(response) => response.result,
        Err(error) => panic!("{}", error.message()),
    }
}

fn waits(client: &mut Client, id: &str) -> bool {
    match client.remove_pending(&id.to_owned()) {
        Some(responder) => {
            client.register_pending(id.to_owned(), responder);
            true
        }
        None => false,
    }
}

#[test]
fn url_is_brought_to_its_normal_form() {
    match Client::new("HTTP://Example.COM:80/a/../b", None) {
        Ok(client) => assert_eq!(client.url(), "http://example.com/b"),
        Err(error) => panic!("{}", error.message()),
    }
}

#[test]
fn invalid_url_is_reported() {
    match Client::new("no url", None) {
        Ok(_) => panic!("accepted"),
        Err(error) => assert_eq!(error.message(), "invalid MCP streamable HTTP URL `no url`"),
    }
    assert!(Client::connect("", None, json("{}")).is_err());
}

#[test]
fn connect_begins_the_handshake() {
    let (client, exchange, request) =
        match Client::connect("http://h/", Some("t".to_owned()), json("{\"a\": 1}")) {
            Ok(begun) => begun,
            Err(error) => panic!("{}", error.message()),
        };
    assert_eq!(client.url(), "http://h/");
    assert_eq!(exchange.id, "1");
    assert!(!exchange.background);
    assert_eq!(request.accept, "text/event-stream, application/json");
    assert_eq!(request.content_type, "application/json");
    assert_eq!(request.bearer, Some("t".to_owned()));
    assert_eq!(request.session, None);
    assert_eq!(
        request.body,
        json("{\"jsonrpc\": \"2.0\", \"id\": \"1\", \"method\": \"initialize\", \"params\": {\"a\": 1}}")
    );
}

#[test]
fn requests_are_numbered_and_composed() {
    let mut client = client();
    let (first, request): (Exchange, PostRequest) = client.list_tools(None, 10);
    assert_eq!(first.id, "1");
    assert!(first.background);
    assert_eq!(request.bearer, Some("secret".to_owned()));
    assert_eq!(
        request.body,
        json("{\"jsonrpc\": \"2.0\", \"id\": \"1\", \"method\": \"tools/list\"}")
    );
    let (second, request) = client.call_tool(json("{\"name\": \"echo\"}"), 20);
    assert_eq!(second.id, "2");
    assert_eq!(
        request.body,
        json("{\"jsonrpc\": \"2.0\", \"id\": \"2\", \"method\": \"tools/call\", \"params\": {\"name\": \"echo\"}}")
    );
    assert!(waits(&mut client, "1"));
    assert!(waits(&mut client, "2"));
    let (third, request) = client.send_request("ping", Some(json("[]")), None);
    assert_eq!(third.id, "3");
    assert!(!third.background);
    assert_eq!(
        request.body,
        json("{\"jsonrpc\": \"2.0\", \"id\": \"3\", \"method\": \"ping\", \"params\": []}")
    );
    assert!(!waits(&mut client, "3"));
}

#[test]
fn responders_are_replaced_and_taken_once() {
    let mut client = client();
    assert_eq!(client.register_pending("a".to_owned(), 1), None);
    assert_eq!(client.register_pending("a".to_owned(), 2), Some(1));
    assert_eq!(client.remove_pending(&"b".to_owned()), None);
    assert_eq!(client.remove_pending(&"a".to_owned()), Some(2));
    assert_eq!(client.remove_pending(&"a".to_owned()), None);
}

#[test]
fn session_of_a_response_is_sent_with_the_next_request() {
    let mut client = client();
    let (exchange, request) = client.send_request("initialize", None, None);
    assert_eq!(request.session, None);
    let exchange = go_on(&mut client, exchange, head(200, Some("s-1"), Some("application/json")));
    let body = b"{\"id\": \"1\", \"result\": {}}".to_vec();
    assert_eq!(result(finish(&mut client, exchange, ExchangeEvent::BodyRead(body))), json("{}"));
    assert_eq!(client.current_session_id(), Some("s-1".to_owned()));
    let (_, request) = client.list_tools(None, 1);
    assert_eq!(request.session, Some("s-1".to_owned()));
    let (_, request) = client.list_tools(None, 1);
    assert_eq!(request.session, Some("s-1".to_owned()));
}

#[test]
fn session_header_that_is_no_text_is_refused() {
    let mut client = client();
    let opaque = Some(HeaderValue::from_bytes(b"a\xff").unwrap());
    match client.maybe_update_session(&opaque) {
        Ok(_) => panic!("accepted"),
        Err(error) => assert_eq!(error.message(), "invalid session header value"),
    }
    assert_eq!(client.current_session_id(), None);
    assert!(client.maybe_update_session(&header("x")).is_ok());
    assert!(client.maybe_update_session(&None).is_ok());
    assert_eq!(client.current_session_id(), Some("x".to_owned()));
    let (exchange, _) = client.list_tools(None, 1);
    let event =
        ExchangeEvent::HeadReceived { status: 200, session: opaque, content_type: None };
    assert_eq!(failure(finish(&mut client, exchange, event)), "invalid session header value");
    assert!(waits(&mut client, "1"));
}

#[test]
fn failed_status_is_reported_with_its_body() {
    let mut client = client();
    let (exchange, _) = client.list_tools(None, 1);
    let exchange = go_on(&mut client, exchange, head(404, None, Some("text/plain")));
    assert!(!waits(&mut client, "1"));
    let event = ExchangeEvent::ErrorBodyRead(Some("gone".to_owned()));
    assert_eq!(
        failure(finish(&mut client, exchange, event)),
        "streamable HTTP request failed with status 404 Not Found: gone"
    );
    let (exchange, _) = client.list_tools(None, 2);
    let exchange = go_on(&mut client, exchange, head(500, None, None));
    assert_eq!(
        failure(finish(&mut client, exchange, ExchangeEvent::ErrorBodyRead(None))),
        "streamable HTTP request failed with status 500 Internal Server Error: <failed to read response body>"
    );
}

#[test]
fn content_type_is_compared_in_lower_case() {
    let mut client = client();
    let (exchange, _) = client.list_tools(None, 1);
    let exchange =
        go_on(&mut client, exchange, head(200, None, Some("Application/JSON; charset=utf-8")));
    let body = b"{\"id\": 1, \"result\": 8}".to_vec();
    assert_eq!(result(finish(&mut client, exchange, ExchangeEvent::BodyRead(body))), json("8"));
    assert!(!waits(&mut client, "1"));
}

#[test]
fn other_content_type_is_refused() {
    let mut client = client();
    let (exchange, _) = client.list_tools(None, 1);
    assert_eq!(
        failure(finish(&mut client, exchange, head(200, None, Some("Text/HTML")))),
        "unsupported response content type `text/html` from streamable HTTP server"
    );
    assert!(!waits(&mut client, "1"));
    let (exchange, _) = client.list_tools(None, 1);
    assert_eq!(
        failure(finish(&mut client, exchange, head(204, None, None))),
        "unsupported response content type `` from streamable HTTP server"
    );
}

#[test]
fn request_without_a_readable_response_keeps_waiting() {
    let mut client = client();
    let (exchange, _) = client.list_tools(None, 1);
    assert_eq!(
        failure(finish(&mut client, exchange, ExchangeEvent::HeadTimedOut)),
        "timed out awaiting streamable HTTP response"
    );
    assert!(waits(&mut client, "1"));
    let (exchange, _) = client.list_tools(None, 2);
    let event = ExchangeEvent::SendFailed("refused".to_owned());
    assert_eq!(failure(finish(&mut client, exchange, event)), "refused");
    assert!(waits(&mut client, "2"));
    let (exchange, _) = client.list_tools(None, 3);
    let exchange = go_on(&mut client, exchange, head(200, None, Some("application/json")));
    let event = ExchangeEvent::BodyFailed("cut".to_owned());
    assert_eq!(failure(finish(&mut client, exchange, event)), "cut");
    assert!(waits(&mut client, "3"));
    let (exchange, _) = client.list_tools(None, 4);
    let exchange = go_on(&mut client, exchange, head(200, None, Some("application/json")));
    let event = ExchangeEvent::BodyRead(b"{".to_vec());
    assert_eq!(failure(finish(&mut client, exchange, event)), "error decoding response body");
    assert!(waits(&mut client, "4"));
}

#[test]
fn answer_comes_over_the_event_stream_of_the_response() {
    let mut client = client();
    let (exchange, _) = client.call_tool(json("{}"), 7);
    let exchange = go_on(&mut client, exchange, head(200, None, Some("text/event-stream")));
    let event = ExchangeEvent::EventReceived(message_event("{\"method\": \"m\"}"));
    let exchange = go_on(&mut client, exchange, event);
    assert!(waits(&mut client, "1"));
    let event = ExchangeEvent::EventReceived(message_event("{\"id\": \"1\", \"result\": 3}"));
    match finish(&mut client, exchange, event) {
        Ok(response) => {
            assert_eq!(response.result, json("3"));
            assert_eq!(response.notifications, vec![json("{\"method\": \"m\"}")]);
        }
        Err(error) => panic!("{}", error.message()),
    }
    assert!(!waits(&mut client, "1"));
}

#[test]
fn stream_failures_release_the_request() {
    let mut client = client();
    let cases = vec![
        (ExchangeEvent::EventFailed, "failed to parse SSE event"),
        (ExchangeEvent::StreamTimedOut, "timed out awaiting streamable HTTP SSE response"),
        (
            ExchangeEvent::EventReceived(SseEvent { event: None, data: None }),
            "SSE event missing data payload",
        ),
    ];
    for (event, text) in cases {
        let (exchange, _) = client.list_tools(None, 1);
        let id = exchange.id.clone();
        let exchange = go_on(&mut client, exchange, head(200, None, Some("text/event-stream")));
        assert!(waits(&mut client, &id));
        assert_eq!(failure(finish(&mut client, exchange, event)), text);
        assert!(!waits(&mut client, &id));
    }
}

#[test]
fn stream_that_ends_leaves_the_answer_to_the_background() {
    let mut client = client();
    let (exchange, _) = client.list_tools(None, 5);
    let exchange = go_on(&mut client, exchange, head(200, None, Some("text/event-stream")));
    let exchange = go_on(&mut client, exchange, ExchangeEvent::StreamEnded);
    let message = match client.handle_stream_value(json("{\"id\": 1, \"result\": \"r\"}")) {
        Delivery::Answer { responder, message } => {
            assert_eq!(responder, 5);
            message
        }
        _ => panic!("not delivered"),
    };
    let outcome = finish(&mut client, exchange, ExchangeEvent::Delivered(message));
    assert_eq!(result(outcome), json("\"r\""));
    assert!(!waits(&mut client, "1"));
}

#[test]
fn handshake_cannot_be_answered_over_the_background() {
    let mut client = client();
    let (exchange, _) = client.send_request("initialize", None, None);
    let exchange = go_on(&mut client, exchange, head(200, None, Some("text/event-stream")));
    assert_eq!(
        failure(finish(&mut client, exchange, ExchangeEvent::StreamEnded)),
        "stream closed before receiving response"
    );
}

#[test]
fn background_delivery_can_fail() {
    let mut client = client();
    let cases = vec![
        (ExchangeEvent::DeliveryDropped, "event stream closed before delivering response"),
        (
            ExchangeEvent::DeliveryTimedOut,
            "timed out awaiting streamable HTTP response over event stream",
        ),
    ];
    for (event, text) in cases {
        let (exchange, _) = client.list_tools(None, 1);
        let id = exchange.id.clone();
        let exchange = go_on(&mut client, exchange, head(200, None, Some("text/event-stream")));
        let exchange = go_on(&mut client, exchange, ExchangeEvent::StreamEnded);
        assert_eq!(failure(finish(&mut client, exchange, event)), text);
        assert!(!waits(&mut client, &id));
    }
}

#[test]
fn one_request_leaves_the_others_waiting() {
    let mut client = client();
    let (first, _) = client.list_tools(None, 1);
    let (_second, _) = client.list_tools(None, 2);
    let _ = finish(&mut client, first, head(200, None, Some("image/png")));
    assert!(!waits(&mut client, "1"));
    assert!(waits(&mut client, "2"));
}

#[test]
fn delivery_finds_the_request_once() {
    let mut client = client();
    client.register_pending("4".to_owned(), 44);
    client.register_pending("5".to_owned(), 55);
    let answer = "{\"id\": 4, \"result\": null}";
    match client.handle_stream_event(&message_event(answer)) {
        Delivery::Answer { responder, message } => {
            assert_eq!(responder, 44);
            assert_eq!(message, json(answer));
        }
        _ => panic!("not delivered"),
    }
    match client.handle_stream_event(&message_event(answer)) {
        Delivery::Unknown(id) => assert_eq!(id, "4"),
        _ => panic!("delivered twice"),
    }
    assert!(waits(&mut client, "5"));
}

#[test]
fn events_that_answer_nobody_are_told_apart() {
    let mut client = client();
    client.register_pending("1".to_owned(), 1);
    let kind = SseEvent { event: Some("ping".to_owned()), data: Some("{\"id\": 1}".to_owned()) };
    assert!(matches!(client.handle_stream_event(&kind), Delivery::OtherKind));
    let bare = SseEvent { event: None, data: None };
    assert!(matches!(client.handle_stream_event(&bare), Delivery::NoData));
    assert!(matches!(client.handle_stream_event(&message_event("{")), Delivery::NotJson));
    match client.handle_stream_event(&message_event("{\"id\": null}")) {
        Delivery::Unaddressed(message) => assert_eq!(message, json("{\"id\": null}")),
        _ => panic!("addressed"),
    }
    assert!(waits(&mut client, "1"));
}

#[test]
fn listener_is_started_once_and_needs_a_session() {
    let mut client = client();
    match client.ensure_stream_listener() {
        Ok(_) => panic!("started"),
        Err(error) => {
            assert_eq!(error.message(), "missing MCP session id for streamable HTTP listener")
        }
    }
    assert!(client.maybe_update_session(&header("s")).is_ok());
    match client.ensure_stream_listener() {
        Ok(session) => assert_eq!(session, Some("s".to_owned())),
        Err(error) => panic!("{}", error.message()),
    }
    match client.ensure_stream_listener() {
        Ok(session) => assert_eq!(session, None),
        Err(error) => panic!("{}", error.message()),
    }
}

#[test]
fn handshake_starts_the_listener_only_where_it_succeeded() {
    let mut client = client();
    assert!(client.maybe_update_session(&header("s")).is_ok());
    match client.finish_connect(Err(ClientError::StreamClosed)) {
        Ok(_) => panic!("started"),
        Err(error) => assert_eq!(error.message(), "stream closed before receiving response"),
    }
    let answer = RpcResponse { result: json("{}"), notifications: Vec::new() };
    match client.finish_connect(Ok(answer)) {
        Ok(session) => assert_eq!(session, Some("s".to_owned())),
        Err(error) => panic!("{}", error.message()),
    }
}

#[test]
fn request_for_the_stream_names_the_session() {
    let request = client().listen_request("s-9");
    assert_eq!(request.accept, "text/event-stream");
    assert_eq!(request.bearer, Some("secret".to_owned()));
    assert_eq!(request.session, "s-9");
}

#[test]
fn listener_pauses_before_it_reconnects() {
    let mut client = client();
    client.register_pending("1".to_owned(), 1);
    let cases = vec![
        (ListenerEvent::SendFailed, ListenerStage::Pause),
        (ListenerEvent::HeadReceived { status: 503 }, ListenerStage::Pause),
        (ListenerEvent::HeadReceived { status: 200 }, ListenerStage::Read),
        (ListenerEvent::EventFailed, ListenerStage::Pause),
        (ListenerEvent::StreamEnded, ListenerStage::Pause),
        (ListenerEvent::PauseOver, ListenerStage::Connect),
    ];
    for (event, stage) in cases {
        let (next, delivery) = client.run_stream_listener(&event);
        assert_eq!(next, stage);
        assert!(delivery.is_none());
    }
    let event = ListenerEvent::EventReceived(message_event("{\"id\": \"1\", \"result\": 1}"));
    let (next, delivery) = client.run_stream_listener(&event);
    assert_eq!(next, ListenerStage::Read);
    assert!(matches!(delivery, Some(Delivery::Answer { responder: 1, .. })));
}

#[test]
fn finished_requests_leave_nothing_behind() {
    let mut client = client();
    client.register_pending("old".to_owned(), 9);
    let (exchange, _) = client.list_tools(None, 1);
    let exchange = go_on(&mut client, exchange, head(503, None, None));
    let _ = finish(&mut client, exchange, ExchangeEvent::ErrorBodyRead(None));
    let (exchange, _) = client.list_tools(None, 2);
    let exchange = go_on(&mut client, exchange, head(200, None, Some("text/event-stream")));
    let event = ExchangeEvent::EventReceived(message_event("{\"method\": \"m\"}"));
    let exchange = go_on(&mut client, exchange, event);
    let exchange = go_on(&mut client, exchange, ExchangeEvent::StreamEnded);
    let _ = finish(&mut client, exchange, ExchangeEvent::DeliveryTimedOut);
    for id in ["1", "2", "3"] {
        assert!(!waits(&mut client, id));
    }
    assert!(waits(&mut client, "old"));
}

#[test]
fn scheme_is_never_sent_twice() {
    for token in ["x", "Bearer x", "bearer Bearer x", "Bearer bearer Bearer x"] {
        match Client::connect("http://h/", Some(token.to_owned()), json("{}")) {
            Ok((_, _, request)) => assert_eq!(request.bearer, Some("x".to_owned())),
            Err(error) => panic!("{}", error.message()),
        }
    }
}
