use streamable_mcp::message::{JSONRPCMessage, JSONRPCNotification};
use streamable_mcp::server::redact::redact_bearer;
use streamable_mcp::server::startup::{
    bind_address, log_path, FailureKind, StartupError, CHANNEL_CAPACITY,
};
use streamable_mcp::server::stdio::{
    outgoing_line, stdin_action, stdout_action, StdinAction, StdinEvent, StdoutAction, StdoutEvent,
};

fn notification(method: &str) -> JSONRPCMessage {
    JSONRPCMessage::Notification(JSONRPCNotification {
        jsonrpc: "2.0".to_owned(),
        method: method.to_owned(),
        params: None,
    })
}

#[test]
fn line_with_a_message_is_forwarded() {
    let line = "{\"jsonrpc\":\"2.0\",\"id\":1,\"method\":\"ping\"}".to_owned();
    match stdin_action(&StdinEvent::Line(line)) {
        StdinAction::Forward(JSONRPCMessage::Request(request)) => {
            assert_eq!(request.method, "ping")
        }
        _ => panic!("not forwarded"),
    }
}

#[test]
fn line_without_a_message_is_passed_over() {
    for line in ["", "x", "{}", "[1]"] {
        let action = stdin_action(&StdinEvent::Line(line.to_owned()));
        assert!(matches!(action, StdinAction::ReadLine));
    }
}

#[test]
fn reader_stops_at_the_end_and_without_a_processor() {
    assert!(matches!(stdin_action(&StdinEvent::Ended), StdinAction::Stop));
    assert!(matches!(stdin_action(&StdinEvent::Refused), StdinAction::Stop));
    assert!(matches!(stdin_action(&StdinEvent::Accepted), StdinAction::ReadLine));
}

#[test]
fn writer_goes_on_until_it_fails_or_is_closed() {
    match stdout_action(&StdoutEvent::Message(notification("n"))) {
        StdoutAction::Write(line) => {
            assert_eq!(line, "{\"jsonrpc\":\"2.0\",\"method\":\"n\"}\n")
        }
        _ => panic!("not written"),
    }
    assert!(matches!(stdout_action(&StdoutEvent::Written), StdoutAction::Receive));
    assert!(matches!(stdout_action(&StdoutEvent::Failed), StdoutAction::Stop));
    assert!(matches!(stdout_action(&StdoutEvent::Closed), StdoutAction::Stop));
}

#[test]
fn lines_read_back_message_by_message() {
    let methods = vec!["a", "line\nbreak", "tab\tand \u{7f}", ""];
    let mut text = String::new();
    for method in &methods {
        text.push_str(&outgoing_line(&notification(method)));
    }
    let lines: Vec<&str> = text.lines().collect();
    assert_eq!(lines.len(), methods.len());
    for (line, method) in lines.iter().zip(methods) {
        match stdin_action(&StdinEvent::Line(line.to_string())) {
            StdinAction::Forward(JSONRPCMessage::Notification(read)) => {
                assert_eq!(read.method, method)
            }
            _ => panic!("not read"),
        }
    }
}

#[test]
fn startup_failures_are_described() {
    let cases = vec![
        (
            StartupError::Overrides("o".to_owned()),
            "error parsing -c overrides: o",
            FailureKind::InvalidInput,
        ),
        (StartupError::Config("c".to_owned()), "error loading config: c", FailureKind::InvalidData),
        (
            StartupError::BindAddress("b".to_owned()),
            "invalid bind address: b",
            FailureKind::InvalidInput,
        ),
        (
            StartupError::Bind { address: "h:1".to_owned(), reason: "r".to_owned() },
            "failed to bind h:1: r",
            FailureKind::AddrInUse,
        ),
        (StartupError::Serve("s".to_owned()), "server error: s", FailureKind::Other),
    ];
    for (error, text, kind) in cases {
        assert_eq!(error.message(), text);
        assert_eq!(error.kind(), kind);
    }
}

#[test]
fn address_and_paths_are_composed() {
    assert_eq!(bind_address("127.0.0.1", 3333), "127.0.0.1:3333");
    assert_eq!(bind_address("", 0), ":0");
    assert_eq!(bind_address("h", 65535), "h:65535");
    assert_eq!(log_path(None, "/home/u"), "/home/u/.codex/log/codex-rmcp.log");
    assert_eq!(log_path(Some("/srv".to_owned()), "/home/u"), "/srv/log/codex-rmcp.log");
    assert_eq!(CHANNEL_CAPACITY, 128);
}

#[test]
fn bearer_tokens_are_masked() {
    assert_eq!(redact_bearer("Authorization: Bearer abc.def"), "Authorization: Bearer ****");
    assert_eq!(redact_bearer("bearer x, BEARER y z"), "bearer **** BEARER **** z");
    assert_eq!(redact_bearer("Bearer   spaced\tnext"), "Bearer   ****\tnext");
    assert_eq!(redact_bearer("xbEaReR t"), "xbEaReR ****");
    assert_eq!(redact_bearer("Bearer "), "Bearer ");
    assert_eq!(redact_bearer("Bearer bearer t"), "Bearer **** ****");
    assert_eq!(redact_bearer("Bearer xbearer y z"), "Bearer **** **** z");
    assert_eq!(redact_bearer("Bearer xBEARER"), "Bearer ****");
    assert_eq!(redact_bearer("Bearer bearer\tt"), "Bearer ****\tt");
    assert_eq!(redact_bearer("a bearer bearerbearer b c"), "a bearer **** **** c");
    assert_eq!(redact_bearer("Bearer \u{e9}\u{4e2d} end\n"), "Bearer **** end\n");
}

#[test]
fn masked_line_does_not_depend_on_the_token() {
    let one = redact_bearer("POST /mcp bearer aaaa status=200");
    let two = redact_bearer("POST /mcp bearer b status=200");
    assert_eq!(one, two);
}

#[test]
fn line_without_the_scheme_is_kept() {
    for line in ["", "no token here", "Bearer", "bearertoken", "Bear er x"] {
        assert_eq!(redact_bearer(line), line);
    }
}
