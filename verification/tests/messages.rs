use serde_json::Value;
use streamable_mcp::client::reply::parse_json_response;
use streamable_mcp::client::state::StreamableHttpClient;
use streamable_mcp::message::{
    message_text, parse_message, read_message, write_message, JSONRPCError, JSONRPCErrorError,
    JSONRPCMessage, JSONRPCNotification, JSONRPCRequest, JSONRPCResponse, RequestId,
};

fn json(text: &str) -> Value {
    serde_json::from_str(text).unwrap()
}

fn read(text: &str) -> JSONRPCMessage {
    read_message(&json(text)).unwrap()
}

fn rewritten(text: &str) -> String {
    message_text(&read(text))
}

#[test]
fn method_with_identifier_is_a_request() {
    match read("{\"jsonrpc\": \"2.0\", \"id\": 1, \"method\": \"m\", \"params\": {\"a\": 1}}") {
        JSONRPCMessage::Request(request) => {
            assert!(matches!(request.id, RequestId::Integer(1)));
            assert_eq!(request.jsonrpc, "2.0");
            assert_eq!(request.method, "m");
            assert_eq!(request.params, Some(json("{\"a\": 1}")));
        }
        _ => panic!("no request"),
    }
    match read("{\"id\": \"x\", \"method\": \"m\", \"result\": 1}") {
        JSONRPCMessage::Request(request) => {
            match request.id {
                RequestId::String(text) => assert_eq!(text, "x"),
                RequestId::Integer(_) => panic!("a number"),
            }
            assert_eq!(request.jsonrpc, "2.0");
            assert_eq!(request.params, None);
        }
        _ => panic!("no request"),
    }
}

#[test]
fn method_without_identifier_is_a_notification() {
    match read("{\"jsonrpc\": \"1.0\", \"method\": \"n\", \"params\": null}") {
        JSONRPCMessage::Notification(notification) => {
            assert_eq!(notification.jsonrpc, "1.0");
            assert_eq!(notification.method, "n");
            assert_eq!(notification.params, None);
        }
        _ => panic!("no notification"),
    }
    assert!(matches!(
        read("{\"id\": 1.5, \"method\": \"n\"}"),
        JSONRPCMessage::Notification(_)
    ));
    assert!(matches!(
        read("{\"id\": null, \"method\": \"n\"}"),
        JSONRPCMessage::Notification(_)
    ));
}

#[test]
fn result_with_identifier_is_a_response() {
    match read("{\"id\": -1, \"result\": null, \"error\": {\"code\": 1, \"message\": \"\"}}") {
        JSONRPCMessage::Response(response) => {
            assert!(matches!(response.id, RequestId::Integer(-1)));
            assert!(response.result.is_null());
        }
        _ => panic!("no response"),
    }
}

#[test]
fn error_with_identifier_is_an_error() {
    match read("{\"id\": 1, \"error\": {\"code\": -5, \"message\": \"bad\", \"data\": [1]}}") {
        JSONRPCMessage::Error(failed) => {
            assert_eq!(failed.error.code, -5);
            assert_eq!(failed.error.message, "bad");
            assert_eq!(failed.error.data, Some(json("[1]")));
        }
        _ => panic!("no error"),
    }
}

#[test]
fn other_values_are_no_messages() {
    let texts = vec![
        "1",
        "{}",
        "{\"id\": 1}",
        "{\"result\": 1}",
        "{\"id\": 9223372036854775808, \"result\": 1}",
        "{\"id\": 1, \"method\": \"m\", \"jsonrpc\": 2}",
        "{\"id\": 1, \"error\": {\"code\": 1}}",
        "{\"id\": 1, \"error\": {\"message\": \"m\"}}",
        "{\"id\": 1, \"error\": {\"code\": 1.5, \"message\": \"m\"}}",
        "{\"id\": 1, \"error\": 1}",
    ];
    for text in texts {
        assert!(read_message(&json(text)).is_none(), "{}", text);
        assert!(parse_message(text).is_none(), "{}", text);
    }
    assert!(parse_message("{").is_none());
    assert!(parse_message("").is_none());
}

#[test]
fn message_is_written_as_compact_json() {
    let request = JSONRPCMessage::Request(JSONRPCRequest {
        id: RequestId::String("7".to_owned()),
        jsonrpc: "2.0".to_owned(),
        method: "ping".to_owned(),
        params: None,
    });
    assert_eq!(message_text(&request), "{\"id\":\"7\",\"jsonrpc\":\"2.0\",\"method\":\"ping\"}");
    let notification = JSONRPCMessage::Notification(JSONRPCNotification {
        jsonrpc: "2.0".to_owned(),
        method: "n".to_owned(),
        params: Some(json("[true]")),
    });
    assert_eq!(
        message_text(&notification),
        "{\"jsonrpc\":\"2.0\",\"method\":\"n\",\"params\":[true]}"
    );
    let response = JSONRPCMessage::Response(JSONRPCResponse {
        id: RequestId::Integer(-4),
        jsonrpc: "2.0".to_owned(),
        result: json("{}"),
    });
    assert_eq!(message_text(&response), "{\"id\":-4,\"jsonrpc\":\"2.0\",\"result\":{}}");
    let failed = JSONRPCMessage::Error(JSONRPCError {
        error: JSONRPCErrorError { code: 3, message: "m".to_owned(), data: None },
        id: RequestId::Integer(1),
        jsonrpc: "2.0".to_owned(),
    });
    assert_eq!(
        write_message(&failed),
        json("{\"error\": {\"code\": 3, \"message\": \"m\"}, \"id\": 1, \"jsonrpc\": \"2.0\"}")
    );
}

#[test]
fn messages_read_back() {
    let texts = vec![
        "{\"id\":\"a\",\"jsonrpc\":\"2.0\",\"method\":\"m\",\"params\":{\"x\":[1,-2]}}",
        "{\"jsonrpc\":\"2.0\",\"method\":\"m\"}",
        "{\"id\":5,\"jsonrpc\":\"2.0\",\"result\":\"line\\nbreak\"}",
        "{\"error\":{\"code\":1,\"data\":\"d\",\"message\":\"m\"},\"id\":1,\"jsonrpc\":\"2.0\"}",
    ];
    for text in texts {
        assert_eq!(rewritten(text), text);
        assert_eq!(rewritten(&rewritten(text)), text);
    }
}

#[test]
fn null_parameters_are_lost() {
    let request = JSONRPCMessage::Request(JSONRPCRequest {
        id: RequestId::Integer(1),
        jsonrpc: "2.0".to_owned(),
        method: "m".to_owned(),
        params: Some(Value::Null),
    });
    let text = message_text(&request);
    assert_eq!(text, "{\"id\":1,\"jsonrpc\":\"2.0\",\"method\":\"m\",\"params\":null}");
    match parse_message(&text) {
        Some(JSONRPCMessage::Request(read)) => assert_eq!(read.params, None),
        _ => panic!("no request"),
    }
}

#[test]
fn identifier_is_copied() {
    match RequestId::String("k".to_owned()).copy() {
        RequestId::String(text) => assert_eq!(text, "k"),
        RequestId::Integer(_) => panic!("a number"),
    }
    assert!(matches!(RequestId::Integer(3).copy(), RequestId::Integer(3)));
}

#[test]
fn server_understands_what_a_client_sends() {
    let mut client: StreamableHttpClient<u8> =
        match StreamableHttpClient::new("http://h/", None) {
            Ok(client) => client,
            Err(error) => panic!("{}", error.message()),
        };
    let (exchange, request) = client.list_tools(Some(json("{\"cursor\": \"c\"}")), 0);
    match read_message(&request.body) {
        Some(JSONRPCMessage::Request(read)) => {
            match read.id {
                RequestId::String(text) => assert_eq!(text, exchange.id),
                RequestId::Integer(_) => panic!("a number"),
            }
            assert_eq!(read.method, "tools/list");
            assert_eq!(read.params, Some(json("{\"cursor\": \"c\"}")));
        }
        _ => panic!("no request"),
    }
}

#[test]
fn client_understands_what_a_server_answers() {
    let answer = JSONRPCMessage::Response(JSONRPCResponse {
        id: RequestId::Integer(12),
        jsonrpc: "2.0".to_owned(),
        result: json("{\"ok\": true}"),
    });
    match parse_json_response(write_message(&answer), "12") {
        Ok(response) => assert_eq!(response.result, json("{\"ok\": true}")),
        Err(error) => panic!("{}", error.message()),
    }
    let failed = JSONRPCMessage::Error(JSONRPCError {
        error: JSONRPCErrorError { code: -7, message: "broken".to_owned(), data: None },
        id: RequestId::Integer(12),
        jsonrpc: "2.0".to_owned(),
    });
    match parse_json_response(write_message(&failed), "12") {
        Ok(_) => panic!("succeeded"),
        Err(error) => assert_eq!(error.message(), "MCP error -7: broken"),
    }
}

#[test]
fn message_reads_back_up_to_the_nesting_of_the_parser() {
    let nested = |depth: usize| {
        JSONRPCMessage::Response(JSONRPCResponse {
            id: RequestId::Integer(1),
            jsonrpc: "2.0".to_owned(),
            result: json(&format!("{}{}", "[".repeat(depth), "]".repeat(depth))),
        })
    };
    assert!(parse_message(&message_text(&nested(126))).is_some());
    assert!(parse_message(&message_text(&nested(127))).is_none());
}

#[test]
fn key_that_the_parser_keeps_for_itself_is_not_read_back() {
    let text = "{\"$serde_json::private::RawValue\":\"[1]\"}";
    assert_eq!(json(text), json("[1]"));
    let answer = format!("{{\"id\":1,\"result\":{}}}", text);
    match parse_message(&answer) {
        Some(JSONRPCMessage::Response(response)) => assert_eq!(response.result, json("[1]")),
        _ => panic!("no response"),
    }
}
