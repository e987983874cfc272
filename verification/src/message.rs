//! JSON-RPC messages and their JSON form.
use vstd::prelude::*;

use serde_json::Value;

use crate::json::{as_i64, as_str, copy, get, integer, is_null, object, parse, print, string};
use crate::json::{
    i64_of, json_text, lemma_object_of_push, member, model, object_of, parsed, plain_to_depth,
    str_of, JsonModel, NumberModel,
};
use crate::pending::Key;
use crate::text::same_text;

verus! {

/// Protocol version that every message names.
pub const JSONRPC_VERSION: &'static str = "2.0";

/// The identifier of a request.
#[derive(Debug)]
pub enum RequestId {
    String(String),
    Integer(i64),
}

/// What a [`RequestId`] stands for.
pub enum IdModel {
    Text(Seq<char>),
    Integer(i64),
}

impl View for RequestId {
    type V = IdModel;

    open spec fn view(&self) -> IdModel {
        match self {
            RequestId::String(text) => IdModel::Text(text@),
            RequestId::Integer(n) => IdModel::Integer(*n),
        }
    }
}

impl Key for RequestId {
    fn same(&self, other: &Self) -> (r: bool) {
        match (self, other) {
            (RequestId::String(a), RequestId::String(b)) => same_text(a.as_str(), b.as_str()),
            (RequestId::Integer(a), RequestId::Integer(b)) => *a == *b,
            _ => false,
        }
    }
}

impl RequestId {
    /// The same identifier once more.
    pub fn copy(&self) -> (r: RequestId)
        ensures
            r@ == self@,
    {
        match self {
            RequestId::String(text) => RequestId::String(text.clone()),
            RequestId::Integer(n) => RequestId::Integer(*n),
        }
    }
}

/// A message that wants an answer.
pub struct JSONRPCRequest {
    pub id: RequestId,
    pub jsonrpc: String,
    pub method: String,
    pub params: Option<Value>,
}

/// A message that wants no answer.
pub struct JSONRPCNotification {
    pub jsonrpc: String,
    pub method: String,
    pub params: Option<Value>,
}

/// The successful answer to a request.
pub struct JSONRPCResponse {
    pub id: RequestId,
    pub jsonrpc: String,
    pub result: Value,
}

/// What went wrong with a request.
pub struct JSONRPCErrorError {
    pub code: i64,
    pub message: String,
    pub data: Option<Value>,
}

/// The answer to a request that failed.
pub struct JSONRPCError {
    pub error: JSONRPCErrorError,
    pub id: RequestId,
    pub jsonrpc: String,
}

/// A JSON-RPC message.
pub enum JSONRPCMessage {
    Request(JSONRPCRequest),
    Notification(JSONRPCNotification),
    Response(JSONRPCResponse),
    Error(JSONRPCError),
}

/// What a [`JSONRPCMessage`] stands for.
#[verifier::ext_equal]
pub enum MessageModel {
    Request {
        id: IdModel,
        jsonrpc: Seq<char>,
        method: Seq<char>,
        params: Option<JsonModel>,
    },
    Notification { jsonrpc: Seq<char>, method: Seq<char>, params: Option<JsonModel> },
    Response { id: IdModel, jsonrpc: Seq<char>, result: JsonModel },
    Error {
        id: IdModel,
        jsonrpc: Seq<char>,
        code: i64,
        message: Seq<char>,
        data: Option<JsonModel>,
    },
}

/// The value of an optional member.
pub open spec fn optional_model(value: Option<Value>) -> Option<JsonModel> {
    match value {
        Some(v) => Some(model(v)),
        None => None,
    }
}

impl View for JSONRPCMessage {
    type V = MessageModel;

    open spec fn view(&self) -> MessageModel {
        match self {
            JSONRPCMessage::Request(r) => MessageModel::Request {
                id: r.id@,
                jsonrpc: r.jsonrpc@,
                method: r.method@,
                params: optional_model(r.params),
            },
            JSONRPCMessage::Notification(n) => MessageModel::Notification {
                jsonrpc: n.jsonrpc@,
                method: n.method@,
                params: optional_model(n.params),
            },
            JSONRPCMessage::Response(r) => MessageModel::Response {
                id: r.id@,
                jsonrpc: r.jsonrpc@,
                result: model(r.result),
            },
            JSONRPCMessage::Error(e) => MessageModel::Error {
                id: e.id@,
                jsonrpc: e.jsonrpc@,
                code: e.error.code,
                message: e.error.message@,
                data: optional_model(e.error.data),
            },
        }
    }
}

/// The protocol version that a message names; the current one where it names none, nothing where
/// what it names is not text.
pub open spec fn version_of(m: JsonModel) -> Option<Seq<char>> {
    match member(m, "jsonrpc"@) {
        Some(version) => str_of(version),
        None => Some(JSONRPC_VERSION@),
    }
}

/// The identifier that a JSON value is: a string, or an integer of 64 signed bits.
pub open spec fn id_of(m: JsonModel) -> Option<IdModel> {
    match str_of(m) {
        Some(text) => Some(IdModel::Text(text)),
        None => match i64_of(m) {
            Some(n) => Some(IdModel::Integer(n)),
            None => None,
        },
    }
}

/// The identifier that a message carries.
pub open spec fn message_id_of(m: JsonModel) -> Option<IdModel> {
    match member(m, "id"@) {
        Some(id) => id_of(id),
        None => None,
    }
}

/// The text member of an object that stands under `key`.
pub open spec fn text_member(m: JsonModel, key: Seq<char>) -> Option<Seq<char>> {
    match member(m, key) {
        Some(value) => str_of(value),
        None => None,
    }
}

/// An optional member; `null` counts as absent.
pub open spec fn optional_member(m: JsonModel, key: Seq<char>) -> Option<JsonModel> {
    match member(m, key) {
        Some(JsonModel::Null) => None,
        other => other,
    }
}

/// The error code of an error object.
pub open spec fn code_of(error: JsonModel) -> Option<i64> {
    match member(error, "code"@) {
        Some(code) => i64_of(code),
        None => None,
    }
}

/// The error answer that a JSON value is: it carries an identifier and an error with a code and a
/// message.
pub open spec fn error_answer(m: JsonModel, jsonrpc: Seq<char>, id: IdModel) -> Option<
    MessageModel,
> {
    match member(m, "error"@) {
        Some(error) => match (code_of(error), text_member(error, "message"@)) {
            (Some(code), Some(message)) => Some(
                MessageModel::Error {
                    id,
                    jsonrpc,
                    code,
                    message,
                    data: optional_member(error, "data"@),
                },
            ),
            _ => None,
        },
        None => None,
    }
}

/// The message that a JSON value is. One with a method is a request where it carries an
/// identifier, else a notification; one without is an answer by its result, else by its error.
pub open spec fn message_of(m: JsonModel) -> Option<MessageModel> {
    match version_of(m) {
        None => None,
        Some(jsonrpc) => match (text_member(m, "method"@), message_id_of(m)) {
            (Some(method), Some(id)) => Some(
                MessageModel::Request { id, jsonrpc, method, params: optional_member(m, "params"@) },
            ),
            (Some(method), None) => Some(
                MessageModel::Notification { jsonrpc, method, params: optional_member(m, "params"@) },
            ),
            (None, Some(id)) => match member(m, "result"@) {
                Some(result) => Some(MessageModel::Response { id, jsonrpc, result }),
                None => error_answer(m, jsonrpc, id),
            },
            (None, None) => None,
        },
    }
}

/// The message that a text is.
pub open spec fn message_in_text(text: Seq<char>) -> Option<MessageModel> {
    match parsed(text) {
        Some(m) => message_of(m),
        None => None,
    }
}

/// The JSON form of an identifier.
pub open spec fn id_json(id: IdModel) -> JsonModel {
    match id {
        IdModel::Text(text) => JsonModel::Str(text),
        IdModel::Integer(n) => JsonModel::Number(NumberModel::Int(n as int)),
    }
}

/// `map` with the optional member under `key`.
pub open spec fn with_optional(
    map: Map<Seq<char>, JsonModel>,
    key: Seq<char>,
    value: Option<JsonModel>,
) -> Map<Seq<char>, JsonModel> {
    match value {
        Some(v) => map.insert(key, v),
        None => map,
    }
}

/// The JSON form of a message.
pub open spec fn message_json(message: MessageModel) -> JsonModel {
    let empty = Map::<Seq<char>, JsonModel>::empty();
    JsonModel::Object(
        match message {
            MessageModel::Request { id, jsonrpc, method, params } => with_optional(
                empty.insert("id"@, id_json(id)).insert("jsonrpc"@, JsonModel::Str(jsonrpc)).insert(
                    "method"@,
                    JsonModel::Str(method),
                ),
                "params"@,
                params,
            ),
            MessageModel::Notification { jsonrpc, method, params } => with_optional(
                empty.insert("jsonrpc"@, JsonModel::Str(jsonrpc)).insert(
                    "method"@,
                    JsonModel::Str(method),
                ),
                "params"@,
                params,
            ),
            MessageModel::Response { id, jsonrpc, result } => empty.insert(
                "id"@,
                id_json(id),
            ).insert("jsonrpc"@, JsonModel::Str(jsonrpc)).insert("result"@, result),
            MessageModel::Error { id, jsonrpc, code, message, data } => empty.insert(
                "error"@,
                JsonModel::Object(
                    with_optional(
                        empty.insert(
                            "code"@,
                            JsonModel::Number(NumberModel::Int(code as int)),
                        ).insert("message"@, JsonModel::Str(message)),
                        "data"@,
                        data,
                    ),
                ),
            ).insert("id"@, id_json(id)).insert("jsonrpc"@, JsonModel::Str(jsonrpc)),
        },
    )
}

/// The message has no optional member that is `null`; such a member is read as absent.
pub open spec fn no_null_member(message: MessageModel) -> bool {
    match message {
        MessageModel::Request { params, .. } => params != Some(JsonModel::Null),
        MessageModel::Notification { params, .. } => params != Some(JsonModel::Null),
        MessageModel::Response { .. } => true,
        MessageModel::Error { data, .. } => data != Some(JsonModel::Null),
    }
}

pub(crate) proof fn lemma_member_names()
    ensures
        "id"@ != "jsonrpc"@,
        "id"@ != "method"@,
        "id"@ != "params"@,
        "id"@ != "result"@,
        "id"@ != "error"@,
        "jsonrpc"@ != "method"@,
        "jsonrpc"@ != "params"@,
        "jsonrpc"@ != "result"@,
        "jsonrpc"@ != "error"@,
        "method"@ != "params"@,
        "method"@ != "result"@,
        "method"@ != "error"@,
        "params"@ != "result"@,
        "params"@ != "error"@,
        "result"@ != "error"@,
        "code"@ != "message"@,
        "code"@ != "data"@,
        "message"@ != "data"@,
{
    reveal_strlit("id");
    reveal_strlit("jsonrpc");
    reveal_strlit("method");
    reveal_strlit("params");
    reveal_strlit("result");
    reveal_strlit("error");
    reveal_strlit("code");
    reveal_strlit("message");
    reveal_strlit("data");
    assert("id"@.len() == 2);
    assert("jsonrpc"@.len() == 7);
    assert("method"@.len() == 6);
    assert("params"@.len() == 6);
    assert("result"@.len() == 6);
    assert("error"@.len() == 5);
    assert("code"@.len() == 4);
    assert("message"@.len() == 7);
    assert("data"@.len() == 4);
    assert("method"@[0] != "params"@[0]);
    assert("method"@[0] != "result"@[0]);
    assert("params"@[0] != "result"@[0]);
    assert("code"@[0] != "data"@[0]);
}

/// A message is read back from its JSON form. A member that is present and `null` is the one
/// thing that is lost.
pub proof fn law_message_reads_back(message: MessageModel)
    requires
        no_null_member(message),
    ensures
        message_of(message_json(message)) == Some(message),
{
    lemma_member_names();
}

/// The protocol version that a message names.
fn read_version(value: &Value) -> (r: Option<String>)
    ensures
        match r {
            Some(version) => version_of(model(*value)) == Some(version@),
            None => version_of(model(*value)) is None,
        },
{
    match get(value, "jsonrpc") {
        Some(version) => match as_str(version) {
            Some(text) => Some(text.to_owned()),
            None => None,
        },
        None => Some(JSONRPC_VERSION.to_owned()),
    }
}

/// The identifier that a message carries.
fn read_id(value: &Value) -> (r: Option<RequestId>)
    ensures
        match r {
            Some(id) => message_id_of(model(*value)) == Some(id@),
            None => message_id_of(model(*value)) is None,
        },
{
    match get(value, "id") {
        Some(id) => match as_str(id) {
            Some(text) => Some(RequestId::String(text.to_owned())),
            None => match as_i64(id) {
                Some(n) => Some(RequestId::Integer(n)),
                None => None,
            },
        },
        None => None,
    }
}

/// The text member of an object that stands under `key`.
fn read_text(value: &Value, key: &str) -> (r: Option<String>)
    ensures
        match r {
            Some(text) => text_member(model(*value), key@) == Some(text@),
            None => text_member(model(*value), key@) is None,
        },
{
    match get(value, key) {
        Some(found) => match as_str(found) {
            Some(text) => Some(text.to_owned()),
            None => None,
        },
        None => None,
    }
}

/// An optional member of an object.
fn read_optional(value: &Value, key: &str) -> (r: Option<Value>)
    ensures
        optional_model(r) == optional_member(model(*value), key@),
{
    match get(value, key) {
        Some(found) => if is_null(found) {
            None
        } else {
            Some(copy(found))
        },
        None => None,
    }
}

/// The error answer that a JSON value is.
fn read_error(value: &Value, jsonrpc: String, id: RequestId) -> (r: Option<JSONRPCMessage>)
    ensures
        match r {
            Some(message) => error_answer(model(*value), jsonrpc@, id@) == Some(message@),
            None => error_answer(model(*value), jsonrpc@, id@) is None,
        },
{
    let error: &Value = match get(value, "error") {
        Some(error) => error,
        None => {
            return None;
        },
    };
    let code: i64 = match get(error, "code") {
        Some(found) => match as_i64(found) {
            Some(n) => n,
            None => {
                return None;
            },
        },
        None => {
            return None;
        },
    };
    match read_text(error, "message") {
        Some(message) => {
            let data = read_optional(error, "data");
            Some(
                JSONRPCMessage::Error(
                    JSONRPCError { error: JSONRPCErrorError { code, message, data }, id, jsonrpc },
                ),
            )
        },
        None => None,
    }
}

/// The message that a JSON value is.
pub fn read_message(value: &Value) -> (r: Option<JSONRPCMessage>)
    ensures
        match r {
            Some(message) => message_of(model(*value)) == Some(message@),
            None => message_of(model(*value)) is None,
        },
{
    let jsonrpc: String = match read_version(value) {
        Some(version) => version,
        None => {
            return None;
        },
    };
    match (read_text(value, "method"), read_id(value)) {
        (Some(method), Some(id)) => Some(
            JSONRPCMessage::Request(
                JSONRPCRequest { id, jsonrpc, method, params: read_optional(value, "params") },
            ),
        ),
        (Some(method), None) => Some(
            JSONRPCMessage::Notification(
                JSONRPCNotification { jsonrpc, method, params: read_optional(value, "params") },
            ),
        ),
        (None, Some(id)) => match get(value, "result") {
            Some(result) => Some(
                JSONRPCMessage::Response(JSONRPCResponse { id, jsonrpc, result: copy(result) }),
            ),
            None => read_error(value, jsonrpc, id),
        },
        (None, None) => None,
    }
}

/// The message that a text is.
pub fn parse_message(text: &str) -> (r: Option<JSONRPCMessage>)
    ensures
        match r {
            Some(message) => message_in_text(text@) == Some(message@),
            None => message_in_text(text@) is None,
        },
{
    match parse(text) {
        Ok(value) => read_message(&value),
        Err(_) => None,
    }
}

/// The JSON form of an identifier.
fn write_id(id: &RequestId) -> (r: Value)
    ensures
        model(r) == id_json(id@),
{
    match id {
        RequestId::String(text) => string(text.clone()),
        RequestId::Integer(n) => integer(*n),
    }
}

/// The JSON form of a message.
pub fn write_message(message: &JSONRPCMessage) -> (r: Value)
    ensures
        model(r) == message_json(message@),
{
    broadcast use lemma_object_of_push;

    let mut entries: Vec<(String, Value)> = Vec::new();
    assert(object_of(entries@) == Map::<Seq<char>, JsonModel>::empty());
    match message {
        JSONRPCMessage::Request(request) => {
            entries.push(("id".to_owned(), write_id(&request.id)));
            entries.push(("jsonrpc".to_owned(), string(request.jsonrpc.clone())));
            entries.push(("method".to_owned(), string(request.method.clone())));
            match &request.params {
                Some(params) => {
                    entries.push(("params".to_owned(), copy(params)));
                },
                None => {},
            }
        },
        JSONRPCMessage::Notification(notification) => {
            entries.push(("jsonrpc".to_owned(), string(notification.jsonrpc.clone())));
            entries.push(("method".to_owned(), string(notification.method.clone())));
            match &notification.params {
                Some(params) => {
                    entries.push(("params".to_owned(), copy(params)));
                },
                None => {},
            }
        },
        JSONRPCMessage::Response(response) => {
            entries.push(("id".to_owned(), write_id(&response.id)));
            entries.push(("jsonrpc".to_owned(), string(response.jsonrpc.clone())));
            entries.push(("result".to_owned(), copy(&response.result)));
        },
        JSONRPCMessage::Error(failed) => {
            let mut error: Vec<(String, Value)> = Vec::new();
            assert(object_of(error@) == Map::<Seq<char>, JsonModel>::empty());
            error.push(("code".to_owned(), integer(failed.error.code)));
            error.push(("message".to_owned(), string(failed.error.message.clone())));
            match &failed.error.data {
                Some(data) => {
                    error.push(("data".to_owned(), copy(data)));
                },
                None => {},
            }
            entries.push(("error".to_owned(), object(error)));
            entries.push(("id".to_owned(), write_id(&failed.id)));
            entries.push(("jsonrpc".to_owned(), string(failed.jsonrpc.clone())));
        },
    }
    object(entries)
}

/// The compact text of a message. It is one line, and where the message holds no floating-point
/// number and no key that `serde_json` keeps for itself, and nests no deeper than a parser accepts,
/// its JSON form is read back from it, and so is the message unless it has a `null` member.
pub fn message_text(message: &JSONRPCMessage) -> (r: String)
    ensures
        r@ == json_text(message_json(message@)),
        one_line(r@),
        plain_to_depth(message_json(message@), 127) ==> parsed(r@) == Some(message_json(message@)),
        no_null_member(message@) && plain_to_depth(message_json(message@), 127)
            ==> message_in_text(r@) == Some(message@),
{
    let value = write_message(message);
    proof {
        if no_null_member(message@) {
            law_message_reads_back(message@);
        }
    }
    print(&value)
}

/// The text holds no control character, in particular no line break.
pub open spec fn one_line(text: Seq<char>) -> bool {
    forall|i: int| 0 <= i < text.len() ==> #[trigger] text[i] >= ' '
}

/// An object that holds a protocol version other than text is no message, and neither is anything
/// but an object.
pub proof fn law_other_values_are_no_messages(map: Map<Seq<char>, JsonModel>, other: JsonModel)
    requires
        map.dom().contains("jsonrpc"@),
        !(map["jsonrpc"@] is Str),
        !(other is Object),
    ensures
        message_of(JsonModel::Object(map)) is None,
        message_of(other) is None,
{
}

/// The protocol version that an object of members names: the text that stands there, and 2.0 where
/// nothing stands there.
pub proof fn law_version(map: Map<Seq<char>, JsonModel>, text: Seq<char>)
    ensures
        version_of(JsonModel::Object(map.insert("jsonrpc"@, JsonModel::Str(text)))) == Some(text),
        version_of(JsonModel::Object(map.remove("jsonrpc"@))) == Some("2.0"@),
{
}

/// Which values are identifiers: texts, and integers of 64 signed bits.
pub proof fn law_identifiers(text: Seq<char>, n: int, value: JsonModel)
    ensures
        id_of(JsonModel::Str(text)) == Some(IdModel::Text(text)),
        id_json(IdModel::Text(text)) == JsonModel::Str(text),
        i64::MIN <= n <= i64::MAX ==> {
            &&& id_of(JsonModel::Number(NumberModel::Int(n))) == Some(IdModel::Integer(n as i64))
            &&& id_json(IdModel::Integer(n as i64)) == JsonModel::Number(NumberModel::Int(n))
        },
        !(i64::MIN <= n <= i64::MAX) ==> id_of(JsonModel::Number(NumberModel::Int(n))) is None,
        id_of(JsonModel::Number(NumberModel::Float(text))) is None,
        !(value is Str) && !(value is Number) ==> id_of(value) is None,
{
}

/// An object with a method and an identifier is a request with exactly these parts, whatever else
/// it holds. Parameters that are `null` count as absent.
pub proof fn law_request_is_read(
    map: Map<Seq<char>, JsonModel>,
    jsonrpc: Seq<char>,
    method: Seq<char>,
    id: IdModel,
)
    requires
        if map.dom().contains("jsonrpc"@) {
            map["jsonrpc"@] == JsonModel::Str(jsonrpc)
        } else {
            jsonrpc == "2.0"@
        },
        map.dom().contains("method"@),
        map["method"@] == JsonModel::Str(method),
        map.dom().contains("id"@),
        map["id"@] == (match id {
            IdModel::Text(text) => JsonModel::Str(text),
            IdModel::Integer(n) => JsonModel::Number(NumberModel::Int(n as int)),
        }),
    ensures
        message_of(JsonModel::Object(map)) == Some(
            MessageModel::Request {
                id,
                jsonrpc,
                method,
                params: if map.dom().contains("params"@) && map["params"@] != JsonModel::Null {
                    Some(map["params"@])
                } else {
                    None
                },
            },
        ),
{
}

/// An object with a method and without a text or an integer of 64 signed bits as its identifier is
/// a notification with exactly these parts, whatever else it holds.
pub proof fn law_notification_is_read(
    map: Map<Seq<char>, JsonModel>,
    jsonrpc: Seq<char>,
    method: Seq<char>,
)
    requires
        if map.dom().contains("jsonrpc"@) {
            map["jsonrpc"@] == JsonModel::Str(jsonrpc)
        } else {
            jsonrpc == "2.0"@
        },
        map.dom().contains("method"@),
        map["method"@] == JsonModel::Str(method),
        !map.dom().contains("id"@) || match map["id"@] {
            JsonModel::Str(_) => false,
            JsonModel::Number(NumberModel::Int(n)) => !(i64::MIN <= n <= i64::MAX),
            _ => true,
        },
    ensures
        message_of(JsonModel::Object(map)) == Some(
            MessageModel::Notification {
                jsonrpc,
                method,
                params: if map.dom().contains("params"@) && map["params"@] != JsonModel::Null {
                    Some(map["params"@])
                } else {
                    None
                },
            },
        ),
{
}

/// An object without a text as its method, with an identifier and a result, is a response with
/// exactly that result, whatever else it holds.
pub proof fn law_response_is_read(
    map: Map<Seq<char>, JsonModel>,
    jsonrpc: Seq<char>,
    id: IdModel,
    result: JsonModel,
)
    requires
        if map.dom().contains("jsonrpc"@) {
            map["jsonrpc"@] == JsonModel::Str(jsonrpc)
        } else {
            jsonrpc == "2.0"@
        },
        !map.dom().contains("method"@) || !(map["method"@] is Str),
        map.dom().contains("id"@),
        map["id"@] == (match id {
            IdModel::Text(text) => JsonModel::Str(text),
            IdModel::Integer(n) => JsonModel::Number(NumberModel::Int(n as int)),
        }),
        map.dom().contains("result"@),
        map["result"@] == result,
    ensures
        message_of(JsonModel::Object(map)) == Some(
            MessageModel::Response { id, jsonrpc, result },
        ),
{
}

/// An object without a text as its method and without a result, with an identifier and an error
/// that has a code and a message, is an error answer with exactly these; where the code or the
/// message is missing it is no message at all.
pub proof fn law_error_is_read(
    map: Map<Seq<char>, JsonModel>,
    jsonrpc: Seq<char>,
    id: IdModel,
    error: Map<Seq<char>, JsonModel>,
)
    requires
        if map.dom().contains("jsonrpc"@) {
            map["jsonrpc"@] == JsonModel::Str(jsonrpc)
        } else {
            jsonrpc == "2.0"@
        },
        !map.dom().contains("method"@) || !(map["method"@] is Str),
        !map.dom().contains("result"@),
        map.dom().contains("id"@),
        map["id"@] == (match id {
            IdModel::Text(text) => JsonModel::Str(text),
            IdModel::Integer(n) => JsonModel::Number(NumberModel::Int(n as int)),
        }),
        map.dom().contains("error"@),
        map["error"@] == JsonModel::Object(error),
    ensures
        ({
            let found = message_of(JsonModel::Object(map));
            let coded = error.dom().contains("code"@) && match error["code"@] {
                JsonModel::Number(NumberModel::Int(n)) => i64::MIN <= n <= i64::MAX,
                _ => false,
            };
            let told = error.dom().contains("message"@) && error["message"@] is Str;
            &&& coded && told <==> found is Some
            &&& coded && told ==> found == Some(
                MessageModel::Error {
                    id,
                    jsonrpc,
                    code: error["code"@]->Number_0->Int_0 as i64,
                    message: error["message"@]->Str_0,
                    data: if error.dom().contains("data"@) && error["data"@] != JsonModel::Null {
                        Some(error["data"@])
                    } else {
                        None
                    },
                },
            )
        }),
{
}

/// An object without a text as its method is no message where it has no identifier, and none where
/// it has neither a result nor an object as its error.
pub proof fn law_incomplete_answer_is_no_message(map: Map<Seq<char>, JsonModel>)
    requires
        !map.dom().contains("method"@) || !(map["method"@] is Str),
        ({
            ||| !map.dom().contains("id"@)
            ||| !(map["id"@] is Str) && !(map["id"@] is Number)
            ||| map["id"@] matches JsonModel::Number(NumberModel::Float(_))
            ||| map["id"@] matches JsonModel::Number(NumberModel::Int(n)) && !(i64::MIN <= n
                <= i64::MAX)
            ||| !map.dom().contains("result"@) && (!map.dom().contains("error"@) || !(
            map["error"@] is Object))
        }),
    ensures
        message_of(JsonModel::Object(map)) is None,
{
}

/// A text is a message exactly where it is the JSON text of one.
pub proof fn law_text_is_the_message_of_its_value(text: Seq<char>)
    ensures
        parsed(text) matches Some(value) ==> message_in_text(text) == message_of(value),
        parsed(text) is None ==> message_in_text(text) is None,
{
}

/// The JSON form of a request or a notification has its parts as members and no others.
pub proof fn law_call_is_written(
    id: IdModel,
    jsonrpc: Seq<char>,
    method: Seq<char>,
    params: JsonModel,
)
    ensures
        message_json(MessageModel::Request { id, jsonrpc, method, params: None })
            == JsonModel::Object(
            map![
                "jsonrpc"@ => JsonModel::Str(jsonrpc),
                "id"@ => id_json(id),
                "method"@ => JsonModel::Str(method),
            ],
        ),
        message_json(MessageModel::Request { id, jsonrpc, method, params: Some(params) })
            == JsonModel::Object(
            map![
                "jsonrpc"@ => JsonModel::Str(jsonrpc),
                "id"@ => id_json(id),
                "method"@ => JsonModel::Str(method),
                "params"@ => params,
            ],
        ),
        message_json(MessageModel::Notification { jsonrpc, method, params: None })
            == JsonModel::Object(
            map!["jsonrpc"@ => JsonModel::Str(jsonrpc), "method"@ => JsonModel::Str(method)],
        ),
        message_json(MessageModel::Notification { jsonrpc, method, params: Some(params) })
            == JsonModel::Object(
            map![
                "jsonrpc"@ => JsonModel::Str(jsonrpc),
                "method"@ => JsonModel::Str(method),
                "params"@ => params,
            ],
        ),
{
    lemma_member_names();
    let bare = map![
        "jsonrpc"@ => JsonModel::Str(jsonrpc),
        "id"@ => id_json(id),
        "method"@ => JsonModel::Str(method),
    ];
    assert(message_json(
        MessageModel::Request { id, jsonrpc, method, params: None },
    )->Object_0 =~= bare);
    assert(message_json(
        MessageModel::Request { id, jsonrpc, method, params: Some(params) },
    )->Object_0 =~= bare.insert("params"@, params));
}

/// The JSON form of a response or an error has its parts as members and no others.
pub proof fn law_answer_is_written(
    id: IdModel,
    jsonrpc: Seq<char>,
    result: JsonModel,
    code: i64,
    message: Seq<char>,
    data: JsonModel,
)
    ensures
        message_json(MessageModel::Response { id, jsonrpc, result }) == JsonModel::Object(
            map![
                "jsonrpc"@ => JsonModel::Str(jsonrpc),
                "id"@ => id_json(id),
                "result"@ => result,
            ],
        ),
        message_json(MessageModel::Error { id, jsonrpc, code, message, data: None })
            == JsonModel::Object(
            map![
                "jsonrpc"@ => JsonModel::Str(jsonrpc),
                "id"@ => id_json(id),
                "error"@ => JsonModel::Object(
                    map![
                        "message"@ => JsonModel::Str(message),
                        "code"@ => JsonModel::Number(NumberModel::Int(code as int)),
                    ],
                ),
            ],
        ),
        message_json(MessageModel::Error { id, jsonrpc, code, message, data: Some(data) })
            == JsonModel::Object(
            map![
                "jsonrpc"@ => JsonModel::Str(jsonrpc),
                "id"@ => id_json(id),
                "error"@ => JsonModel::Object(
                    map![
                        "data"@ => data,
                        "message"@ => JsonModel::Str(message),
                        "code"@ => JsonModel::Number(NumberModel::Int(code as int)),
                    ],
                ),
            ],
        ),
{
    lemma_member_names();
    assert(message_json(MessageModel::Response { id, jsonrpc, result })->Object_0 =~= map![
        "jsonrpc"@ => JsonModel::Str(jsonrpc),
        "id"@ => id_json(id),
        "result"@ => result,
    ]);
    let short = map![
        "message"@ => JsonModel::Str(message),
        "code"@ => JsonModel::Number(NumberModel::Int(code as int)),
    ];
    let long = map![
        "data"@ => data,
        "message"@ => JsonModel::Str(message),
        "code"@ => JsonModel::Number(NumberModel::Int(code as int)),
    ];
    let failed = message_json(MessageModel::Error { id, jsonrpc, code, message, data: None });
    assert(failed->Object_0["error"@]->Object_0 =~= short);
    assert(failed->Object_0 =~= map![
        "jsonrpc"@ => JsonModel::Str(jsonrpc),
        "id"@ => id_json(id),
        "error"@ => JsonModel::Object(short),
    ]);
    let full = message_json(MessageModel::Error { id, jsonrpc, code, message, data: Some(data) });
    assert(full->Object_0["error"@]->Object_0 =~= long);
    assert(full->Object_0 =~= map![
        "jsonrpc"@ => JsonModel::Str(jsonrpc),
        "id"@ => id_json(id),
        "error"@ => JsonModel::Object(long),
    ]);
}

/// A message stands for its parts, each for itself.
pub proof fn law_message_stands_for_its_parts(
    request: JSONRPCRequest,
    notification: JSONRPCNotification,
    response: JSONRPCResponse,
    failed: JSONRPCError,
)
    ensures
        (JSONRPCMessage::Request(request))@ == (MessageModel::Request {
            id: request.id@,
            jsonrpc: request.jsonrpc@,
            method: request.method@,
            params: optional_model(request.params),
        }),
        (JSONRPCMessage::Notification(notification))@ == (MessageModel::Notification {
            jsonrpc: notification.jsonrpc@,
            method: notification.method@,
            params: optional_model(notification.params),
        }),
        (JSONRPCMessage::Response(response))@ == (MessageModel::Response {
            id: response.id@,
            jsonrpc: response.jsonrpc@,
            result: model(response.result),
        }),
        (JSONRPCMessage::Error(failed))@ == (MessageModel::Error {
            id: failed.id@,
            jsonrpc: failed.jsonrpc@,
            code: failed.error.code,
            message: failed.error.message@,
            data: optional_model(failed.error.data),
        }),
{
}

/// An identifier stands for its text or its number, and an optional value for what it holds.
pub proof fn law_identifier_stands_for_itself(text: String, n: i64, value: Value)
    ensures
        (RequestId::String(text))@ == IdModel::Text(text@),
        (RequestId::Integer(n))@ == IdModel::Integer(n),
        optional_model(Some(value)) == Some(model(value)),
        optional_model(None) is None,
{
}

/// Only `null` parameters and `null` error data are lost when a message is read back.
pub proof fn law_what_is_lost(message: MessageModel)
    ensures
        !no_null_member(message) <==> {
            ||| message matches MessageModel::Request { params, .. } && params == Some(
                JsonModel::Null,
            )
            ||| message matches MessageModel::Notification { params, .. } && params == Some(
                JsonModel::Null,
            )
            ||| message matches MessageModel::Error { data, .. } && data == Some(JsonModel::Null)
        },
{
}

} // verus!
