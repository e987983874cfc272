//! A small server with one tool, which echoes a message. It answers every request with an event
//! stream of one event.
use vstd::prelude::*;
use vstd::utf8::encode_utf8;

use axum::http::HeaderValue;
use serde_json::Value;

use crate::client::error::Failure;
use crate::client::reply::{id_text, json_reply, optional_text, verdict, EventModel, Verdict};
use crate::http::{
    fits_header, header_byte, header_text, header_value, optional_header_text, random_uuid,
    uuid_v4_text, visible_byte, BAD_REQUEST, EVENT_STREAM, INTERNAL_SERVER_ERROR, NOT_ACCEPTABLE,
    OK, UNAUTHORIZED,
};
use crate::json::{
    array, as_str, boolean, copy, get, json_text, lemma_object_of_push, member, model, models,
    null, object, object_of, parsed, plain_to_depth, print, str_of, string, JsonModel,
};
use crate::message::{lemma_member_names, one_line, JSONRPC_VERSION};
use crate::server::session::{carries_session, law_fresh_session_is_recognised, lemma_uuid_is_ascii};
use crate::text::{contains_text, holds_text, same_text};

verus! {

/// Name of the tool that echoes.
pub const ECHO_TOOL: &'static str = "echo";

/// What the tool says of itself.
pub const ECHO_DESCRIPTION: &'static str =
    "Echo back the provided message and include environment data.";

/// Version of the protocol that the server speaks.
pub const PROTOCOL_VERSION: &'static str = "2025-03-26";

pub const SERVER_NAME: &'static str = "rmcp";

pub const SERVER_VERSION: &'static str = "0.7.0";

/// Address that the server binds unless it is told another.
pub const DEFAULT_BIND_ADDRESS: &'static str = "127.0.0.1:3920";

/// Caching rule of an event stream.
pub const NO_CACHE: &'static str = "no-cache";

/// Why a call is refused.
pub struct Refusal {
    pub status: u16,
    pub message: String,
}

/// What a [`Refusal`] stands for.
pub struct RefusalModel {
    pub status: u16,
    pub message: Seq<char>,
}

impl View for Refusal {
    type V = RefusalModel;

    open spec fn view(&self) -> RefusalModel {
        RefusalModel { status: self.status, message: self.message@ }
    }
}

/// The refusal of a call that is not well formed.
pub fn bad_request(message: String) -> (r: Refusal)
    ensures
        r@ == (RefusalModel { status: BAD_REQUEST, message: message@ }),
{
    Refusal { status: BAD_REQUEST, message }
}

/// The refusal of a call that the server could not carry out.
pub fn internal_error(message: String) -> (r: Refusal)
    ensures
        r@ == (RefusalModel { status: INTERNAL_SERVER_ERROR, message: message@ }),
{
    Refusal { status: INTERNAL_SERVER_ERROR, message }
}

/// A successful response.
pub struct SseReply {
    pub status: u16,
    pub content_type: String,
    pub cache_control: String,
    pub session: Option<HeaderValue>,
    pub body: String,
}

/// The reply is an event stream with the given body.
pub open spec fn is_event_stream(reply: SseReply, body: Seq<char>) -> bool {
    &&& reply.status == OK
    &&& reply.content_type@ == EVENT_STREAM@
    &&& reply.cache_control@ == NO_CACHE@
    &&& reply.body@ == body
}

/// The answer to a request.
pub open spec fn payload_model(id: JsonModel, result: JsonModel) -> JsonModel {
    JsonModel::Object(
        Map::<Seq<char>, JsonModel>::empty().insert(
            "jsonrpc"@,
            JsonModel::Str(JSONRPC_VERSION@),
        ).insert("id"@, id).insert("result"@, result),
    )
}

/// An event with the given data.
pub open spec fn event_text(data: Seq<char>) -> Seq<char> {
    "data: "@ + data + "\n\n"@
}

/// The reply answers the request `id` with `result`, as an event stream of one event of one line.
pub open spec fn answers_with(reply: SseReply, id: JsonModel, result: JsonModel) -> bool {
    let payload = payload_model(id, result);
    &&& is_event_stream(reply, event_text(json_text(payload)))
    &&& one_line(json_text(payload))
    &&& plain_to_depth(payload, 127) ==> parsed(json_text(payload)) == Some(payload)
}

/// The refusal that reports a session identifier that cannot be sent as a header.
pub open spec fn unsendable_session() -> RefusalModel {
    RefusalModel {
        status: INTERNAL_SERVER_ERROR,
        message: "invalid session id header: "@ + "failed to parse header value"@,
    }
}

/// The answer to the request `id`.
pub fn sse_response(id: &Value, result: Value) -> (r: Result<SseReply, Refusal>)
    ensures
        r matches Ok(reply) && answers_with(reply, model(*id), model(result)) && reply.session
            is None,
{
    sse_response_with_session(id, result, None)
}

/// The answer to the request `id`, with the session that it opens.
pub fn sse_response_with_session(id: &Value, result: Value, session: Option<String>) -> (r: Result<
    SseReply,
    Refusal,
>)
    ensures
        match r {
            Ok(reply) => {
                &&& answers_with(reply, model(*id), model(result))
                &&& match session {
                    Some(text) => reply.session is Some && carries_session(reply.session, text@),
                    None => reply.session is None,
                }
            },
            Err(refusal) => {
                &&& session is Some
                &&& !fits_header(session->0@)
                &&& refusal@ == unsendable_session()
            },
        },
{
    broadcast use lemma_object_of_push;

    let mut entries: Vec<(String, Value)> = Vec::new();
    assert(object_of(entries@) == Map::<Seq<char>, JsonModel>::empty());
    entries.push(("jsonrpc".to_owned(), string(JSONRPC_VERSION.to_owned())));
    entries.push(("id".to_owned(), copy(id)));
    entries.push(("result".to_owned(), result));
    let payload = object(entries);
    let body = "data: ".to_owned().concat(print(&payload).as_str()).concat("\n\n");
    let header: Option<HeaderValue> = match session {
        Some(text) => match header_value(text.as_str()) {
            Ok(value) => Some(value),
            Err(error) => {
                return Err(
                    internal_error(
                        "invalid session id header: ".to_owned().concat(error.as_str()),
                    ),
                );
            },
        },
        None => None,
    };
    Ok(
        SseReply {
            status: OK,
            content_type: EVENT_STREAM.to_owned(),
            cache_control: NO_CACHE.to_owned(),
            session: header,
            body,
        },
    )
}

/// The response to a GET: an event stream without events.
pub fn handle_get() -> (r: SseReply)
    ensures
        is_event_stream(r, Seq::empty()),
        r.session is None,
{
    SseReply {
        status: OK,
        content_type: EVENT_STREAM.to_owned(),
        cache_control: NO_CACHE.to_owned(),
        session: None,
        body: String::new(),
    }
}

/// The address to bind: the first that is given, else the second, else the default.
pub fn bind_address(first: Option<String>, second: Option<String>) -> (r: String)
    ensures
        r@ == (match (first, second) {
            (Some(address), _) => address@,
            (None, Some(address)) => address@,
            (None, None) => DEFAULT_BIND_ADDRESS@,
        }),
{
    match first {
        Some(address) => address,
        None => match second {
            Some(address) => address,
            None => DEFAULT_BIND_ADDRESS.to_owned(),
        },
    }
}

/// The form of a tool's arguments.
pub struct ToolInputSchema {
    /// The JSON type that the arguments have.
    pub kind: String,
}

/// A tool.
pub struct Tool {
    pub name: String,
    pub description: Option<String>,
    pub input_schema: ToolInputSchema,
}

/// What a [`Tool`] stands for.
pub struct ToolModel {
    pub name: Seq<char>,
    pub description: Option<Seq<char>>,
    pub kind: Seq<char>,
}

impl View for Tool {
    type V = ToolModel;

    open spec fn view(&self) -> ToolModel {
        ToolModel {
            name: self.name@,
            description: optional_text(self.description),
            kind: self.input_schema.kind@,
        }
    }
}

/// The tool that echoes.
pub open spec fn echo_tool_model() -> ToolModel {
    ToolModel {
        name: ECHO_TOOL@,
        description: Some(ECHO_DESCRIPTION@),
        kind: "object"@,
    }
}

/// The tool that echoes.
pub fn echo_tool() -> (r: Tool)
    ensures
        r@ == echo_tool_model(),
{
    Tool {
        name: ECHO_TOOL.to_owned(),
        description: Some(ECHO_DESCRIPTION.to_owned()),
        input_schema: ToolInputSchema { kind: "object".to_owned() },
    }
}

/// The object without members.
pub open spec fn no_members() -> Map<Seq<char>, JsonModel> {
    Map::empty()
}

/// The JSON form of a tool.
pub open spec fn tool_json(tool: ToolModel) -> JsonModel {
    let schema = JsonModel::Object(no_members().insert("type"@, JsonModel::Str(tool.kind)));
    let bare = no_members().insert("name"@, JsonModel::Str(tool.name)).insert(
        "inputSchema"@,
        schema,
    );
    JsonModel::Object(
        match tool.description {
            Some(text) => bare.insert("description"@, JsonModel::Str(text)),
            None => bare,
        },
    )
}

/// The tools that a sequence of tools stands for.
pub open spec fn tool_models(tools: Seq<Tool>) -> Seq<ToolModel> {
    Seq::new(tools.len(), |i: int| tools[i]@)
}

/// The result of a request for the list of tools.
pub open spec fn list_tools_json(tools: Seq<ToolModel>) -> JsonModel {
    JsonModel::Object(
        no_members().insert(
            "tools"@,
            JsonModel::Array(Seq::new(tools.len(), |i: int| tool_json(tools[i]))),
        ),
    )
}

/// The result of the handshake.
pub open spec fn initialize_json() -> JsonModel {
    let tools = JsonModel::Object(no_members().insert("listChanged"@, JsonModel::Bool(true)));
    let capabilities = JsonModel::Object(no_members().insert("tools"@, tools));
    let server_info = JsonModel::Object(
        no_members().insert("name"@, JsonModel::Str(SERVER_NAME@)).insert(
            "version"@,
            JsonModel::Str(SERVER_VERSION@),
        ),
    );
    JsonModel::Object(
        no_members().insert("capabilities"@, capabilities).insert(
            "protocolVersion"@,
            JsonModel::Str(PROTOCOL_VERSION@),
        ).insert("serverInfo"@, server_info),
    )
}

/// The result of a call of the tool that echoes.
pub open spec fn echo_json(message: Seq<char>, env: Option<Seq<char>>) -> JsonModel {
    let content = JsonModel::Object(
        no_members().insert("echo"@, JsonModel::Str("ECHOING: "@ + message)).insert(
            "env"@,
            match env {
                Some(value) => JsonModel::Str(value),
                None => JsonModel::Null,
            },
        ),
    );
    JsonModel::Object(
        no_members().insert("content"@, JsonModel::Array(Seq::empty())).insert(
            "isError"@,
            JsonModel::Bool(false),
        ).insert("structuredContent"@, content),
    )
}

/// An object with one member.
fn object_with_one(key: &str, value: Value) -> (r: Value)
    ensures
        model(r) == JsonModel::Object(no_members().insert(key@, model(value))),
{
    broadcast use lemma_object_of_push;

    let mut entries: Vec<(String, Value)> = Vec::new();
    assert(object_of(entries@) == no_members());
    entries.push((key.to_owned(), value));
    object(entries)
}

/// The JSON form of a tool.
fn write_tool(tool: &Tool) -> (r: Value)
    ensures
        model(r) == tool_json(tool@),
{
    broadcast use lemma_object_of_push;

    let mut entries: Vec<(String, Value)> = Vec::new();
    assert(object_of(entries@) == no_members());
    entries.push(("name".to_owned(), string(tool.name.clone())));
    let schema = object_with_one("type", string(tool.input_schema.kind.clone()));
    entries.push(("inputSchema".to_owned(), schema));
    match &tool.description {
        Some(text) => {
            entries.push(("description".to_owned(), string(text.clone())));
        },
        None => {},
    }
    object(entries)
}

/// The result of a request for the list of tools.
fn write_tools(tools: &Vec<Tool>) -> (r: Value)
    ensures
        model(r) == list_tools_json(tool_models(tools@)),
{
    let mut items: Vec<Value> = Vec::new();
    let mut at: usize = 0;
    while at < tools.len()
        invariant
            at <= tools@.len(),
            items@.len() == at,
            forall|i: int| 0 <= i < at ==> model(#[trigger] items@[i]) == tool_json(tools@[i]@),
        decreases tools@.len() - at,
    {
        items.push(write_tool(&tools[at]));
        at = at + 1;
    }
    assert(models(items@) =~= Seq::new(
        tool_models(tools@).len(),
        |i: int| tool_json(tool_models(tools@)[i]),
    ));
    object_with_one("tools", array(items))
}

/// The result of the handshake.
fn write_initialize() -> (r: Value)
    ensures
        model(r) == initialize_json(),
{
    broadcast use lemma_object_of_push;

    let capabilities = object_with_one("tools", object_with_one("listChanged", boolean(true)));
    let mut info: Vec<(String, Value)> = Vec::new();
    assert(object_of(info@) == no_members());
    info.push(("name".to_owned(), string(SERVER_NAME.to_owned())));
    info.push(("version".to_owned(), string(SERVER_VERSION.to_owned())));
    let mut entries: Vec<(String, Value)> = Vec::new();
    assert(object_of(entries@) == no_members());
    entries.push(("capabilities".to_owned(), capabilities));
    entries.push(("protocolVersion".to_owned(), string(PROTOCOL_VERSION.to_owned())));
    entries.push(("serverInfo".to_owned(), object(info)));
    object(entries)
}

/// The result of a call of the tool that echoes.
fn write_echo(message: &str, env: Option<String>) -> (r: Value)
    ensures
        model(r) == echo_json(message@, optional_text(env)),
{
    broadcast use lemma_object_of_push;

    let mut content: Vec<(String, Value)> = Vec::new();
    assert(object_of(content@) == no_members());
    content.push(("echo".to_owned(), string("ECHOING: ".to_owned().concat(message))));
    let env_value: Value = match env {
        Some(value) => string(value),
        None => null(),
    };
    content.push(("env".to_owned(), env_value));
    let blocks: Vec<Value> = Vec::new();
    assert(models(blocks@) =~= Seq::<JsonModel>::empty());
    let mut entries: Vec<(String, Value)> = Vec::new();
    assert(object_of(entries@) == no_members());
    entries.push(("content".to_owned(), array(blocks)));
    entries.push(("isError".to_owned(), boolean(false)));
    entries.push(("structuredContent".to_owned(), object(content)));
    object(entries)
}

/// What a request asks for.
#[derive(Clone, Copy, PartialEq, Eq, Structural, Debug)]
pub enum Method {
    Initialize,
    ListTools,
    CallTool,
}

/// The refusal of a client that accepts no event stream.
pub open spec fn unacceptable() -> RefusalModel {
    RefusalModel { status: NOT_ACCEPTABLE, message: "Client must accept text/event-stream"@ }
}

/// What a POST asks for, or why it is refused.
pub open spec fn method_of(accept: Option<Seq<char>>, method: Seq<char>) -> Result<
    Method,
    RefusalModel,
> {
    if !(accept is Some && holds_text(accept->0, EVENT_STREAM@)) {
        Err(unacceptable())
    } else if method == "initialize"@ {
        Ok(Method::Initialize)
    } else if method == "tools/list"@ {
        Ok(Method::ListTools)
    } else if method == "tools/call"@ {
        Ok(Method::CallTool)
    } else {
        Err(RefusalModel { status: BAD_REQUEST, message: "unsupported method: "@ + method })
    }
}

/// What a POST asks for that accepts the media types of the given header.
pub fn handle_post(accept: &Option<HeaderValue>, method: &str) -> (r: Result<Method, Refusal>)
    ensures
        match r {
            Ok(known) => method_of(optional_header_text(*accept), method@) == Ok::<
                Method,
                RefusalModel,
            >(known),
            Err(refusal) => method_of(optional_header_text(*accept), method@) == Err::<
                Method,
                RefusalModel,
            >(refusal@),
        },
{
    let accepted: String = match accept {
        Some(value) => match header_text(value) {
            Some(text) => text,
            None => String::new(),
        },
        None => String::new(),
    };
    proof {
        reveal_strlit("text/event-stream");
        assert(EVENT_STREAM@.len() == 17);
        assert(!holds_text(Seq::<char>::empty(), EVENT_STREAM@));
    }
    if !contains_text(accepted.as_str(), EVENT_STREAM) {
        return Err(
            Refusal {
                status: NOT_ACCEPTABLE,
                message: "Client must accept text/event-stream".to_owned(),
            },
        );
    }
    if same_text(method, "initialize") {
        Ok(Method::Initialize)
    } else if same_text(method, "tools/list") {
        Ok(Method::ListTools)
    } else if same_text(method, "tools/call") {
        Ok(Method::CallTool)
    } else {
        Err(bad_request("unsupported method: ".to_owned().concat(method)))
    }
}

/// Why a call that names the session `named` is refused while `session` is open.
pub open spec fn session_refusal(session: Option<Seq<char>>, named: Option<Seq<char>>) -> Option<
    RefusalModel,
> {
    match named {
        None => Some(RefusalModel { status: BAD_REQUEST, message: "missing mcp-session-id"@ }),
        Some(name) => match session {
            Some(open) => if open == name {
                None
            } else {
                Some(RefusalModel { status: UNAUTHORIZED, message: "invalid session"@ })
            },
            None => Some(
                RefusalModel { status: UNAUTHORIZED, message: "session not initialized"@ },
            ),
        },
    }
}

/// The state of the server.
pub struct AppState {
    pub tools: Vec<Tool>,
    pub session_id: Option<String>,
}

/// A call of a tool.
pub struct CallToolRequestParams {
    pub name: String,
    pub arguments: Option<Value>,
}

/// The message that a call of the tool that echoes brings; empty where there is none.
pub open spec fn message_argument(arguments: Option<Value>) -> Seq<char> {
    match arguments {
        Some(value) => match member(model(value), "message"@) {
            Some(message) => match str_of(message) {
                Some(text) => text,
                None => Seq::empty(),
            },
            None => Seq::empty(),
        },
        None => Seq::empty(),
    }
}

impl AppState {
    /// A server with the tool that echoes, before its first handshake.
    pub fn new() -> (r: Self)
        ensures
            r.session_id is None,
            tool_models(r.tools@) == seq![echo_tool_model()],
    {
        let mut tools: Vec<Tool> = Vec::new();
        tools.push(echo_tool());
        assert(tool_models(tools@) =~= seq![echo_tool_model()]);
        AppState { tools, session_id: None }
    }

    /// Answers a handshake by opening the session `session`, which takes the place of any other.
    pub fn open_session(&mut self, id: &Value, session: String) -> (r: Result<SseReply, Refusal>)
        ensures
            final(self).tools == old(self).tools,
            optional_text(final(self).session_id) == Some(session@),
            match r {
                Ok(reply) => {
                    &&& answers_with(reply, model(*id), initialize_json())
                    &&& reply.session is Some
                    &&& carries_session(reply.session, session@)
                },
                Err(refusal) => !fits_header(session@) && refusal@ == unsendable_session(),
            },
    {
        self.session_id = Some(session.clone());
        sse_response_with_session(id, write_initialize(), Some(session))
    }

    /// Answers a handshake by opening a session with a random identifier.
    pub fn handle_initialize(&mut self, id: &Value) -> (r: Result<SseReply, Refusal>)
        ensures
            final(self).tools == old(self).tools,
            final(self).session_id is Some,
            uuid_v4_text(final(self).session_id->0@),
            r matches Ok(reply) && {
                &&& answers_with(reply, model(*id), initialize_json())
                &&& reply.session is Some
                &&& carries_session(reply.session, final(self).session_id->0@)
            },
    {
        let session = random_uuid();
        proof {
            lemma_uuid_is_ascii(session@);
            assert forall|i: int| 0 <= i < encode_utf8(session@).len() implies header_byte(
                #[trigger] encode_utf8(session@)[i],
            ) by {
                assert(visible_byte(session@[i] as u8));
            }
            assert(fits_header(session@));
        }
        self.open_session(id, session)
    }

    /// Admits a call only if its header names the open session.
    pub fn verify_session(&self, named: &Option<HeaderValue>) -> (r: Result<(), Refusal>)
        ensures
            match r {
                Ok(_) => session_refusal(
                    optional_text(self.session_id),
                    optional_header_text(*named),
                ) is None,
                Err(refusal) => session_refusal(
                    optional_text(self.session_id),
                    optional_header_text(*named),
                ) == Some(refusal@),
            },
    {
        let name: Option<String> = match named {
            Some(value) => header_text(value),
            None => None,
        };
        match name {
            Some(text) => match &self.session_id {
                Some(open) => if same_text(open.as_str(), text.as_str()) {
                    Ok(())
                } else {
                    Err(Refusal { status: UNAUTHORIZED, message: "invalid session".to_owned() })
                },
                None => Err(
                    Refusal {
                        status: UNAUTHORIZED,
                        message: "session not initialized".to_owned(),
                    },
                ),
            },
            None => Err(bad_request("missing mcp-session-id".to_owned())),
        }
    }

    /// Answers a request for the list of tools.
    pub fn handle_list_tools(&self, id: &Value, named: &Option<HeaderValue>) -> (r: Result<
        SseReply,
        Refusal,
    >)
        ensures
            match r {
                Ok(reply) => {
                    &&& session_refusal(
                        optional_text(self.session_id),
                        optional_header_text(*named),
                    ) is None
                    &&& answers_with(
                        reply,
                        model(*id),
                        list_tools_json(tool_models(self.tools@)),
                    )
                    &&& reply.session is None
                },
                Err(refusal) => session_refusal(
                    optional_text(self.session_id),
                    optional_header_text(*named),
                ) == Some(refusal@),
            },
    {
        match self.verify_session(named) {
            Ok(_) => sse_response(id, write_tools(&self.tools)),
            Err(refusal) => Err(refusal),
        }
    }

    /// Admits a call of a tool and hands out its parameters.
    pub fn admit_call(&self, named: &Option<HeaderValue>, params: Option<Value>) -> (r: Result<
        Value,
        Refusal,
    >)
        ensures
            ({
                let refused = session_refusal(
                    optional_text(self.session_id),
                    optional_header_text(*named),
                );
                match r {
                    Ok(value) => refused is None && params == Some(value),
                    Err(refusal) => if refused is Some {
                        refused == Some(refusal@)
                    } else {
                        params is None && refusal@ == (RefusalModel {
                            status: BAD_REQUEST,
                            message: "missing params"@,
                        })
                    },
                }
            }),
    {
        match self.verify_session(named) {
            Ok(_) => match params {
                Some(value) => Ok(value),
                None => Err(bad_request("missing params".to_owned())),
            },
            Err(refusal) => Err(refusal),
        }
    }
}

/// Answers an admitted call of a tool. `params` are its parameters, or the reason why they have not
/// the form of parameters; `env` is the environment data that the tool reports.
pub fn handle_call_tool(
    id: &Value,
    params: Result<CallToolRequestParams, String>,
    env: Option<String>,
) -> (r: Result<SseReply, Refusal>)
    ensures
        match params {
            Ok(call) => if call.name@ == ECHO_TOOL@ {
                r matches Ok(reply) && answers_with(
                    reply,
                    model(*id),
                    echo_json(message_argument(call.arguments), optional_text(env)),
                ) && reply.session is None
            } else {
                r matches Err(refusal) && refusal@ == (RefusalModel {
                    status: BAD_REQUEST,
                    message: "unknown tool: "@ + call.name@,
                })
            },
            Err(reason) => r matches Err(refusal) && refusal@ == (RefusalModel {
                status: BAD_REQUEST,
                message: "invalid call params: "@ + reason@,
            }),
        },
{
    match params {
        Ok(call) => {
            if !same_text(call.name.as_str(), ECHO_TOOL) {
                return Err(bad_request("unknown tool: ".to_owned().concat(call.name.as_str())));
            }
            let message: String = match &call.arguments {
                Some(value) => match get(value, "message") {
                    Some(message) => match as_str(message) {
                        Some(text) => text.to_owned(),
                        None => String::new(),
                    },
                    None => String::new(),
                },
                None => String::new(),
            };
            sse_response(id, write_echo(message.as_str(), env))
        },
        Err(reason) => Err(
            bad_request("invalid call params: ".to_owned().concat(reason.as_str())),
        ),
    }
}

/// Of all sessions only the one that was opened last is admitted: a new handshake shuts out the
/// session before it, and before the first handshake none is admitted.
pub proof fn law_only_latest_session_is_admitted(
    latest: Option<Seq<char>>,
    named: Option<Seq<char>>,
)
    ensures
        session_refusal(latest, named) is None <==> latest is Some && named == latest,
{
}

/// A client that sends back the session header of the handshake is admitted.
pub proof fn law_handshake_admits(session: Seq<char>, header: Option<HeaderValue>)
    requires
        uuid_v4_text(session),
        carries_session(header, session),
    ensures
        session_refusal(Some(session), optional_header_text(header)) is None,
{
    law_fresh_session_is_recognised(session, header);
}

/// A client reads the result of its request out of the event that answers it.
pub proof fn law_event_is_understood(id: JsonModel, result: JsonModel, data: Seq<char>)
    requires
        id_text(id) is Some,
    ensures
        json_reply(payload_model(id, result), id_text(id)->0) == Ok::<JsonModel, Failure>(result),
        parsed(data) == Some(payload_model(id, result)) ==> verdict(
            EventModel { event: None, data: Some(data) },
            id_text(id)->0,
        ) == Verdict::Answer(result),
{
    lemma_member_names();
}

/// The answer to a request has the version, the identifier and the result as members and no others,
/// and an event is one `data` line with an empty line behind it.
pub proof fn law_answer_on_the_wire(id: JsonModel, result: JsonModel, data: Seq<char>)
    ensures
        payload_model(id, result) == JsonModel::Object(
            map!["result"@ => result, "id"@ => id, "jsonrpc"@ => JsonModel::Str("2.0"@)],
        ),
        event_text(data) == "data: "@ + data + "\n\n"@,
{
    lemma_member_names();
    assert(payload_model(id, result)->Object_0 =~= map![
        "result"@ => result,
        "id"@ => id,
        "jsonrpc"@ => JsonModel::Str("2.0"@),
    ]);
}

/// A reply that answers a request is an uncached event stream of one event of one line with the JSON
/// text of the answer.
pub proof fn law_reply_is_an_event_stream(reply: SseReply, id: JsonModel, result: JsonModel)
    requires
        answers_with(reply, id, result),
    ensures
        reply.status == 200,
        reply.content_type@ == "text/event-stream"@,
        reply.cache_control@ == "no-cache"@,
        reply.body@ == "data: "@ + json_text(payload_model(id, result)) + "\n\n"@,
        one_line(json_text(payload_model(id, result))),
        plain_to_depth(payload_model(id, result), 127) ==> parsed(
            json_text(payload_model(id, result)),
        ) == Some(payload_model(id, result)),
{
}

/// A reply is the event stream with a given body exactly where status, headers and body are so.
pub proof fn law_event_stream(reply: SseReply, body: Seq<char>)
    ensures
        is_event_stream(reply, body) <==> {
            &&& reply.status == 200
            &&& reply.content_type@ == "text/event-stream"@
            &&& reply.cache_control@ == "no-cache"@
            &&& reply.body@ == body
        },
{
}

/// A client that accepts no event stream is refused, whatever it asks for; of the others, those that
/// ask for one of three methods are served and the rest are told what they asked for.
pub proof fn law_method(accept: Option<Seq<char>>, method: Seq<char>)
    ensures
        ({
            let served = accept matches Some(text) && holds_text(text, "text/event-stream"@);
            let found = method_of(accept, method);
            &&& !served ==> found == Err::<Method, RefusalModel>(
                RefusalModel { status: 406, message: "Client must accept text/event-stream"@ },
            )
            &&& served && method == "initialize"@ ==> found == Ok::<Method, RefusalModel>(
                Method::Initialize,
            )
            &&& served && method == "tools/list"@ ==> found == Ok::<Method, RefusalModel>(
                Method::ListTools,
            )
            &&& served && method == "tools/call"@ ==> found == Ok::<Method, RefusalModel>(
                Method::CallTool,
            )
            &&& served && method != "initialize"@ && method != "tools/list"@ && method
                != "tools/call"@ ==> found == Err::<Method, RefusalModel>(
                RefusalModel { status: 400, message: "unsupported method: "@ + method },
            )
        }),
{
    reveal_strlit("initialize");
    reveal_strlit("tools/list");
    reveal_strlit("tools/call");
    assert("initialize"@[0] != "tools/list"@[0]);
    assert("initialize"@[0] != "tools/call"@[0]);
    assert("tools/list"@[6] != "tools/call"@[6]);
}

/// Why a call is not admitted: it names no session, it names another than the open one, or none is
/// open.
pub proof fn law_session_refusals(open: Seq<char>, named: Seq<char>, session: Option<Seq<char>>)
    ensures
        session_refusal(session, None) == Some(
            RefusalModel { status: 400, message: "missing mcp-session-id"@ },
        ),
        open == named ==> session_refusal(Some(open), Some(named)) is None,
        open != named ==> session_refusal(Some(open), Some(named)) == Some(
            RefusalModel { status: 401, message: "invalid session"@ },
        ),
        session_refusal(None, Some(named)) == Some(
            RefusalModel { status: 401, message: "session not initialized"@ },
        ),
        unsendable_session() == (RefusalModel {
            status: 500,
            message: "invalid session id header: "@ + "failed to parse header value"@,
        }),
{
}

/// The message that is echoed is the text under `message` in the arguments; it is empty where there
/// are no arguments, where they are no object, and where no text stands there.
pub proof fn law_message_argument(value: Value)
    ensures
        message_argument(None) == Seq::<char>::empty(),
        message_argument(Some(value)) == (match model(value) {
            JsonModel::Object(map) => if map.dom().contains("message"@) && map["message"@] is Str {
                map["message"@]->Str_0
            } else {
                Seq::empty()
            },
            _ => Seq::empty(),
        }),
{
}

proof fn lemma_result_names()
    ensures
        "name"@ != "inputSchema"@,
        "name"@ != "description"@,
        "name"@ != "version"@,
        "inputSchema"@ != "description"@,
        "capabilities"@ != "protocolVersion"@,
        "capabilities"@ != "serverInfo"@,
        "protocolVersion"@ != "serverInfo"@,
        "echo"@ != "env"@,
        "content"@ != "isError"@,
        "content"@ != "structuredContent"@,
        "isError"@ != "structuredContent"@,
{
    reveal_strlit("name");
    reveal_strlit("version");
    reveal_strlit("inputSchema");
    reveal_strlit("description");
    reveal_strlit("capabilities");
    reveal_strlit("protocolVersion");
    reveal_strlit("serverInfo");
    reveal_strlit("echo");
    reveal_strlit("env");
    reveal_strlit("content");
    reveal_strlit("isError");
    reveal_strlit("structuredContent");
    assert("name"@.len() == 4);
    assert("version"@.len() == 7);
    assert("inputSchema"@[0] != "description"@[0]);
    assert("inputSchema"@.len() == 11);
    assert("description"@.len() == 11);
    assert("capabilities"@.len() == 12);
    assert("protocolVersion"@.len() == 15);
    assert("serverInfo"@.len() == 10);
    assert("echo"@.len() == 4);
    assert("env"@.len() == 3);
    assert("content"@.len() == 7);
    assert("isError"@.len() == 7);
    assert("content"@[0] != "isError"@[0]);
    assert("structuredContent"@.len() == 17);
}

/// What the results of the server are on the wire, with exactly these members.
pub proof fn law_results_on_the_wire(message: Seq<char>, env: Option<Seq<char>>)
    ensures
        initialize_json() == JsonModel::Object(
            map![
                "serverInfo"@ => JsonModel::Object(
                    map![
                        "version"@ => JsonModel::Str("0.7.0"@),
                        "name"@ => JsonModel::Str("rmcp"@),
                    ],
                ),
                "protocolVersion"@ => JsonModel::Str("2025-03-26"@),
                "capabilities"@ => JsonModel::Object(
                    map![
                        "tools"@ => JsonModel::Object(
                            map!["listChanged"@ => JsonModel::Bool(true)],
                        ),
                    ],
                ),
            ],
        ),
        echo_json(message, env) == JsonModel::Object(
            map![
                "structuredContent"@ => JsonModel::Object(
                    map![
                        "env"@ => match env {
                            Some(text) => JsonModel::Str(text),
                            None => JsonModel::Null,
                        },
                        "echo"@ => JsonModel::Str("ECHOING: "@ + message),
                    ],
                ),
                "isError"@ => JsonModel::Bool(false),
                "content"@ => JsonModel::Array(Seq::empty()),
            ],
        ),
{
    lemma_result_names();
    let info = map!["version"@ => JsonModel::Str("0.7.0"@), "name"@ => JsonModel::Str("rmcp"@)];
    assert(initialize_json()->Object_0["serverInfo"@]->Object_0 =~= info);
    let changed = map!["listChanged"@ => JsonModel::Bool(true)];
    let tools = map!["tools"@ => JsonModel::Object(changed)];
    assert(initialize_json()->Object_0["capabilities"@]->Object_0["tools"@]->Object_0 =~= changed);
    assert(initialize_json()->Object_0["capabilities"@]->Object_0 =~= tools);
    assert(initialize_json()->Object_0 =~= map![
        "serverInfo"@ => JsonModel::Object(info),
        "protocolVersion"@ => JsonModel::Str("2025-03-26"@),
        "capabilities"@ => JsonModel::Object(tools),
    ]);
    let told = match env {
        Some(text) => JsonModel::Str(text),
        None => JsonModel::Null,
    };
    let content = map!["env"@ => told, "echo"@ => JsonModel::Str("ECHOING: "@ + message)];
    assert(echo_json(message, env)->Object_0["structuredContent"@]->Object_0 =~= content);
    assert(echo_json(message, env)->Object_0 =~= map![
        "structuredContent"@ => JsonModel::Object(content),
        "isError"@ => JsonModel::Bool(false),
        "content"@ => JsonModel::Array(Seq::empty()),
    ]);
}

/// What a tool and a list of tools are on the wire: a tool has its name, its description where there
/// is one and the type of its arguments, and the list has one entry per tool, in order.
pub proof fn law_tools_on_the_wire(
    name: Seq<char>,
    text: Seq<char>,
    kind: Seq<char>,
    tools: Seq<ToolModel>,
)
    ensures
        ({
            let schema = JsonModel::Object(map!["type"@ => JsonModel::Str(kind)]);
            let list = list_tools_json(tools);
            &&& tool_json(ToolModel { name, description: None, kind }) == JsonModel::Object(
                map!["inputSchema"@ => schema, "name"@ => JsonModel::Str(name)],
            )
            &&& tool_json(ToolModel { name, description: Some(text), kind }) == JsonModel::Object(
                map![
                    "inputSchema"@ => schema,
                    "name"@ => JsonModel::Str(name),
                    "description"@ => JsonModel::Str(text),
                ],
            )
            &&& list is Object && list->Object_0.dom() == set!["tools"@]
            &&& list->Object_0["tools"@] is Array
            &&& list->Object_0["tools"@]->Array_0.len() == tools.len()
            &&& forall|i: int|
                0 <= i < tools.len() ==> #[trigger] list->Object_0["tools"@]->Array_0[i]
                    == tool_json(tools[i])
        }),
        echo_tool_model() == (ToolModel {
            name: "echo"@,
            description: Some("Echo back the provided message and include environment data."@),
            kind: "object"@,
        }),
{
    lemma_result_names();
    let kinds = map!["type"@ => JsonModel::Str(kind)];
    let schema = JsonModel::Object(kinds);
    let bare = tool_json(ToolModel { name, description: None, kind });
    let full = tool_json(ToolModel { name, description: Some(text), kind });
    assert(bare->Object_0["inputSchema"@]->Object_0 =~= kinds);
    assert(full->Object_0["inputSchema"@]->Object_0 =~= kinds);
    assert(bare->Object_0 =~= map!["inputSchema"@ => schema, "name"@ => JsonModel::Str(name)]);
    assert(full->Object_0 =~= map![
        "inputSchema"@ => schema,
        "name"@ => JsonModel::Str(name),
        "description"@ => JsonModel::Str(text),
    ]);
    assert(list_tools_json(tools)->Object_0.dom() =~= set!["tools"@]);
}

/// Tools and refusals stand for their parts, each for itself.
pub proof fn law_tools_stand_for_their_parts(tool: Tool, tools: Seq<Tool>, refusal: Refusal)
    ensures
        tool@.name == tool.name@,
        tool@.description == optional_text(tool.description),
        tool@.kind == tool.input_schema.kind@,
        tool_models(tools).len() == tools.len(),
        forall|i: int| 0 <= i < tools.len() ==> #[trigger] tool_models(tools)[i] == tools[i]@,
        refusal@.status == refusal.status,
        refusal@.message == refusal.message@,
        DEFAULT_BIND_ADDRESS@ == "127.0.0.1:3920"@,
{
}

} // verus!
