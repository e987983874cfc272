//! What holds of a client and a server together.
use vstd::prelude::*;

use crate::client::error::Failure;
use crate::client::reply::{json_reply, verdict, EventModel, Verdict};
use crate::client::state::request_model;
use crate::json::{parsed, JsonModel};
use crate::message::{
    lemma_member_names, message_json, message_of, IdModel, MessageModel, JSONRPC_VERSION,
};
use crate::text::decimal;

verus! {

/// How a client writes the identifier of a request.
pub open spec fn id_notation(id: IdModel) -> Seq<char> {
    match id {
        IdModel::Text(text) => text,
        IdModel::Integer(n) => decimal(n as int),
    }
}

/// A server takes what a client sends for the request that the client means.
pub proof fn law_request_is_understood(
    id: Seq<char>,
    method: Seq<char>,
    params: Option<JsonModel>,
)
    requires
        params != Some(JsonModel::Null),
    ensures
        message_of(request_model(id, method, params)) == Some(
            MessageModel::Request {
                id: IdModel::Text(id),
                jsonrpc: JSONRPC_VERSION@,
                method,
                params,
            },
        ),
{
    lemma_member_names();
}

/// A client takes a successful answer for the result that the server means, whether the answer
/// comes as a body or as an event.
pub proof fn law_answer_is_understood(
    id: IdModel,
    jsonrpc: Seq<char>,
    result: JsonModel,
    data: Seq<char>,
)
    ensures
        ({
            let answer = message_json(MessageModel::Response { id, jsonrpc, result });
            &&& json_reply(answer, id_notation(id)) == Ok::<JsonModel, Failure>(result)
            &&& parsed(data) == Some(answer) ==> verdict(
                EventModel { event: None, data: Some(data) },
                id_notation(id),
            ) == Verdict::Answer(result)
        }),
{
    lemma_member_names();
}

/// A client takes an error answer for the error that the server means, whether the answer comes
/// as a body or as an event.
pub proof fn law_error_is_understood(
    id: IdModel,
    jsonrpc: Seq<char>,
    code: i64,
    message: Seq<char>,
    error_data: Option<JsonModel>,
    data: Seq<char>,
)
    ensures
        ({
            let answer = message_json(
                MessageModel::Error { id, jsonrpc, code, message, data: error_data },
            );
            &&& json_reply(answer, id_notation(id)) == Err::<JsonModel, Failure>(
                Failure::Mcp { code, message },
            )
            &&& parsed(data) == Some(answer) ==> verdict(
                EventModel { event: None, data: Some(data) },
                id_notation(id),
            ) == Verdict::Fail(Failure::Mcp { code, message })
        }),
{
    lemma_member_names();
}

} // verus!
