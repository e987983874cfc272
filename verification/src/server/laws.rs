//! What the operations of the server over HTTP are for, in terms of messages and calls.
use vstd::prelude::*;
use vstd::utf8::encode_utf8;

use axum::http::HeaderValue;
use serde_json::Value;

use crate::http::{fits_header, header_bytes, header_text_of};
use crate::json::{model, parsed, JsonModel};
use crate::message::{message_of, IdModel, JSONRPCMessage, MessageModel};
use crate::server::session::{
    accepts_stream, carries_session, events_for, post_action, post_body, post_status, session_for,
    state_after_bridge, state_after_post, step_after_forward, waiting_responder, with_session,
    with_waiting, Body, BodyModel, Expectation, HttpModel, PostAction, PostActionModel, PostEvent,
    PostStep, Received,
};
use crate::text::holds_text;

verus! {

/// Whatever a POST hands to the processor is the message of its body, unchanged.
pub proof fn law_processor_gets_the_message_of_the_body(
    shared: Option<Seq<char>>,
    wants_stream: bool,
    body: JsonModel,
)
    ensures
        match post_action(shared, wants_stream, body) {
            PostActionModel::Refuse => message_of(body) is None,
            PostActionModel::ForwardAndWait(message) => message_of(body) == Some(message),
            PostActionModel::ForwardAndStream(message) => message_of(body) == Some(message),
            PostActionModel::Acknowledge(message) => message_of(body) == Some(message),
        },
{
}

/// What a POST asks for, by the kind of its message: a request waits for its answer, or for the
/// events of its session where the client accepts them and the sessions are many; a notification, a
/// response and an error are acknowledged.
pub proof fn law_kind_of_message_decides(
    shared: Option<Seq<char>>,
    wants_stream: bool,
    body: JsonModel,
)
    ensures
        message_of(body) matches Some(message) ==> post_action(shared, wants_stream, body) == (
        match message {
            MessageModel::Request { id: _, jsonrpc: _, method: _, params: _ } => if wants_stream
                && shared is None {
                PostActionModel::ForwardAndStream(message)
            } else {
                PostActionModel::ForwardAndWait(message)
            },
            MessageModel::Notification { jsonrpc: _, method: _, params: _ } =>
                PostActionModel::Acknowledge(message),
            MessageModel::Response { id: _, jsonrpc: _, result: _ } => PostActionModel::Acknowledge(
                message,
            ),
            MessageModel::Error { id: _, jsonrpc: _, code: _, message: _, data: _ } =>
                PostActionModel::Acknowledge(message),
        }),
{
}

/// A call belongs to the one session of the server, else to the session that it names, else to a
/// fresh one.
pub proof fn law_session_of_a_call(id: Seq<char>, named: Seq<char>, fresh: Seq<char>)
    ensures
        session_for(Some(id), Some(named), fresh) == id,
        session_for(Some(id), None, fresh) == id,
        session_for(None, Some(named), fresh) == named,
        session_for(None, None, fresh) == fresh,
{
}

/// Entering a session opens it without requests where it does not exist, and changes nothing else.
pub proof fn law_entering_a_session<S>(state: HttpModel<S>, session: Seq<char>)
    ensures
        ({
            let entered = with_session(state, session);
            &&& entered.shared == state.shared
            &&& entered.sessions.dom() == state.sessions.dom().insert(session)
            &&& !state.sessions.dom().contains(session) ==> entered.sessions[session]
                == Map::<IdModel, S>::empty()
            &&& forall|other: Seq<char>|
                state.sessions.dom().contains(other) ==> #[trigger] entered.sessions[other]
                    == state.sessions[other]
        }),
{
    if state.sessions.dom().contains(session) {
        assert(state.sessions.dom().insert(session) =~= state.sessions.dom());
    } else {
        assert(with_session(state, session).sessions.dom() =~= state.sessions.dom().insert(
            session,
        ));
    }
}

/// A responder that is noted waits in its session under its request's identifier; the other requests
/// of the session and all other sessions stay as they are.
pub proof fn law_noting_a_responder<S>(
    state: HttpModel<S>,
    session: Seq<char>,
    id: IdModel,
    responder: S,
)
    ensures
        ({
            let waiting = with_waiting(state, session, id, responder);
            let before = if state.sessions.dom().contains(session) {
                state.sessions[session]
            } else {
                Map::empty()
            };
            &&& waiting.shared == state.shared
            &&& waiting.sessions.dom() == state.sessions.dom().insert(session)
            &&& waiting.sessions[session] == before.insert(id, responder)
            &&& forall|other: Seq<char>|
                other != session && state.sessions.dom().contains(other)
                    ==> #[trigger] waiting.sessions[other] == state.sessions[other]
        }),
{
    assert(with_waiting(state, session, id, responder).sessions.dom()
        =~= state.sessions.dom().insert(session));
}

/// What a POST leaves in the server: a request that waits for its answer is noted with its
/// responder under the identifier that it carries; any other message only opens its session, and a
/// body that is no message leaves nothing.
pub proof fn law_post_leaves<S>(
    state: HttpModel<S>,
    session: Seq<char>,
    responder: S,
    id: IdModel,
    jsonrpc: Seq<char>,
    method: Seq<char>,
    params: Option<JsonModel>,
    other: MessageModel,
)
    ensures
        state_after_post(
            state,
            session,
            PostActionModel::ForwardAndWait(
                (MessageModel::Request { id, jsonrpc, method, params }),
            ),
            responder,
        ) == with_waiting(state, session, id, responder),
        state_after_post(state, session, PostActionModel::ForwardAndStream(other), responder)
            == with_session(state, session),
        state_after_post(state, session, PostActionModel::Acknowledge(other), responder)
            == with_session(state, session),
        state_after_post(state, session, PostActionModel::Refuse, responder) == state,
{
}

/// A request that waits gets every response and every error that carries its identifier, be that a
/// text or a number, and waits no longer after it; the other requests of its session wait on.
pub proof fn law_response_and_error_answer_their_request<S>(
    state: HttpModel<S>,
    session: Seq<char>,
    id: IdModel,
    jsonrpc: Seq<char>,
    result: JsonModel,
    code: i64,
    text: Seq<char>,
    data: Option<JsonModel>,
)
    requires
        state.sessions.dom().contains(session),
    ensures
        ({
            let response = MessageModel::Response { id, jsonrpc, result };
            let error = MessageModel::Error { id, jsonrpc, code, message: text, data };
            let waits = state.sessions[session].dom().contains(id);
            let left = HttpModel {
                sessions: state.sessions.insert(session, state.sessions[session].remove(id)),
                ..state
            };
            &&& waits ==> waiting_responder(state, session, response) == Some(
                state.sessions[session][id],
            )
            &&& waits ==> waiting_responder(state, session, error) == Some(
                state.sessions[session][id],
            )
            &&& !waits ==> waiting_responder(state, session, response) is None
            &&& !waits ==> waiting_responder(state, session, error) is None
            &&& state_after_bridge(state, session, response) == left
            &&& state_after_bridge(state, session, error) == left
        }),
{
}

/// Requests and notifications that leave the server answer nobody and change nothing, and neither
/// does anything that leaves from a session that does not exist.
pub proof fn law_other_messages_answer_nobody<S>(
    state: HttpModel<S>,
    session: Seq<char>,
    id: IdModel,
    jsonrpc: Seq<char>,
    method: Seq<char>,
    params: Option<JsonModel>,
    any: MessageModel,
)
    ensures
        ({
            let request = MessageModel::Request { id, jsonrpc, method, params };
            let notification = MessageModel::Notification { jsonrpc, method, params };
            &&& waiting_responder(state, session, request) is None
            &&& waiting_responder(state, session, notification) is None
            &&& state_after_bridge(state, session, request) == state
            &&& state_after_bridge(state, session, notification) == state
            &&& !state.sessions.dom().contains(session) ==> waiting_responder(
                state,
                session,
                any,
            ) is None && state_after_bridge(state, session, any) == state
        }),
{
}

/// A client accepts an event stream exactly where its header is text that names the media type.
pub proof fn law_accepting_a_stream(header: HeaderValue)
    ensures
        !accepts_stream(None),
        accepts_stream(Some(header)) <==> match header_text_of(header_bytes(header)) {
            Some(text) => holds_text(text, "text/event-stream"@),
            None => false,
        },
{
}

/// The session header of a response has the bytes of the session, and is absent exactly where they
/// cannot be sent.
pub proof fn law_session_header(header: Option<HeaderValue>, session: Seq<char>)
    requires
        carries_session(header, session),
    ensures
        header is Some <==> fits_header(session),
        header matches Some(value) ==> header_bytes(value) == encode_utf8(session),
{
}

/// What each end of a POST is answered with.
pub proof fn law_replies_to_a_post(json: String)
    ensures
        post_status(PostEvent::Refused) == 400,
        post_body(PostEvent::Refused) == BodyModel::Text("invalid JSON-RPC"@),
        post_status(PostEvent::ProcessorGone) == 500,
        post_body(PostEvent::ProcessorGone) == BodyModel::Text("processor unavailable"@),
        post_status(PostEvent::Answered(json)) == 200,
        parsed(json@) matches Some(value) ==> post_body(PostEvent::Answered(json))
            == BodyModel::Json(value),
        parsed(json@) is None ==> post_body(PostEvent::Answered(json)) == BodyModel::Json(
            JsonModel::Null,
        ),
        post_status(PostEvent::Unanswered) == 500,
        post_body(PostEvent::Unanswered) == BodyModel::Text("no response"@),
        post_status(PostEvent::Acknowledged) == 204,
        post_body(PostEvent::Acknowledged) is Empty,
{
}

/// A POST that wants no answer is acknowledged whether or not the processor took its message; one
/// that wants an answer or a stream goes on to it exactly where the processor took its message.
pub proof fn law_forwarding_decides(taken: bool)
    ensures
        step_after_forward(Expectation::Nothing, taken) == PostStep::Finish(
            PostEvent::Acknowledged,
        ),
        step_after_forward(Expectation::Answer, true) is Await,
        step_after_forward(Expectation::Stream, true) is Stream,
        step_after_forward(Expectation::Answer, false) == PostStep::Finish(
            PostEvent::ProcessorGone,
        ),
        step_after_forward(Expectation::Stream, false) == PostStep::Finish(
            PostEvent::ProcessorGone,
        ),
{
}

/// Each message that a subscriber receives is one more event with its text, and a gap is none.
pub proof fn law_one_event_per_message(received: Seq<Received>, json: String)
    ensures
        events_for(Seq::empty()) == Seq::<Seq<char>>::empty(),
        events_for(received.push(Received::Message(json))) == events_for(received).push(json@),
        events_for(received.push(Received::Gap)) == events_for(received),
{
    assert(received.push(Received::Message(json)).drop_last() =~= received);
    assert(received.push(Received::Gap).drop_last() =~= received);
}

/// Actions and bodies stand for their parts, each for itself.
pub proof fn law_actions_stand_for_their_parts(message: JSONRPCMessage, text: String, value: Value)
    ensures
        PostAction::Refuse@ == PostActionModel::Refuse,
        (PostAction::ForwardAndWait(message))@ == PostActionModel::ForwardAndWait(message@),
        (PostAction::ForwardAndStream(message))@ == PostActionModel::ForwardAndStream(message@),
        (PostAction::Acknowledge(message))@ == PostActionModel::Acknowledge(message@),
        Body::Empty@ == BodyModel::Empty,
        (Body::Text(text))@ == BodyModel::Text(text@),
        (Body::Json(value))@ == BodyModel::Json(model(value)),
{
}

} // verus!
