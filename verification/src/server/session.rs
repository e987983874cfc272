//! Messages over HTTP: the sessions of a server, the requests that wait in them for an answer, and
//! what each HTTP call does to them.
use vstd::prelude::*;
use vstd::utf8::{encode_utf8, is_ascii_chars, is_ascii_chars_encode_utf8};

use axum::http::HeaderValue;
use serde_json::Value;

use crate::http::{
    fits_header, header_bytes, header_text, header_value, hex_char, optional_header_text,
    random_uuid, uuid_v4_text, visible_byte, BAD_REQUEST, EVENT_STREAM, INTERNAL_SERVER_ERROR,
    NO_CONTENT, OK,
};
use crate::json::{json_text, model, null, parse, parsed, plain_to_depth, JsonModel};
use crate::message::{
    message_json, message_of, message_text, one_line, read_message, IdModel, JSONRPCMessage,
    MessageModel, RequestId,
};
use crate::pending::Table;
use crate::text::{contains_text, holds_text};

verus! {

/// The requests of one session that wait for an answer. `S` is what hands the answer on.
pub struct Session<S> {
    pending: Table<RequestId, S>,
}

impl<S> View for Session<S> {
    type V = Map<IdModel, S>;

    closed spec fn view(&self) -> Map<IdModel, S> {
        self.pending@
    }
}

impl<S> Session<S> {
    /// No request waits twice.
    pub closed spec fn well_formed(&self) -> bool {
        self.pending.well_formed()
    }

    /// A session in which nothing waits.
    fn new() -> (r: Self)
        ensures
            r.well_formed(),
            r@ == Map::<IdModel, S>::empty(),
    {
        Session { pending: Table::new() }
    }
}

/// The state of an HTTP server. It either serves one session, which every call belongs to, or as
/// many as its clients name.
pub struct HttpState<S> {
    shared: Option<String>,
    sessions: Table<String, Session<S>>,
}

/// What an [`HttpState`] stands for.
pub struct HttpModel<S> {
    /// The one session that every call belongs to, where there is only one.
    pub shared: Option<Seq<char>>,
    /// The requests that wait in each session.
    pub sessions: Map<Seq<char>, Map<IdModel, S>>,
}

impl<S> View for HttpState<S> {
    type V = HttpModel<S>;

    closed spec fn view(&self) -> HttpModel<S> {
        HttpModel {
            shared: match self.shared {
                Some(id) => Some(id@),
                None => None,
            },
            sessions: self.sessions@.map_values(|s: Session<S>| s@),
        }
    }
}

/// The session that a call belongs to: the shared one, else the one that the client names, else a
/// fresh one.
pub open spec fn session_for(
    shared: Option<Seq<char>>,
    named: Option<Seq<char>>,
    fresh: Seq<char>,
) -> Seq<char> {
    match shared {
        Some(id) => id,
        None => match named {
            Some(id) => id,
            None => fresh,
        },
    }
}

/// `state` with the session `id` in it.
pub open spec fn with_session<S>(state: HttpModel<S>, id: Seq<char>) -> HttpModel<S> {
    if state.sessions.dom().contains(id) {
        state
    } else {
        HttpModel { sessions: state.sessions.insert(id, Map::empty()), ..state }
    }
}

/// `state` with a responder that waits in a session for the answer to a request.
pub open spec fn with_waiting<S>(
    state: HttpModel<S>,
    session: Seq<char>,
    id: IdModel,
    responder: S,
) -> HttpModel<S> {
    let entered = with_session(state, session);
    HttpModel {
        sessions: entered.sessions.insert(session, entered.sessions[session].insert(id, responder)),
        ..entered
    }
}

/// What a POST is answered with, or what has to happen first.
pub enum PostAction {
    /// The body is no message.
    Refuse,
    /// The message is handed to the processor, and its answer is the response.
    ForwardAndWait(JSONRPCMessage),
    /// The message is handed to the processor, and the events of the session are the response.
    ForwardAndStream(JSONRPCMessage),
    /// The message is handed to the processor and acknowledged.
    Acknowledge(JSONRPCMessage),
}

/// What a [`PostAction`] stands for.
pub enum PostActionModel {
    Refuse,
    ForwardAndWait(MessageModel),
    ForwardAndStream(MessageModel),
    Acknowledge(MessageModel),
}

impl View for PostAction {
    type V = PostActionModel;

    open spec fn view(&self) -> PostActionModel {
        match self {
            PostAction::Refuse => PostActionModel::Refuse,
            PostAction::ForwardAndWait(m) => PostActionModel::ForwardAndWait(m@),
            PostAction::ForwardAndStream(m) => PostActionModel::ForwardAndStream(m@),
            PostAction::Acknowledge(m) => PostActionModel::Acknowledge(m@),
        }
    }
}

/// How a POST is handled.
pub struct PostPlan {
    /// The session that the call belongs to.
    pub session: String,
    /// Whether the session did not exist before.
    pub created: bool,
    /// The session header of the response.
    pub session_header: Option<HeaderValue>,
    pub action: PostAction,
}

/// `header` carries `session`; it is absent where `session` cannot be sent as a header.
pub open spec fn carries_session(header: Option<HeaderValue>, session: Seq<char>) -> bool {
    match header {
        Some(value) => fits_header(session) && header_bytes(value) == encode_utf8(session),
        None => !fits_header(session),
    }
}

/// What a POST with `body` asks for, in a server with the given shared session.
pub open spec fn post_action(
    shared: Option<Seq<char>>,
    wants_stream: bool,
    body: JsonModel,
) -> PostActionModel {
    match message_of(body) {
        None => PostActionModel::Refuse,
        Some(message) => match message {
            MessageModel::Request { .. } => if wants_stream && shared is None {
                PostActionModel::ForwardAndStream(message)
            } else {
                PostActionModel::ForwardAndWait(message)
            },
            _ => PostActionModel::Acknowledge(message),
        },
    }
}

/// `state` after a POST to `session` that asks for `action`.
pub open spec fn state_after_post<S>(
    state: HttpModel<S>,
    session: Seq<char>,
    action: PostActionModel,
    responder: S,
) -> HttpModel<S> {
    match action {
        PostActionModel::Refuse => state,
        PostActionModel::ForwardAndWait(MessageModel::Request { id, .. }) => with_waiting(
            state,
            session,
            id,
            responder,
        ),
        _ => with_session(state, session),
    }
}

/// The client accepts an event stream as the response.
pub open spec fn accepts_stream(accept: Option<HeaderValue>) -> bool {
    match optional_header_text(accept) {
        Some(text) => holds_text(text, EVENT_STREAM@),
        None => false,
    }
}

/// What a message that leaves the server does: where it goes, its text, and the responder that it
/// answers.
pub struct BridgeStep<S> {
    /// The session whose event streams, and no others, carry the message.
    pub session: String,
    /// The JSON text of the message, for the responder and for the event streams.
    pub json: String,
    /// The responder that waits for this message.
    pub responder: Option<S>,
}

/// The request that a message answers.
pub open spec fn answered_id(message: MessageModel) -> Option<IdModel> {
    match message {
        MessageModel::Response { id, .. } => Some(id),
        MessageModel::Error { id, .. } => Some(id),
        _ => None,
    }
}

/// The responder in `session` that waits for `message`.
pub open spec fn waiting_responder<S>(
    state: HttpModel<S>,
    session: Seq<char>,
    message: MessageModel,
) -> Option<S> {
    match answered_id(message) {
        Some(id) => if state.sessions.dom().contains(session)
            && state.sessions[session].dom().contains(id) {
            Some(state.sessions[session][id])
        } else {
            None
        },
        None => None,
    }
}

/// `state` after `message` has left the server from `session`.
pub open spec fn state_after_bridge<S>(
    state: HttpModel<S>,
    session: Seq<char>,
    message: MessageModel,
) -> HttpModel<S> {
    match answered_id(message) {
        Some(id) => if state.sessions.dom().contains(session) {
            HttpModel {
                sessions: state.sessions.insert(session, state.sessions[session].remove(id)),
                ..state
            }
        } else {
            state
        },
        None => state,
    }
}

/// How a GET for the event stream is handled.
pub struct StreamPlan {
    /// The session whose events are streamed.
    pub session: String,
    /// Whether the session did not exist before.
    pub created: bool,
    /// The session header of the response.
    pub session_header: Option<HeaderValue>,
}

impl<S> HttpState<S> {
    /// No session is there twice, no request waits twice in one, and a shared session is the only
    /// one.
    pub closed spec fn well_formed(&self) -> bool {
        &&& self.sessions.well_formed()
        &&& forall|id: Seq<char>| #[trigger]
            self.sessions@.dom().contains(id) ==> self.sessions@[id].well_formed()
        &&& match self.shared {
            Some(id) => forall|other: Seq<char>| #[trigger]
                self.sessions@.dom().contains(other) <==> other == id@,
            None => true,
        }
    }

    /// A server with the one session `id`.
    pub fn single(id: String) -> (r: Self)
        ensures
            r.well_formed(),
            r@ == (HttpModel::<S> {
                shared: Some(id@),
                sessions: Map::empty().insert(id@, Map::empty()),
            }),
    {
        let mut sessions: Table<String, Session<S>> = Table::new();
        let _ = sessions.insert(id.clone(), Session::new());
        let r = HttpState { shared: Some(id), sessions };
        assert(r@.sessions =~= Map::empty().insert(id@, Map::empty()));
        r
    }

    /// A server with one session, under a random identifier.
    pub fn new_single() -> (r: Self)
        ensures
            r.well_formed(),
            r@.shared is Some,
            uuid_v4_text(r@.shared->0),
            r@.sessions == Map::empty().insert(r@.shared->0, Map::<IdModel, S>::empty()),
    {
        Self::single(random_uuid())
    }

    /// A server that opens the sessions that its clients ask for.
    pub fn multi() -> (r: Self)
        ensures
            r.well_formed(),
            r@ == (HttpModel::<S> { shared: None, sessions: Map::empty() }),
    {
        let r = HttpState { shared: None, sessions: Table::new() };
        assert(r@.sessions =~= Map::<Seq<char>, Map<IdModel, S>>::empty());
        r
    }

    /// The session that a call belongs to. Where the client names none and none is shared, it is a
    /// random one.
    pub fn choose_session(&self, named: &Option<HeaderValue>) -> (r: String)
        ensures
            self@.shared is Some || optional_header_text(*named) is Some || uuid_v4_text(r@),
            r@ == session_for(self@.shared, optional_header_text(*named), r@),
    {
        match &self.shared {
            Some(id) => id.clone(),
            None => {
                let text: Option<String> = match named {
                    Some(value) => header_text(value),
                    None => None,
                };
                match text {
                    Some(id) => id,
                    None => random_uuid(),
                }
            },
        }
    }

    /// Opens the session `id` where it does not exist, and says whether it did so.
    pub fn ensure_session(&mut self, id: &String) -> (r: bool)
        requires
            old(self).well_formed(),
            old(self)@.shared is Some ==> old(self)@.shared == Some(id@),
        ensures
            final(self).well_formed(),
            final(self)@ == with_session(old(self)@, id@),
            r == !old(self)@.sessions.dom().contains(id@),
    {
        if self.sessions.contains(id) {
            return false;
        }
        let _ = self.sessions.insert(id.clone(), Session::new());
        assert(self@.sessions =~= old(self)@.sessions.insert(id@, Map::empty()));
        true
    }

    /// Lets a responder wait in a session for the answer to a request.
    pub fn register_pending(&mut self, session: &String, id: RequestId, responder: S)
        requires
            old(self).well_formed(),
            old(self)@.shared is Some ==> old(self)@.shared == Some(session@),
        ensures
            final(self).well_formed(),
            final(self)@ == with_waiting(old(self)@, session@, id@, responder),
    {
        let _ = self.ensure_session(session);
        let ghost entered = self@;
        let mut open: Session<S> = match self.sessions.remove(session) {
            Some(open) => open,
            None => Session::new(),
        };
        let _ = open.pending.insert(id, responder);
        let _ = self.sessions.insert(session.clone(), open);
        assert(self@.sessions =~= entered.sessions.insert(
            session@,
            entered.sessions[session@].insert(id@, responder),
        ));
    }

    /// Takes the responder out of a session that waits for the answer to a request.
    pub fn remove_pending(&mut self, session: &String, id: &RequestId) -> (r: Option<S>)
        requires
            old(self).well_formed(),
        ensures
            final(self).well_formed(),
            final(self)@.shared == old(self)@.shared,
            final(self)@.sessions == (if old(self)@.sessions.dom().contains(session@) {
                old(self)@.sessions.insert(
                    session@,
                    old(self)@.sessions[session@].remove(id@),
                )
            } else {
                old(self)@.sessions
            }),
            r == (if old(self)@.sessions.dom().contains(session@) && old(
                self,
            )@.sessions[session@].dom().contains(id@) {
                Some(old(self)@.sessions[session@][id@])
            } else {
                None
            }),
    {
        match self.sessions.remove(session) {
            Some(found) => {
                let mut open = found;
                let responder = open.pending.remove(id);
                let _ = self.sessions.insert(session.clone(), open);
                assert(self@.sessions =~= old(self)@.sessions.insert(
                    session@,
                    old(self)@.sessions[session@].remove(id@),
                ));
                responder
            },
            None => {
                assert(self@.sessions =~= old(self)@.sessions);
                None
            },
        }
    }

    /// Decides how a POST with `body` to the session `session` is handled. `responder` waits for
    /// the answer where the message is a request whose answer is the response.
    pub fn plan_post(
        &mut self,
        session: String,
        wants_stream: bool,
        body: &Value,
        responder: S,
    ) -> (r: PostPlan)
        requires
            old(self).well_formed(),
            old(self)@.shared is Some ==> old(self)@.shared == Some(session@),
        ensures
            final(self).well_formed(),
            r.session@ == session@,
            carries_session(r.session_header, session@),
            r.action@ == post_action(old(self)@.shared, wants_stream, model(*body)),
            r.created == (!(r.action@ is Refuse) && !old(self)@.sessions.dom().contains(session@)),
            final(self)@ == state_after_post(old(self)@, session@, r.action@, responder),
    {
        let session_header: Option<HeaderValue> = match header_value(session.as_str()) {
            Ok(value) => Some(value),
            Err(_) => None,
        };
        let message: JSONRPCMessage = match read_message(body) {
            Some(message) => message,
            None => {
                return PostPlan {
                    session,
                    created: false,
                    session_header,
                    action: PostAction::Refuse,
                };
            },
        };
        let created = self.ensure_session(&session);
        let request_id: Option<RequestId> = match &message {
            JSONRPCMessage::Request(request) => Some(request.id.copy()),
            _ => None,
        };
        let action = match request_id {
            Some(id) => if wants_stream && self.shared.is_none() {
                PostAction::ForwardAndStream(message)
            } else {
                self.register_pending(&session, id, responder);
                PostAction::ForwardAndWait(message)
            },
            None => PostAction::Acknowledge(message),
        };
        PostPlan { session, created, session_header, action }
    }

    /// Decides how a POST is handled that comes with the given headers and body.
    pub fn handle_post(
        &mut self,
        named: &Option<HeaderValue>,
        accept: &Option<HeaderValue>,
        body: &Value,
        responder: S,
    ) -> (r: PostPlan)
        requires
            old(self).well_formed(),
        ensures
            final(self).well_formed(),
            old(self)@.shared is Some || optional_header_text(*named) is Some || uuid_v4_text(
                r.session@,
            ),
            r.session@ == session_for(old(self)@.shared, optional_header_text(*named), r.session@),
            carries_session(r.session_header, r.session@),
            r.action@ == post_action(old(self)@.shared, accepts_stream(*accept), model(*body)),
            r.created == (!(r.action@ is Refuse) && !old(self)@.sessions.dom().contains(
                r.session@,
            )),
            final(self)@ == state_after_post(old(self)@, r.session@, r.action@, responder),
    {
        let session = self.choose_session(named);
        let accepted: Option<String> = match accept {
            Some(value) => header_text(value),
            None => None,
        };
        let wants_stream: bool = match accepted {
            Some(text) => contains_text(text.as_str(), EVENT_STREAM),
            None => false,
        };
        self.plan_post(session, wants_stream, body, responder)
    }

    /// Takes up a message that leaves the server from a session.
    pub fn bridge(&mut self, session: &String, message: &JSONRPCMessage) -> (r: BridgeStep<S>)
        requires
            old(self).well_formed(),
        ensures
            final(self).well_formed(),
            final(self)@ == state_after_bridge(old(self)@, session@, message@),
            r.session@ == session@,
            r.responder == waiting_responder(old(self)@, session@, message@),
            r.json@ == json_text(message_json(message@)),
            one_line(r.json@),
            plain_to_depth(message_json(message@), 127) ==> parsed(r.json@) == Some(
                message_json(message@),
            ),
    {
        let json = message_text(message);
        let responder: Option<S> = match message {
            JSONRPCMessage::Response(response) => self.remove_pending(session, &response.id),
            JSONRPCMessage::Error(error) => self.remove_pending(session, &error.id),
            _ => None,
        };
        BridgeStep { session: session.clone(), json, responder }
    }

    /// Decides how a GET for the event stream of `session` is handled.
    pub fn open_stream(&mut self, session: String) -> (r: StreamPlan)
        requires
            old(self).well_formed(),
            old(self)@.shared is Some ==> old(self)@.shared == Some(session@),
        ensures
            final(self).well_formed(),
            final(self)@ == with_session(old(self)@, session@),
            r.session@ == session@,
            r.created == !old(self)@.sessions.dom().contains(session@),
            carries_session(r.session_header, session@),
    {
        let created = self.ensure_session(&session);
        let session_header: Option<HeaderValue> = match header_value(session.as_str()) {
            Ok(value) => Some(value),
            Err(_) => None,
        };
        StreamPlan { session, created, session_header }
    }

    /// Decides how a GET for the event stream is handled that comes with the given header. In a
    /// server with one session the client's own choice is passed over.
    pub fn handle_sse(&mut self, named: &Option<HeaderValue>) -> (r: StreamPlan)
        requires
            old(self).well_formed(),
        ensures
            final(self).well_formed(),
            old(self)@.shared is Some || optional_header_text(*named) is Some || uuid_v4_text(
                r.session@,
            ),
            r.session@ == session_for(old(self)@.shared, optional_header_text(*named), r.session@),
            final(self)@ == with_session(old(self)@, r.session@),
            r.created == !old(self)@.sessions.dom().contains(r.session@),
            carries_session(r.session_header, r.session@),
    {
        let session = self.choose_session(named);
        self.open_stream(session)
    }
}

/// How a POST ended.
pub enum PostEvent {
    /// Its body is no message.
    Refused,
    /// The processor takes no more messages.
    ProcessorGone,
    /// The request was answered with a JSON text.
    Answered(String),
    /// The responder was given up.
    Unanswered,
    /// The message was handed on.
    Acknowledged,
}

/// What the client of a POST waits for once its message is handed on.
#[derive(Clone, Copy, PartialEq, Eq, Structural, Debug)]
pub enum Expectation {
    /// The answer to its request.
    Answer,
    /// The events of its session.
    Stream,
    /// Nothing.
    Nothing,
}

/// How a POST goes on.
pub enum PostStep {
    /// The answer to the request is waited for.
    Await,
    /// The events of the session are streamed.
    Stream,
    /// The POST is over.
    Finish(PostEvent),
}

/// How a POST goes on once its message is handed to the processor, which took it or not. A message
/// that wants no answer is acknowledged either way.
pub open spec fn step_after_forward(expected: Expectation, taken: bool) -> PostStep {
    match expected {
        Expectation::Nothing => PostStep::Finish(PostEvent::Acknowledged),
        Expectation::Answer => if taken {
            PostStep::Await
        } else {
            PostStep::Finish(PostEvent::ProcessorGone)
        },
        Expectation::Stream => if taken {
            PostStep::Stream
        } else {
            PostStep::Finish(PostEvent::ProcessorGone)
        },
    }
}

/// How a POST goes on once its message is handed to the processor, which took it or not.
pub fn after_forward(expected: Expectation, taken: bool) -> (r: PostStep)
    ensures
        r == step_after_forward(expected, taken),
{
    match expected {
        Expectation::Nothing => PostStep::Finish(PostEvent::Acknowledged),
        Expectation::Answer => if taken {
            PostStep::Await
        } else {
            PostStep::Finish(PostEvent::ProcessorGone)
        },
        Expectation::Stream => if taken {
            PostStep::Stream
        } else {
            PostStep::Finish(PostEvent::ProcessorGone)
        },
    }
}

/// How a POST ends whose answer was waited for; there is none where the responder was given up.
pub fn after_wait(answer: Option<String>) -> (r: PostEvent)
    ensures
        r == (match answer {
            Some(json) => PostEvent::Answered(json),
            None => PostEvent::Unanswered,
        }),
{
    match answer {
        Some(json) => PostEvent::Answered(json),
        None => PostEvent::Unanswered,
    }
}

/// The body of a response.
pub enum Body {
    Empty,
    Text(String),
    Json(Value),
}

/// What a [`Body`] stands for.
pub enum BodyModel {
    Empty,
    Text(Seq<char>),
    Json(JsonModel),
}

impl View for Body {
    type V = BodyModel;

    open spec fn view(&self) -> BodyModel {
        match self {
            Body::Empty => BodyModel::Empty,
            Body::Text(text) => BodyModel::Text(text@),
            Body::Json(value) => BodyModel::Json(model(*value)),
        }
    }
}

/// The response to a POST.
pub struct HttpReply {
    pub status: u16,
    pub body: Body,
}

/// The status of the response to a POST.
pub open spec fn post_status(event: PostEvent) -> u16 {
    match event {
        PostEvent::Refused => BAD_REQUEST,
        PostEvent::ProcessorGone => INTERNAL_SERVER_ERROR,
        PostEvent::Answered(_) => OK,
        PostEvent::Unanswered => INTERNAL_SERVER_ERROR,
        PostEvent::Acknowledged => NO_CONTENT,
    }
}

/// The body of the response to a POST. An answer that is not JSON is sent as `null`.
pub open spec fn post_body(event: PostEvent) -> BodyModel {
    match event {
        PostEvent::Refused => BodyModel::Text("invalid JSON-RPC"@),
        PostEvent::ProcessorGone => BodyModel::Text("processor unavailable"@),
        PostEvent::Answered(json) => BodyModel::Json(
            match parsed(json@) {
                Some(value) => value,
                None => JsonModel::Null,
            },
        ),
        PostEvent::Unanswered => BodyModel::Text("no response"@),
        PostEvent::Acknowledged => BodyModel::Empty,
    }
}

/// The response to a POST.
pub fn post_reply(event: &PostEvent) -> (r: HttpReply)
    ensures
        r.status == post_status(*event),
        r.body@ == post_body(*event),
{
    match event {
        PostEvent::Refused => HttpReply {
            status: BAD_REQUEST,
            body: Body::Text("invalid JSON-RPC".to_owned()),
        },
        PostEvent::ProcessorGone => HttpReply {
            status: INTERNAL_SERVER_ERROR,
            body: Body::Text("processor unavailable".to_owned()),
        },
        PostEvent::Answered(json) => {
            let value: Value = match parse(json.as_str()) {
                Ok(value) => value,
                Err(_) => null(),
            };
            HttpReply { status: OK, body: Body::Json(value) }
        },
        PostEvent::Unanswered => HttpReply {
            status: INTERNAL_SERVER_ERROR,
            body: Body::Text("no response".to_owned()),
        },
        PostEvent::Acknowledged => HttpReply { status: NO_CONTENT, body: Body::Empty },
    }
}

/// What the subscriber of an event stream receives.
pub enum Received {
    /// The JSON text of a message.
    Message(String),
    /// Messages were lost because the subscriber lagged behind.
    Gap,
}

/// The events of a stream whose subscriber received the given things: one for each message, with
/// its text as data, and none for a gap.
pub open spec fn events_for(received: Seq<Received>) -> Seq<Seq<char>>
    decreases received.len(),
{
    if received.len() == 0 {
        Seq::empty()
    } else {
        match received.last() {
            Received::Message(json) => events_for(received.drop_last()).push(json@),
            Received::Gap => events_for(received.drop_last()),
        }
    }
}

/// The data of the event that a subscriber gets for what it received; a gap gives no event.
pub fn event_data(received: Received) -> (r: Option<String>)
    ensures
        match received {
            Received::Message(json) => r == Some(json),
            Received::Gap => r is None,
        },
        events_for(seq![received]) == (match r {
            Some(data) => seq![data@],
            None => Seq::empty(),
        }),
{
    proof {
        let all = seq![received];
        assert(all.drop_last() =~= Seq::<Received>::empty());
        assert(events_for(all.drop_last()) =~= Seq::<Seq<char>>::empty());
    }
    match received {
        Received::Message(json) => Some(json),
        Received::Gap => None,
    }
}

/// One of the things that were received is the message with the given text.
pub open spec fn message_received(received: Seq<Received>, text: Seq<char>) -> bool {
    exists|j: int|
        0 <= j < received.len() && (#[trigger] received[j]) is Message
            && received[j]->Message_0@ == text
}

/// Every event of a stream carries the text of a message, and a subscriber that loses none gets
/// exactly one event for each message, in order.
pub proof fn law_events_are_the_messages(received: Seq<Received>)
    ensures
        forall|i: int|
            0 <= i < events_for(received).len() ==> message_received(
                received,
                #[trigger] events_for(received)[i],
            ),
        (forall|j: int| 0 <= j < received.len() ==> (#[trigger] received[j]) is Message)
            ==> events_for(received) == Seq::new(
            received.len(),
            |j: int| received[j]->Message_0@,
        ),
    decreases received.len(),
{
    if received.len() > 0 {
        let before = received.drop_last();
        law_events_are_the_messages(before);
        let last = received.len() - 1;
        assert forall|i: int| 0 <= i < events_for(received).len() implies message_received(
            received,
            #[trigger] events_for(received)[i],
        ) by {
            if i < events_for(before).len() {
                assert(events_for(received)[i] == events_for(before)[i]);
                assert(message_received(before, events_for(before)[i]));
                let j = choose|j: int|
                    0 <= j < before.len() && (#[trigger] before[j]) is Message
                        && before[j]->Message_0@ == events_for(before)[i];
                assert(received[j] == before[j]);
            } else {
                assert(received[last] is Message);
            }
        }
        if forall|j: int| 0 <= j < received.len() ==> (#[trigger] received[j]) is Message {
            assert forall|j: int| 0 <= j < before.len() implies (#[trigger] before[j]) is Message by {
                assert(before[j] == received[j]);
            }
            assert(received[last] is Message);
            assert(events_for(received) =~= Seq::new(
                received.len(),
                |j: int| received[j]->Message_0@,
            ));
        }
    }
}

/// A stream goes on after a gap: its events are those before the gap and those behind it.
pub proof fn law_stream_goes_on_after_a_gap(before: Seq<Received>, behind: Seq<Received>)
    ensures
        events_for(before.push(Received::Gap) + behind) == events_for(before) + events_for(behind),
    decreases behind.len(),
{
    let whole = before.push(Received::Gap) + behind;
    if behind.len() == 0 {
        assert(whole =~= before.push(Received::Gap));
        assert(whole.drop_last() =~= before);
        assert(events_for(before) + events_for(behind) =~= events_for(before));
    } else {
        law_stream_goes_on_after_a_gap(before, behind.drop_last());
        assert(whole.drop_last() =~= before.push(Received::Gap) + behind.drop_last());
        assert(whole.last() == behind.last());
        assert(events_for(whole) =~= events_for(before) + events_for(behind));
    }
}

/// A message that leaves the server from one session changes nothing in another: no answer
/// resolves a request across sessions.
pub proof fn law_sessions_are_isolated<S>(
    state: HttpModel<S>,
    session: Seq<char>,
    message: MessageModel,
    other: Seq<char>,
)
    requires
        other != session,
    ensures
        state_after_bridge(state, session, message).sessions.dom().contains(other)
            == state.sessions.dom().contains(other),
        state.sessions.dom().contains(other) ==> state_after_bridge(
            state,
            session,
            message,
        ).sessions[other] == state.sessions[other],
{
}

/// A request that is posted to one session changes nothing in another.
pub proof fn law_posts_are_isolated<S>(
    state: HttpModel<S>,
    session: Seq<char>,
    action: PostActionModel,
    responder: S,
    other: Seq<char>,
)
    requires
        other != session,
    ensures
        state_after_post(state, session, action, responder).sessions.dom().contains(other)
            == state.sessions.dom().contains(other),
        state.sessions.dom().contains(other) ==> state_after_post(
            state,
            session,
            action,
            responder,
        ).sessions[other] == state.sessions[other],
{
}

/// The answer to a request that waits reaches the responder of that request, and reaches it once:
/// a second answer to the same request finds nobody.
pub proof fn law_answer_reaches_its_request<S>(
    state: HttpModel<S>,
    session: Seq<char>,
    id: IdModel,
    responder: S,
    answer: MessageModel,
    again: MessageModel,
)
    requires
        answered_id(answer) == Some(id),
        answered_id(again) == Some(id),
    ensures
        ({
            let waiting = with_waiting(state, session, id, responder);
            &&& waiting_responder(waiting, session, answer) == Some(responder)
            &&& waiting_responder(
                state_after_bridge(waiting, session, answer),
                session,
                again,
            ) is None
        }),
{
}

/// A message that answers another request leaves a request waiting, and so does one that answers
/// none.
pub proof fn law_other_messages_leave_requests_waiting<S>(
    state: HttpModel<S>,
    session: Seq<char>,
    id: IdModel,
    message: MessageModel,
)
    requires
        state.sessions.dom().contains(session),
        state.sessions[session].dom().contains(id),
        answered_id(message) != Some(id),
    ensures
        state_after_bridge(state, session, message).sessions[session].dom().contains(id),
        state_after_bridge(state, session, message).sessions[session][id]
            == state.sessions[session][id],
{
}

/// A session lives on whatever comes in or leaves the server: none is ever closed.
pub proof fn law_sessions_live_on<S>(
    state: HttpModel<S>,
    id: Seq<char>,
    session: Seq<char>,
    action: PostActionModel,
    responder: S,
    message: MessageModel,
)
    requires
        state.sessions.dom().contains(id),
    ensures
        state_after_post(state, session, action, responder).sessions.dom().contains(id),
        with_session(state, session).sessions.dom().contains(id),
        state_after_bridge(state, session, message).sessions.dom().contains(id),
{
}

/// A server with one session keeps it: every call belongs to that session, whatever the client
/// names, and nothing changes which session it is.
pub proof fn law_shared_session_is_stable<S>(
    state: HttpModel<S>,
    named: Option<Seq<char>>,
    fresh: Seq<char>,
    session: Seq<char>,
    action: PostActionModel,
    responder: S,
    message: MessageModel,
)
    requires
        state.shared is Some,
    ensures
        session_for(state.shared, named, fresh) == state.shared->0,
        state_after_post(state, session, action, responder).shared == state.shared,
        with_session(state, session).shared == state.shared,
        state_after_bridge(state, session, message).shared == state.shared,
{
}

/// A POST is refused exactly where its body is no message, and acknowledged exactly where its body
/// is a message other than a request; only a request is answered.
pub proof fn law_only_requests_are_answered(
    shared: Option<Seq<char>>,
    wants_stream: bool,
    body: JsonModel,
)
    ensures
        post_action(shared, wants_stream, body) is Refuse <==> message_of(body) is None,
        post_action(shared, wants_stream, body) is Acknowledge <==> {
            message_of(body) matches Some(message) && !(message is Request)
        },
        post_action(shared, wants_stream, body) is ForwardAndStream <==> {
            message_of(body) matches Some(message) && message is Request && wants_stream && shared
                is None
        },
{
}

/// A request whose answer can be read back from its text is answered with the JSON form of that
/// answer.
pub proof fn law_answer_is_the_response(json: String, answer: MessageModel)
    ensures
        parsed(json@) == Some(message_json(answer)) ==> {
            &&& post_status(PostEvent::Answered(json)) == OK
            &&& post_body(PostEvent::Answered(json)) == BodyModel::Json(message_json(answer))
        },
{
}

pub(crate) proof fn lemma_uuid_is_ascii(text: Seq<char>)
    requires
        uuid_v4_text(text),
    ensures
        is_ascii_chars(text),
        encode_utf8(text) == Seq::new(text.len(), |i: int| text[i] as u8),
        forall|i: int| 0 <= i < text.len() ==> visible_byte(#[trigger] (text[i] as u8)),
{
    assert forall|i: int| 0 <= i < text.len() implies '-' <= #[trigger] text[i] <= 'f' by {
        if i == 8 || i == 13 || i == 18 || i == 23 {
            assert(text[i] == '-');
        } else {
            assert(hex_char(text[i]));
        }
    }
    is_ascii_chars_encode_utf8(text);
}

/// A session identifier that the server makes up can always be sent as a header, and a client that
/// sends the header back names that session.
pub proof fn law_fresh_session_is_recognised(session: Seq<char>, header: Option<HeaderValue>)
    requires
        uuid_v4_text(session),
        carries_session(header, session),
    ensures
        header is Some,
        optional_header_text(header) == Some(session),
{
    lemma_uuid_is_ascii(session);
    let bytes = encode_utf8(session);
    assert forall|i: int| 0 <= i < bytes.len() implies visible_byte(#[trigger] bytes[i]) by {
        assert(bytes[i] == session[i] as u8);
    }
    assert(fits_header(session));
    assert(Seq::new(bytes.len(), |i: int| bytes[i] as char) =~= session);
}

} // verus!
