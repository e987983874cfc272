//! The state of a client and what its operations do to it.
use vstd::prelude::*;

use axum::http::HeaderValue;
use serde_json::Value;

use crate::client::error::{ClientError, Failure};
use crate::client::exchange::{
    expects, progress_after, releases, session_after, unreadable_session, Exchange, ExchangeEvent,
    ExchangeModel, Progress, ProgressModel, Stage, StageModel, UNREADABLE_BODY,
};
use crate::client::listener::{
    delivery_of, event_delivery, listener_stage_after, next_listener_stage, pending_after,
    pending_after_event, Delivery, ListenerEvent, ListenerStage,
};
use crate::client::reply::{
    carries_message, extract_id, optional_text, outcome, parse_json_response, parse_sse_event,
    RpcResponse, SseEvent, StreamProgress,
};
use crate::client::token::{keep_token, token_kept};
use crate::http::{
    header_text, is_success, optional_header_text, parse_url, parsed_url, status_text,
    EVENT_STREAM, JSON_CONTENT,
};
use crate::json::{get, object, parse, parse_bytes, string};
use crate::json::{lemma_object_of_push, model, models, object_of, JsonModel};
use crate::message::{optional_model, JSONRPC_VERSION};
use crate::pending::Table;
use crate::text::{decimal, lowercase, starts_with, unsigned_text};

verus! {

/// Media types that a request accepts.
pub const ACCEPT_HEADER_VALUE: &'static str = "text/event-stream, application/json";

/// A client of one server. `S` is what hands an answer from the background stream to the request
/// that waits for it.
pub struct StreamableHttpClient<S> {
    url: String,
    auth_token: Option<String>,
    next_id: u64,
    session_id: Option<String>,
    pending: Table<String, S>,
    listening: bool,
}

/// What a [`StreamableHttpClient`] stands for.
pub struct ClientModel<S> {
    /// The address of the server.
    pub url: Seq<char>,
    /// The bearer token, without the name of its scheme.
    pub token: Option<Seq<char>>,
    /// The number of the next request.
    pub next_id: u64,
    /// The session that the server assigned.
    pub session: Option<Seq<char>>,
    /// The requests that wait for an answer over the background stream.
    pub pending: Map<Seq<char>, S>,
    /// Whether the background stream is listened to.
    pub listening: bool,
}

impl<S> View for StreamableHttpClient<S> {
    type V = ClientModel<S>;

    closed spec fn view(&self) -> ClientModel<S> {
        ClientModel {
            url: self.url@,
            token: optional_text(self.auth_token),
            next_id: self.next_id,
            session: optional_text(self.session_id),
            pending: self.pending@,
            listening: self.listening,
        }
    }
}

/// A request to send to the server.
pub struct PostRequest {
    pub accept: String,
    pub content_type: String,
    pub bearer: Option<String>,
    pub session: Option<String>,
    pub body: Value,
}

/// A request for the background stream.
pub struct ListenRequest {
    pub accept: String,
    pub bearer: Option<String>,
    pub session: String,
}

/// The JSON-RPC request with the given parts.
pub open spec fn request_model(
    id: Seq<char>,
    method: Seq<char>,
    params: Option<JsonModel>,
) -> JsonModel {
    let bare = Map::<Seq<char>, JsonModel>::empty().insert(
        "jsonrpc"@,
        JsonModel::Str(JSONRPC_VERSION@),
    ).insert("id"@, JsonModel::Str(id)).insert("method"@, JsonModel::Str(method));
    JsonModel::Object(
        match params {
            Some(value) => bare.insert("params"@, value),
            None => bare,
        },
    )
}

/// `request` sends `method` with `params` as the next request of `client`.
pub open spec fn is_next_request<S>(
    client: ClientModel<S>,
    method: Seq<char>,
    params: Option<JsonModel>,
    request: PostRequest,
) -> bool {
    &&& request.accept@ == ACCEPT_HEADER_VALUE@
    &&& request.content_type@ == JSON_CONTENT@
    &&& optional_text(request.bearer) == client.token
    &&& optional_text(request.session) == client.session
    &&& model(request.body) == request_model(decimal(client.next_id as int), method, params)
}

/// `client` after it has begun a request; `responder` waits where there is one.
pub open spec fn client_after_begin<S>(client: ClientModel<S>, responder: Option<S>) -> ClientModel<
    S,
> {
    ClientModel {
        next_id: if client.next_id == u64::MAX {
            0
        } else {
            (client.next_id + 1) as u64
        },
        pending: match responder {
            Some(r) => client.pending.insert(decimal(client.next_id as int), r),
            None => client.pending,
        },
        ..client
    }
}

/// `exchange` is the next request of `client` right after it was sent.
pub open spec fn is_begun<S>(client: ClientModel<S>, background: bool, exchange: Exchange) -> bool {
    exchange@ == ExchangeModel {
        id: decimal(client.next_id as int),
        background,
        stage: StageModel::Head,
    }
}

/// Every request that waits has a number below that of the next request.
pub open spec fn waiting_are_earlier<S>(client: ClientModel<S>) -> bool {
    forall|id: Seq<char>| #[trigger]
        client.pending.dom().contains(id) ==> exists|n: int|
            0 <= n < client.next_id && #[trigger] decimal(n) == id
}

impl<S> StreamableHttpClient<S> {
    /// No request waits twice.
    pub closed spec fn well_formed(&self) -> bool {
        self.pending.well_formed()
    }

    /// A client of the server at `url` that has not sent anything yet.
    pub fn new(url: &str, bearer_token: Option<String>) -> (r: Result<Self, ClientError>)
        ensures
            match r {
                Ok(client) => {
                    &&& parsed_url(url@) is Some
                    &&& client.well_formed()
                    &&& client@ == ClientModel::<S> {
                        url: parsed_url(url@)->0,
                        token: token_kept(optional_text(bearer_token)),
                        next_id: 1,
                        session: None,
                        pending: Map::empty(),
                        listening: false,
                    }
                },
                Err(error) => parsed_url(url@) is None && error@ == Failure::InvalidUrl(url@),
            },
    {
        match parse_url(url) {
            Some(address) => {
                Ok(
                    StreamableHttpClient {
                        url: address,
                        auth_token: keep_token(bearer_token),
                        next_id: 1,
                        session_id: None,
                        pending: Table::new(),
                        listening: false,
                    },
                )
            },
            None => Err(ClientError::InvalidUrl(url.to_owned())),
        }
    }

    /// Begins a request: numbers it, notes the responder that waits for its answer over the
    /// background stream, if there is one, and composes what to send.
    pub fn send_request(
        &mut self,
        method: &str,
        params: Option<Value>,
        responder: Option<S>,
    ) -> (r: (Exchange, PostRequest))
        requires
            old(self).well_formed(),
        ensures
            final(self).well_formed(),
            final(self)@ == client_after_begin(old(self)@, responder),
            is_begun(old(self)@, responder is Some, r.0),
            is_next_request(old(self)@, method@, optional_model(params), r.1),
    {
        let id = unsigned_text(self.next_id);
        self.next_id = self.next_id.wrapping_add(1);
        let background = match responder {
            Some(waiting) => {
                self.register_pending(id.clone(), waiting);
                true
            },
            None => false,
        };
        let request = PostRequest {
            accept: ACCEPT_HEADER_VALUE.to_owned(),
            content_type: JSON_CONTENT.to_owned(),
            bearer: self.auth_token.clone(),
            session: self.current_session_id(),
            body: request_body(id.as_str(), method, params),
        };
        (Exchange { id, background, stage: Stage::Head }, request)
    }

    /// Notes the responder of a request and hands back the one that it replaces.
    pub fn register_pending(&mut self, id: String, responder: S) -> (r: Option<S>)
        requires
            old(self).well_formed(),
        ensures
            final(self).well_formed(),
            final(self)@ == (ClientModel {
                pending: old(self)@.pending.insert(id@, responder),
                ..old(self)@
            }),
            match r {
                Some(replaced) => old(self)@.pending.dom().contains(id@) && replaced == old(
                    self,
                )@.pending[id@],
                None => !old(self)@.pending.dom().contains(id@),
            },
    {
        self.pending.insert(id, responder)
    }

    /// Forgets the responder of a request.
    pub fn remove_pending(&mut self, id: &String) -> (r: Option<S>)
        requires
            old(self).well_formed(),
        ensures
            final(self).well_formed(),
            final(self)@ == (ClientModel { pending: old(self)@.pending.remove(id@), ..old(self)@ }),
            match r {
                Some(removed) => old(self)@.pending.dom().contains(id@) && removed == old(
                    self,
                )@.pending[id@],
                None => !old(self)@.pending.dom().contains(id@),
            },
    {
        self.pending.remove(id)
    }

    /// The session that the server assigned.
    pub fn current_session_id(&self) -> (r: Option<String>)
        ensures
            optional_text(r) == self@.session,
    {
        self.session_id.clone()
    }

    /// Takes over the session that a response names; fails where its header is not text.
    pub fn maybe_update_session(&mut self, header: &Option<HeaderValue>) -> (r: Result<
        (),
        ClientError,
    >)
        requires
            old(self).well_formed(),
        ensures
            final(self).well_formed(),
            final(self)@ == (ClientModel {
                session: match optional_header_text(*header) {
                    Some(text) => Some(text),
                    None => old(self)@.session,
                },
                ..old(self)@
            }),
            match r {
                Ok(_) => !unreadable_session(*header),
                Err(error) => unreadable_session(*header) && error@ == Failure::InvalidSession,
            },
    {
        match header {
            Some(value) => match header_text(value) {
                Some(text) => {
                    self.session_id = Some(text);
                    Ok(())
                },
                None => Err(ClientError::InvalidSession),
            },
            None => Ok(()),
        }
    }

    /// Sets up a client and begins the handshake with `params`.
    pub fn connect(url: &str, bearer_token: Option<String>, params: Value) -> (r: Result<
        (Self, Exchange, PostRequest),
        ClientError,
    >)
        ensures
            match r {
                Ok((client, exchange, request)) => {
                    let fresh = ClientModel::<S> {
                        url: parsed_url(url@)->0,
                        token: token_kept(optional_text(bearer_token)),
                        next_id: 1,
                        session: None,
                        pending: Map::empty(),
                        listening: false,
                    };
                    &&& parsed_url(url@) is Some
                    &&& client.well_formed()
                    &&& client@ == client_after_begin(fresh, None)
                    &&& is_begun(fresh, false, exchange)
                    &&& is_next_request(fresh, "initialize"@, Some(model(params)), request)
                },
                Err(error) => parsed_url(url@) is None && error@ == Failure::InvalidUrl(url@),
            },
    {
        match Self::new(url, bearer_token) {
            Ok(new) => {
                let mut client = new;
                let (exchange, request) = client.send_request("initialize", Some(params), None);
                Ok((client, exchange, request))
            },
            Err(error) => Err(error),
        }
    }

    /// Begins a request for the list of tools.
    pub fn list_tools(&mut self, params: Option<Value>, responder: S) -> (r: (
        Exchange,
        PostRequest,
    ))
        requires
            old(self).well_formed(),
        ensures
            final(self).well_formed(),
            final(self)@ == client_after_begin(old(self)@, Some(responder)),
            is_begun(old(self)@, true, r.0),
            is_next_request(old(self)@, "tools/list"@, optional_model(params), r.1),
    {
        self.send_request("tools/list", params, Some(responder))
    }

    /// Begins a call of a tool.
    pub fn call_tool(&mut self, params: Value, responder: S) -> (r: (Exchange, PostRequest))
        requires
            old(self).well_formed(),
        ensures
            final(self).well_formed(),
            final(self)@ == client_after_begin(old(self)@, Some(responder)),
            is_begun(old(self)@, true, r.0),
            is_next_request(old(self)@, "tools/call"@, Some(model(params)), r.1),
    {
        self.send_request("tools/call", Some(params), Some(responder))
    }
}

/// What a [`Progress`] of the request `exchange` stands for.
pub open spec fn stands_for(
    progress: Progress,
    exchange: ExchangeModel,
    expected: ProgressModel,
) -> bool {
    match progress {
        Progress::Continue(next) => {
            &&& next@.id == exchange.id
            &&& next@.background == exchange.background
            &&& expected == ProgressModel::Continue(next@.stage)
        },
        Progress::Done(decided) => expected == ProgressModel::Done(outcome(decided)),
    }
}

/// `client` after `event` has happened to its request `exchange`.
pub open spec fn client_after<S>(
    client: ClientModel<S>,
    exchange: ExchangeModel,
    event: ExchangeEvent,
) -> ClientModel<S> {
    ClientModel {
        session: session_after(client.session, event),
        pending: if releases(exchange, event) {
            client.pending.remove(exchange.id)
        } else {
            client.pending
        },
        ..client
    }
}

impl<S> StreamableHttpClient<S> {
    fn release(&mut self, exchange: &Exchange)
        requires
            old(self).well_formed(),
        ensures
            final(self).well_formed(),
            final(self)@ == (ClientModel {
                pending: if exchange.background {
                    old(self)@.pending.remove(exchange.id@)
                } else {
                    old(self)@.pending
                },
                ..old(self)@
            }),
    {
        if exchange.background {
            let _ = self.remove_pending(&exchange.id);
        }
    }

    fn advance_head(
        &mut self,
        exchange: Exchange,
        status: u16,
        session: Option<HeaderValue>,
        content_type: Option<HeaderValue>,
    ) -> (r: Progress)
        requires
            old(self).well_formed(),
            exchange@.stage is Head,
            100 <= status <= 999,
        ensures
            final(self).well_formed(),
            final(self)@ == client_after(
                old(self)@,
                exchange@,
                (ExchangeEvent::HeadReceived { status, session, content_type }),
            ),
            stands_for(
                r,
                exchange@,
                progress_after(
                    exchange@,
                    (ExchangeEvent::HeadReceived { status, session, content_type }),
                ),
            ),
    {
        match self.maybe_update_session(&session) {
            Ok(_) => {},
            Err(error) => {
                return Progress::Done(Err(error));
            },
        }
        if !is_success(status) {
            self.release(&exchange);
            return Progress::Continue(
                Exchange { stage: Stage::ErrorBody { status: status_text(status) }, ..exchange },
            );
        }
        let content_type: String = match &content_type {
            Some(value) => match header_text(value) {
                Some(text) => lowercase(text.as_str()),
                None => String::new(),
            },
            None => String::new(),
        };
        if starts_with(content_type.as_str(), JSON_CONTENT) {
            Progress::Continue(Exchange { stage: Stage::JsonBody, ..exchange })
        } else if starts_with(content_type.as_str(), EVENT_STREAM) {
            let notifications: Vec<Value> = Vec::new();
            assert(models(notifications@) =~= Seq::<JsonModel>::empty());
            Progress::Continue(Exchange { stage: Stage::Stream { notifications }, ..exchange })
        } else {
            self.release(&exchange);
            Progress::Done(Err(ClientError::UnsupportedContentType(content_type)))
        }
    }

    fn advance_stream(&mut self, exchange: Exchange, event: SseEvent) -> (r: Progress)
        requires
            old(self).well_formed(),
            exchange@.stage is Stream,
        ensures
            final(self).well_formed(),
            final(self)@ == client_after(
                old(self)@,
                exchange@,
                ExchangeEvent::EventReceived(event),
            ),
            stands_for(
                r,
                exchange@,
                progress_after(exchange@, ExchangeEvent::EventReceived(event)),
            ),
    {
        let Exchange { id, background, stage } = exchange;
        let notifications: Vec<Value> = match stage {
            Stage::Stream { notifications } => notifications,
            _ => Vec::new(),
        };
        match parse_sse_event(&event, id.as_str(), notifications) {
            StreamProgress::Open(seen) => Progress::Continue(
                Exchange { id, background, stage: Stage::Stream { notifications: seen } },
            ),
            StreamProgress::Decided(decided) => {
                if background {
                    let _ = self.remove_pending(&id);
                }
                Progress::Done(decided)
            },
        }
    }

    /// Takes a request on by one event.
    pub fn advance(&mut self, exchange: Exchange, event: ExchangeEvent) -> (r: Progress)
        requires
            old(self).well_formed(),
            expects(exchange@.stage, event),
        ensures
            final(self).well_formed(),
            final(self)@ == client_after(old(self)@, exchange@, event),
            stands_for(r, exchange@, progress_after(exchange@, event)),
    {
        match event {
            ExchangeEvent::HeadTimedOut => Progress::Done(Err(ClientError::SendTimedOut)),
            ExchangeEvent::SendFailed(reason) => Progress::Done(
                Err(ClientError::Transport(reason)),
            ),
            ExchangeEvent::HeadReceived { status, session, content_type } => self.advance_head(
                exchange,
                status,
                session,
                content_type,
            ),
            ExchangeEvent::ErrorBodyRead(text) => {
                let status: String = match exchange.stage {
                    Stage::ErrorBody { status } => status,
                    _ => String::new(),
                };
                let body: String = match text {
                    Some(body) => body,
                    None => UNREADABLE_BODY.to_owned(),
                };
                Progress::Done(Err(ClientError::Status { status, body }))
            },
            ExchangeEvent::BodyRead(bytes) => match parse_bytes(bytes.as_slice()) {
                Ok(message) => {
                    self.release(&exchange);
                    Progress::Done(parse_json_response(message, exchange.id.as_str()))
                },
                Err(_) => Progress::Done(Err(ClientError::InvalidBody)),
            },
            ExchangeEvent::BodyFailed(reason) => Progress::Done(
                Err(ClientError::Transport(reason)),
            ),
            ExchangeEvent::EventReceived(event) => self.advance_stream(exchange, event),
            ExchangeEvent::EventFailed => {
                self.release(&exchange);
                Progress::Done(Err(ClientError::InvalidEvent))
            },
            ExchangeEvent::StreamEnded => if exchange.background {
                Progress::Continue(Exchange { stage: Stage::Background, ..exchange })
            } else {
                Progress::Done(Err(ClientError::StreamClosed))
            },
            ExchangeEvent::StreamTimedOut => {
                self.release(&exchange);
                Progress::Done(Err(ClientError::StreamTimedOut))
            },
            ExchangeEvent::Delivered(message) => Progress::Done(
                parse_json_response(message, exchange.id.as_str()),
            ),
            ExchangeEvent::DeliveryDropped => {
                self.release(&exchange);
                Progress::Done(Err(ClientError::BackgroundClosed))
            },
            ExchangeEvent::DeliveryTimedOut => {
                self.release(&exchange);
                Progress::Done(Err(ClientError::BackgroundTimedOut))
            },
        }
    }

    /// Decides whether a listener on the background stream is to be started, and with which
    /// session; nothing is to be done where one runs already.
    pub fn ensure_stream_listener(&mut self) -> (r: Result<Option<String>, ClientError>)
        requires
            old(self).well_formed(),
        ensures
            final(self).well_formed(),
            final(self)@ == (ClientModel {
                listening: old(self)@.listening || old(self)@.session is Some,
                ..old(self)@
            }),
            match r {
                Ok(session) => {
                    &&& old(self)@.listening || old(self)@.session is Some
                    &&& optional_text(session) == (if old(self)@.listening {
                        None
                    } else {
                        old(self)@.session
                    })
                },
                Err(error) => {
                    &&& !old(self)@.listening && old(self)@.session is None
                    &&& error@ == Failure::MissingSession
                },
            },
    {
        if self.listening {
            return Ok(None);
        }
        match self.current_session_id() {
            Some(session) => {
                self.listening = true;
                Ok(Some(session))
            },
            None => Err(ClientError::MissingSession),
        }
    }

    /// Ends the handshake: where it succeeded, decides whether a listener on the background stream
    /// is to be started, and with which session.
    pub fn finish_connect(&mut self, handshake: Result<RpcResponse<Value>, ClientError>) -> (r:
        Result<Option<String>, ClientError>)
        requires
            old(self).well_formed(),
        ensures
            final(self).well_formed(),
            match handshake {
                Ok(_) => {
                    &&& final(self)@ == (ClientModel {
                        listening: old(self)@.listening || old(self)@.session is Some,
                        ..old(self)@
                    })
                    &&& match r {
                        Ok(session) => {
                            &&& old(self)@.listening || old(self)@.session is Some
                            &&& optional_text(session) == (if old(self)@.listening {
                                None
                            } else {
                                old(self)@.session
                            })
                        },
                        Err(error) => {
                            &&& !old(self)@.listening && old(self)@.session is None
                            &&& error@ == Failure::MissingSession
                        },
                    }
                },
                Err(error) => final(self)@ == old(self)@ && r == Err::<
                    Option<String>,
                    ClientError,
                >(error),
            },
    {
        match handshake {
            Ok(_) => self.ensure_stream_listener(),
            Err(error) => Err(error),
        }
    }

    /// The request for the background stream of `session`.
    pub fn listen_request(&self, session: &str) -> (r: ListenRequest)
        ensures
            r.accept@ == EVENT_STREAM@,
            optional_text(r.bearer) == self@.token,
            r.session@ == session@,
    {
        ListenRequest {
            accept: EVENT_STREAM.to_owned(),
            bearer: self.auth_token.clone(),
            session: session.to_owned(),
        }
    }

    /// The address of the server.
    pub fn url(&self) -> (r: &str)
        ensures
            r@ == self@.url,
    {
        self.url.as_str()
    }

    /// Finds the request that a message of the background stream is for.
    pub fn handle_stream_value(&mut self, message: Value) -> (r: Delivery<S>)
        requires
            old(self).well_formed(),
        ensures
            final(self).well_formed(),
            final(self)@ == (ClientModel {
                pending: pending_after(old(self)@.pending, model(message)),
                ..old(self)@
            }),
            r@ == delivery_of(old(self)@.pending, model(message)),
    {
        let named: Option<String> = match get(&message, "id") {
            Some(id) => extract_id(id),
            None => None,
        };
        match named {
            Some(id) => match self.remove_pending(&id) {
                Some(responder) => Delivery::Answer { responder, message },
                None => Delivery::Unknown(id),
            },
            None => Delivery::Unaddressed(message),
        }
    }

    /// Takes up an event of the background stream.
    pub fn handle_stream_event(&mut self, event: &SseEvent) -> (r: Delivery<S>)
        requires
            old(self).well_formed(),
        ensures
            final(self).well_formed(),
            final(self)@ == (ClientModel {
                pending: pending_after_event(old(self)@.pending, event@),
                ..old(self)@
            }),
            r@ == event_delivery(old(self)@.pending, event@),
    {
        if !carries_message(event) {
            return Delivery::OtherKind;
        }
        match &event.data {
            None => Delivery::NoData,
            Some(data) => match parse(data.as_str()) {
                Ok(message) => self.handle_stream_value(message),
                Err(_) => Delivery::NotJson,
            },
        }
    }

    /// Takes the listener on the background stream on by one event.
    pub fn run_stream_listener(&mut self, event: &ListenerEvent) -> (r: (
        ListenerStage,
        Option<Delivery<S>>,
    ))
        requires
            old(self).well_formed(),
        ensures
            final(self).well_formed(),
            r.0 == listener_stage_after(*event),
            match event {
                ListenerEvent::EventReceived(received) => {
                    &&& final(self)@ == (ClientModel {
                        pending: pending_after_event(old(self)@.pending, received@),
                        ..old(self)@
                    })
                    &&& r.1 is Some
                    &&& r.1->0@ == event_delivery(old(self)@.pending, received@)
                },
                _ => final(self)@ == old(self)@ && r.1 is None,
            },
    {
        let stage = next_listener_stage(event);
        match event {
            ListenerEvent::EventReceived(received) => {
                (stage, Some(self.handle_stream_event(received)))
            },
            _ => (stage, None),
        }
    }
}

/// The JSON-RPC request with the given parts.
fn request_body(id: &str, method: &str, params: Option<Value>) -> (r: Value)
    ensures
        model(r) == request_model(id@, method@, optional_model(params)),
{
    broadcast use lemma_object_of_push;

    let mut entries: Vec<(String, Value)> = Vec::new();
    assert(object_of(entries@) == Map::<Seq<char>, JsonModel>::empty());
    entries.push(("jsonrpc".to_owned(), string(JSONRPC_VERSION.to_owned())));
    entries.push(("id".to_owned(), string(id.to_owned())));
    entries.push(("method".to_owned(), string(method.to_owned())));
    match params {
        Some(value) => {
            entries.push(("params".to_owned(), value));
        },
        None => {},
    }
    object(entries)
}

} // verus!
