//! The course of one request, from its sending to its outcome.
use vstd::prelude::*;

use axum::http::HeaderValue;
use serde_json::Value;

use crate::client::error::{ClientError, Failure};
use crate::client::reply::{
    answers, is_message, json_reply, outcome_after, reported_error, seen_after, Reply, RpcResponse,
    SseEvent,
};
use crate::http::{
    header_bytes, header_text_of, optional_header_text, status_line, success, EVENT_STREAM,
    JSON_CONTENT,
};
use crate::json::{member, model, models, parsed, parsed_bytes, JsonModel};
use crate::text::{begins_with, lower};

verus! {

/// Body that is reported where the body of a failed request could not be read.
pub const UNREADABLE_BODY: &'static str = "<failed to read response body>";

/// What a request waits for.
pub enum Stage {
    /// The head of the response.
    Head,
    /// The body of a response whose status is not success.
    ErrorBody { status: String },
    /// The body of a JSON response.
    JsonBody,
    /// The next event of the response, after the given notifications.
    Stream { notifications: Vec<Value> },
    /// The delivery of the answer over the background stream.
    Background,
}

/// What a [`Stage`] stands for.
pub enum StageModel {
    Head,
    ErrorBody { status: Seq<char> },
    JsonBody,
    Stream { seen: Seq<JsonModel> },
    Background,
}

impl View for Stage {
    type V = StageModel;

    open spec fn view(&self) -> StageModel {
        match self {
            Stage::Head => StageModel::Head,
            Stage::ErrorBody { status } => StageModel::ErrorBody { status: status@ },
            Stage::JsonBody => StageModel::JsonBody,
            Stage::Stream { notifications } => StageModel::Stream { seen: models(notifications@) },
            Stage::Background => StageModel::Background,
        }
    }
}

/// A request under way.
pub struct Exchange {
    /// The identifier of the request.
    pub id: String,
    /// Whether the answer may also come over the background stream.
    pub background: bool,
    /// What the request waits for.
    pub stage: Stage,
}

/// What an [`Exchange`] stands for.
pub struct ExchangeModel {
    pub id: Seq<char>,
    pub background: bool,
    pub stage: StageModel,
}

impl View for Exchange {
    type V = ExchangeModel;

    open spec fn view(&self) -> ExchangeModel {
        ExchangeModel { id: self.id@, background: self.background, stage: self.stage@ }
    }
}

/// What can happen to a request.
pub enum ExchangeEvent {
    /// The head of the response did not arrive in time.
    HeadTimedOut,
    /// The request could not be sent, for the given reason.
    SendFailed(String),
    /// The head of the response arrived.
    HeadReceived {
        status: u16,
        session: Option<HeaderValue>,
        content_type: Option<HeaderValue>,
    },
    /// The body of a failed request was read, or could not be read.
    ErrorBodyRead(Option<String>),
    /// The JSON body was read.
    BodyRead(Vec<u8>),
    /// The JSON body could not be read, for the given reason.
    BodyFailed(String),
    /// An event arrived.
    EventReceived(SseEvent),
    /// The event stream could not be read on.
    EventFailed,
    /// The event stream ended.
    StreamEnded,
    /// The event stream did not end in time.
    StreamTimedOut,
    /// The answer was delivered over the background stream.
    Delivered(Value),
    /// The delivery over the background stream was given up.
    DeliveryDropped,
    /// The delivery over the background stream did not happen in time.
    DeliveryTimedOut,
}

/// A request that waits in `stage` can meet with `event`.
pub open spec fn expects(stage: StageModel, event: ExchangeEvent) -> bool {
    match event {
        ExchangeEvent::HeadTimedOut => stage is Head,
        ExchangeEvent::SendFailed(_) => stage is Head,
        ExchangeEvent::HeadReceived { status, session: _, content_type: _ } => stage is Head && 100
            <= status <= 999,
        ExchangeEvent::ErrorBodyRead(_) => stage is ErrorBody,
        ExchangeEvent::BodyRead(_) => stage is JsonBody,
        ExchangeEvent::BodyFailed(_) => stage is JsonBody,
        ExchangeEvent::EventReceived(_) => stage is Stream,
        ExchangeEvent::EventFailed => stage is Stream,
        ExchangeEvent::StreamEnded => stage is Stream,
        ExchangeEvent::StreamTimedOut => stage is Stream,
        ExchangeEvent::Delivered(_) => stage is Background,
        ExchangeEvent::DeliveryDropped => stage is Background,
        ExchangeEvent::DeliveryTimedOut => stage is Background,
    }
}

/// How a request goes on.
pub enum Progress {
    /// It waits for something else.
    Continue(Exchange),
    /// It is over.
    Done(Result<RpcResponse<Value>, ClientError>),
}

/// What a [`Progress`] stands for.
pub enum ProgressModel {
    Continue(StageModel),
    Done(Result<Reply, Failure>),
}

/// The content type of a response, in lower case; empty where the header is absent or not text.
pub open spec fn content_type_of(header: Option<HeaderValue>) -> Seq<char> {
    match optional_header_text(header) {
        Some(text) => lower(text),
        None => Seq::empty(),
    }
}

/// The session header is present and not text.
pub open spec fn unreadable_session(header: Option<HeaderValue>) -> bool {
    header is Some && optional_header_text(header) is None
}

/// How a request goes on after the head of its response.
pub open spec fn progress_after_head(status: u16, content_type: Seq<char>) -> ProgressModel {
    if !success(status) {
        ProgressModel::Continue(StageModel::ErrorBody { status: status_line(status) })
    } else if begins_with(content_type, JSON_CONTENT@) {
        ProgressModel::Continue(StageModel::JsonBody)
    } else if begins_with(content_type, EVENT_STREAM@) {
        ProgressModel::Continue(StageModel::Stream { seen: Seq::empty() })
    } else {
        ProgressModel::Done(Err(Failure::UnsupportedContentType(content_type)))
    }
}

/// The outcome of a request whose answer is the JSON message `message`.
pub open spec fn outcome_of_message(message: JsonModel, id: Seq<char>) -> Result<Reply, Failure> {
    match json_reply(message, id) {
        Ok(result) => Ok(Reply { result, notifications: Seq::empty() }),
        Err(failure) => Err(failure),
    }
}

/// How the request `exchange` goes on after `event`.
pub open spec fn progress_after(exchange: ExchangeModel, event: ExchangeEvent) -> ProgressModel {
    match event {
        ExchangeEvent::HeadTimedOut => ProgressModel::Done(Err(Failure::SendTimedOut)),
        ExchangeEvent::SendFailed(reason) => ProgressModel::Done(Err(Failure::Transport(reason@))),
        ExchangeEvent::HeadReceived { status, session, content_type } => if unreadable_session(
            session,
        ) {
            ProgressModel::Done(Err(Failure::InvalidSession))
        } else {
            progress_after_head(status, content_type_of(content_type))
        },
        ExchangeEvent::ErrorBodyRead(body) => ProgressModel::Done(
            Err(
                Failure::Status {
                    status: exchange.stage->status,
                    body: match body {
                        Some(text) => text@,
                        None => UNREADABLE_BODY@,
                    },
                },
            ),
        ),
        ExchangeEvent::BodyRead(bytes) => match parsed_bytes(bytes@) {
            Some(message) => ProgressModel::Done(outcome_of_message(message, exchange.id)),
            None => ProgressModel::Done(Err(Failure::InvalidBody)),
        },
        ExchangeEvent::BodyFailed(reason) => ProgressModel::Done(Err(Failure::Transport(reason@))),
        ExchangeEvent::EventReceived(event) => match outcome_after(
            event@,
            exchange.id,
            exchange.stage->seen,
        ) {
            Some(decided) => ProgressModel::Done(decided),
            None => ProgressModel::Continue(
                StageModel::Stream { seen: seen_after(event@, exchange.id, exchange.stage->seen) },
            ),
        },
        ExchangeEvent::EventFailed => ProgressModel::Done(Err(Failure::InvalidEvent)),
        ExchangeEvent::StreamEnded => if exchange.background {
            ProgressModel::Continue(StageModel::Background)
        } else {
            ProgressModel::Done(Err(Failure::StreamClosed))
        },
        ExchangeEvent::StreamTimedOut => ProgressModel::Done(Err(Failure::StreamTimedOut)),
        ExchangeEvent::Delivered(message) => ProgressModel::Done(
            outcome_of_message(model(message), exchange.id),
        ),
        ExchangeEvent::DeliveryDropped => ProgressModel::Done(Err(Failure::BackgroundClosed)),
        ExchangeEvent::DeliveryTimedOut => ProgressModel::Done(Err(Failure::BackgroundTimedOut)),
    }
}

/// The session of the client after `event`: a readable session header of a response sets it.
pub open spec fn session_after(session: Option<Seq<char>>, event: ExchangeEvent) -> Option<
    Seq<char>,
> {
    match event {
        ExchangeEvent::HeadReceived { status: _, session: Some(header), content_type: _ } =>
            match header_text_of(header_bytes(header)) {
                Some(text) => Some(text),
                None => session,
            },
        _ => session,
    }
}

/// The responder of the request is taken out of the table at `event`.
pub open spec fn releases(exchange: ExchangeModel, event: ExchangeEvent) -> bool {
    exchange.background && match event {
        ExchangeEvent::HeadReceived { status, session, content_type } => {
            &&& !unreadable_session(session)
            &&& progress_after_head(status, content_type_of(content_type)) is Done || !success(
                status,
            )
        },
        ExchangeEvent::BodyRead(bytes) => parsed_bytes(bytes@) is Some,
        ExchangeEvent::EventReceived(event) => outcome_after(
            event@,
            exchange.id,
            exchange.stage->seen,
        ) is Some,
        ExchangeEvent::EventFailed => true,
        ExchangeEvent::StreamTimedOut => true,
        ExchangeEvent::DeliveryDropped => true,
        ExchangeEvent::DeliveryTimedOut => true,
        _ => false,
    }
}

/// The request ends because its response could not be had or not be read: it was not sent, its
/// head came too late or names no readable session, or its JSON body is missing or not JSON.
pub open spec fn ends_without_response(event: ExchangeEvent) -> bool {
    match event {
        ExchangeEvent::HeadTimedOut => true,
        ExchangeEvent::SendFailed(_) => true,
        ExchangeEvent::HeadReceived { status: _, session, content_type: _ } => unreadable_session(
            session,
        ),
        ExchangeEvent::BodyRead(bytes) => parsed_bytes(bytes@) is None,
        ExchangeEvent::BodyFailed(_) => true,
        _ => false,
    }
}

/// A request that may be answered over the background stream takes its responder back when it is
/// over. The exceptions are a request that ends without a response that could be read, and an
/// answer over the background stream, whose responder was taken to deliver it.
pub proof fn law_finished_request_is_released(exchange: ExchangeModel, event: ExchangeEvent)
    requires
        expects(exchange.stage, event),
        exchange.background,
        progress_after(exchange, event) is Done,
        !(exchange.stage is ErrorBody),
    ensures
        releases(exchange, event) <==> !ends_without_response(event) && !(event is Delivered),
{
}

/// A request whose status is not success has given its responder back before its body is read.
pub proof fn law_failed_status_is_released(exchange: ExchangeModel, event: ExchangeEvent)
    requires
        expects(exchange.stage, event),
        exchange.background,
        progress_after(exchange, event) matches ProgressModel::Continue(StageModel::ErrorBody { .. }),
    ensures
        releases(exchange, event),
{
}

/// The message that an event brings to a request.
pub open spec fn message_in(event: ExchangeEvent) -> Option<JsonModel> {
    match event {
        ExchangeEvent::BodyRead(bytes) => parsed_bytes(bytes@),
        ExchangeEvent::EventReceived(event) => match event@.data {
            Some(data) => parsed(data),
            None => None,
        },
        ExchangeEvent::Delivered(message) => Some(model(message)),
        _ => None,
    }
}

/// A request succeeds only with the result of a message that carries its own identifier and
/// reports no error, over whichever of the three ways the message came.
pub proof fn law_success_is_own_answer(exchange: ExchangeModel, event: ExchangeEvent)
    requires
        expects(exchange.stage, event),
    ensures
        progress_after(exchange, event) matches ProgressModel::Done(Ok(reply)) ==> {
            &&& message_in(event) is Some
            &&& answers(message_in(event)->0, exchange.id)
            &&& reported_error(message_in(event)->0) is None
            &&& member(message_in(event)->0, "result"@) == Some(reply.result)
        },
{
}

/// A message that carries the identifier of a request, reports no error and delivers a result ends
/// the request with that result, over whichever of the three ways the message comes.
pub proof fn law_own_answer_succeeds(
    exchange: ExchangeModel,
    event: ExchangeEvent,
    result: JsonModel,
)
    requires
        expects(exchange.stage, event),
        event matches ExchangeEvent::EventReceived(received) ==> is_message(received@),
    ensures
        message_in(event) matches Some(message) && answers(message, exchange.id) && member(
            message,
            "error"@,
        ) is None && member(message, "result"@) == Some(result) ==> {
            progress_after(exchange, event) matches ProgressModel::Done(Ok(reply)) && reply.result
                == result
        },
{
}

/// In each stage a request meets with the events of that stage and no others.
pub proof fn law_stage_and_event(event: ExchangeEvent, status: Seq<char>, seen: Seq<JsonModel>)
    ensures
        expects(StageModel::Head, event) <==> {
            ||| event is HeadTimedOut
            ||| event is SendFailed
            ||| event matches ExchangeEvent::HeadReceived { status: code, .. } && 100 <= code
                <= 999
        },
        expects((StageModel::ErrorBody { status }), event) <==> event is ErrorBodyRead,
        expects(StageModel::JsonBody, event) <==> event is BodyRead || event is BodyFailed,
        expects((StageModel::Stream { seen }), event) <==> event is EventReceived
            || event is EventFailed || event is StreamEnded || event is StreamTimedOut,
        expects(StageModel::Background, event) <==> event is Delivered || event is DeliveryDropped
            || event is DeliveryTimedOut,
{
}

/// What the head of a response decides: a session header that cannot be read ends the request, a
/// status other than success lets its body be read, and otherwise the content type decides, by how
/// it begins in lower case.
pub proof fn law_head_decides(
    exchange: ExchangeModel,
    status: u16,
    session: Option<HeaderValue>,
    content_type: Option<HeaderValue>,
)
    ensures
        ({
            let progress = progress_after(
                exchange,
                (ExchangeEvent::HeadReceived { status, session, content_type }),
            );
            let kind = match content_type {
                Some(header) => match header_text_of(header_bytes(header)) {
                    Some(text) => lower(text),
                    None => Seq::empty(),
                },
                None => Seq::empty(),
            };
            let unreadable = session matches Some(header) && header_text_of(
                header_bytes(header),
            ) is None;
            let good = 200 <= status < 300;
            &&& unreadable ==> progress == ProgressModel::Done(
                Err::<Reply, Failure>(Failure::InvalidSession),
            )
            &&& !unreadable && !good ==> progress == ProgressModel::Continue(
                StageModel::ErrorBody { status: status_line(status) },
            )
            &&& !unreadable && good && begins_with(kind, "application/json"@) ==> progress
                == ProgressModel::Continue(StageModel::JsonBody)
            &&& !unreadable && good && !begins_with(kind, "application/json"@) && begins_with(
                kind,
                "text/event-stream"@,
            ) ==> progress == ProgressModel::Continue(StageModel::Stream { seen: Seq::empty() })
            &&& !unreadable && good && !begins_with(kind, "application/json"@) && !begins_with(
                kind,
                "text/event-stream"@,
            ) ==> progress == ProgressModel::Done(
                Err::<Reply, Failure>(Failure::UnsupportedContentType(kind)),
            )
        }),
{
}

/// What the other events decide, each with its own failure.
pub proof fn law_failures_of_a_request(
    exchange: ExchangeModel,
    reason: String,
    body: String,
    status: Seq<char>,
)
    ensures
        ({
            let failed = ExchangeModel { stage: StageModel::ErrorBody { status }, ..exchange };
            let alone = ExchangeModel { background: false, ..exchange };
            let listened = ExchangeModel { background: true, ..exchange };
            &&& progress_after(exchange, ExchangeEvent::HeadTimedOut) == ProgressModel::Done(
                Err::<Reply, Failure>(Failure::SendTimedOut),
            )
            &&& progress_after(exchange, ExchangeEvent::SendFailed(reason)) == ProgressModel::Done(
                Err::<Reply, Failure>(Failure::Transport(reason@)),
            )
            &&& progress_after(failed, ExchangeEvent::ErrorBodyRead(Some(body)))
                == ProgressModel::Done(
                Err::<Reply, Failure>(Failure::Status { status, body: body@ }),
            )
            &&& progress_after(failed, ExchangeEvent::ErrorBodyRead(None)) == ProgressModel::Done(
                Err::<Reply, Failure>(
                    Failure::Status { status, body: "<failed to read response body>"@ },
                ),
            )
            &&& progress_after(exchange, ExchangeEvent::BodyFailed(reason)) == ProgressModel::Done(
                Err::<Reply, Failure>(Failure::Transport(reason@)),
            )
            &&& progress_after(exchange, ExchangeEvent::EventFailed) == ProgressModel::Done(
                Err::<Reply, Failure>(Failure::InvalidEvent),
            )
            &&& progress_after(exchange, ExchangeEvent::StreamTimedOut) == ProgressModel::Done(
                Err::<Reply, Failure>(Failure::StreamTimedOut),
            )
            &&& progress_after(alone, ExchangeEvent::StreamEnded) == ProgressModel::Done(
                Err::<Reply, Failure>(Failure::StreamClosed),
            )
            &&& progress_after(listened, ExchangeEvent::StreamEnded) == ProgressModel::Continue(
                StageModel::Background,
            )
            &&& progress_after(exchange, ExchangeEvent::DeliveryDropped) == ProgressModel::Done(
                Err::<Reply, Failure>(Failure::BackgroundClosed),
            )
            &&& progress_after(exchange, ExchangeEvent::DeliveryTimedOut) == ProgressModel::Done(
                Err::<Reply, Failure>(Failure::BackgroundTimedOut),
            )
        }),
{
}

/// A body and a delivery end a request by what their message says as its answer, without
/// notifications; a body that is not JSON fails it.
pub proof fn law_message_ends_a_request(
    exchange: ExchangeModel,
    bytes: Vec<u8>,
    delivered: Value,
)
    ensures
        parsed_bytes(bytes@) is None ==> progress_after(exchange, ExchangeEvent::BodyRead(bytes))
            == ProgressModel::Done(Err::<Reply, Failure>(Failure::InvalidBody)),
        parsed_bytes(bytes@) matches Some(message) ==> progress_after(
            exchange,
            ExchangeEvent::BodyRead(bytes),
        ) == ProgressModel::Done(
            match json_reply(message, exchange.id) {
                Ok(result) => Ok(Reply { result, notifications: Seq::empty() }),
                Err(failure) => Err(failure),
            },
        ),
        progress_after(exchange, ExchangeEvent::Delivered(delivered)) == ProgressModel::Done(
            match json_reply(model(delivered), exchange.id) {
                Ok(result) => Ok(Reply { result, notifications: Seq::empty() }),
                Err(failure) => Err(failure),
            },
        ),
{
}

/// An event of the response's own stream ends a request as it decides it, or is added to what was
/// seen.
pub proof fn law_streamed_event_in_a_request(
    exchange: ExchangeModel,
    seen: Seq<JsonModel>,
    event: SseEvent,
)
    ensures
        ({
            let reading = ExchangeModel { stage: StageModel::Stream { seen }, ..exchange };
            progress_after(reading, ExchangeEvent::EventReceived(event)) == (match outcome_after(
                event@,
                exchange.id,
                seen,
            ) {
                Some(decided) => ProgressModel::Done(decided),
                None => ProgressModel::Continue(
                    StageModel::Stream { seen: seen_after(event@, exchange.id, seen) },
                ),
            })
        }),
{
}

/// A request and its stage stand for their parts, each for itself.
pub proof fn law_request_stands_for_its_parts(
    exchange: Exchange,
    status: String,
    notifications: Vec<Value>,
)
    ensures
        exchange@.id == exchange.id@,
        exchange@.background == exchange.background,
        exchange@.stage == exchange.stage@,
        Stage::Head@ == StageModel::Head,
        (Stage::ErrorBody { status })@ == (StageModel::ErrorBody { status: status@ }),
        Stage::JsonBody@ == StageModel::JsonBody,
        (Stage::Stream { notifications })@ == (StageModel::Stream {
            seen: models(notifications@),
        }),
        Stage::Background@ == StageModel::Background,
{
}

} // verus!
