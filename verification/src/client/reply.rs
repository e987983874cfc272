//! Reading the answer to a request out of a JSON body or an event stream.
use vstd::prelude::*;

use serde_json::Value;

use crate::client::error::{ClientError, Failure};
use crate::json::{as_i64, as_str, copy, get, number_text, parse};
use crate::json::{
    i64_of, member, model, models, number_notation, parsed, str_of, JsonModel, NumberModel,
};
use crate::text::{decimal, same_text};

verus! {

/// The answer to a request, with what else arrived on the way.
pub struct RpcResponse<R> {
    pub result: R,
    pub notifications: Vec<Value>,
}

/// One server-sent event.
pub struct SseEvent {
    pub event: Option<String>,
    pub data: Option<String>,
}

/// What an [`SseEvent`] stands for.
pub struct EventModel {
    pub event: Option<Seq<char>>,
    pub data: Option<Seq<char>>,
}

/// The text of an optional string.
pub open spec fn optional_text(text: Option<String>) -> Option<Seq<char>> {
    match text {
        Some(t) => Some(t@),
        None => None,
    }
}

impl View for SseEvent {
    type V = EventModel;

    open spec fn view(&self) -> EventModel {
        EventModel { event: optional_text(self.event), data: optional_text(self.data) }
    }
}

/// The request that an `id` member names: a string names itself, a number its notation.
pub open spec fn id_text(id: JsonModel) -> Option<Seq<char>> {
    match id {
        JsonModel::Str(text) => Some(text),
        JsonModel::Number(number) => Some(number_notation(number)),
        _ => None,
    }
}

/// The message is addressed to the request `expected`.
pub open spec fn answers(message: JsonModel, expected: Seq<char>) -> bool {
    match member(message, "id"@) {
        Some(id) => id_text(id) == Some(expected),
        None => false,
    }
}

/// The error that a message reports.
pub open spec fn reported_error(message: JsonModel) -> Option<Failure> {
    match member(message, "error"@) {
        Some(error) => Some(
            Failure::Mcp {
                code: match member(error, "code"@) {
                    Some(code) => match i64_of(code) {
                        Some(n) => n,
                        None => 0,
                    },
                    None => 0,
                },
                message: match member(error, "message"@) {
                    Some(text) => match str_of(text) {
                        Some(t) => t,
                        None => "unknown error"@,
                    },
                    None => "unknown error"@,
                },
            },
        ),
        None => None,
    }
}

/// The result that a message delivers.
pub open spec fn delivered_result(message: JsonModel) -> Result<JsonModel, Failure> {
    match member(message, "result"@) {
        Some(result) => Ok(result),
        None => Err(Failure::MissingResult),
    }
}

/// What a JSON message is as the answer to the request `expected`.
pub open spec fn json_reply(message: JsonModel, expected: Seq<char>) -> Result<
    JsonModel,
    Failure,
> {
    match reported_error(message) {
        Some(failure) => Err(failure),
        None => if answers(message, expected) {
            delivered_result(message)
        } else {
            Err(Failure::UnexpectedId(expected))
        },
    }
}

/// What one event means to a request that reads its own event stream.
pub enum Verdict {
    /// The event is of another kind and is passed over.
    Skip,
    /// The event carries a message that does not answer the request.
    Notification(JsonModel),
    /// The event answers the request.
    Answer(JsonModel),
    /// The event ends the request with a failure.
    Fail(Failure),
}

/// The event is of the kind that carries messages.
pub open spec fn is_message(event: EventModel) -> bool {
    event.event is None || event.event == Some("message"@)
}

/// What an event means to the request `expected`.
pub open spec fn verdict(event: EventModel, expected: Seq<char>) -> Verdict {
    if !is_message(event) {
        Verdict::Skip
    } else {
        match event.data {
            None => Verdict::Fail(Failure::MissingData),
            Some(data) => match parsed(data) {
                None => Verdict::Fail(Failure::InvalidPayload),
                Some(message) => match reported_error(message) {
                    Some(failure) => Verdict::Fail(failure),
                    None => if !answers(message, expected) {
                        Verdict::Notification(message)
                    } else {
                        match delivered_result(message) {
                            Ok(result) => Verdict::Answer(result),
                            Err(failure) => Verdict::Fail(failure),
                        }
                    },
                },
            },
        }
    }
}

/// What a [`RpcResponse`] stands for.
pub struct Reply {
    pub result: JsonModel,
    pub notifications: Seq<JsonModel>,
}

impl View for RpcResponse<Value> {
    type V = Reply;

    open spec fn view(&self) -> Reply {
        Reply { result: model(self.result), notifications: models(self.notifications@) }
    }
}

/// What the outcome of a request stands for.
pub open spec fn outcome(r: Result<RpcResponse<Value>, ClientError>) -> Result<Reply, Failure> {
    match r {
        Ok(response) => Ok(response@),
        Err(error) => Err(error@),
    }
}

/// The outcome of a request to whose event stream one event is added, `seen` being the
/// notifications before it; nothing where the event leaves the request open.
pub open spec fn outcome_after(
    event: EventModel,
    expected: Seq<char>,
    seen: Seq<JsonModel>,
) -> Option<Result<Reply, Failure>> {
    match verdict(event, expected) {
        Verdict::Answer(result) => Some(Ok(Reply { result, notifications: seen })),
        Verdict::Fail(failure) => Some(Err(failure)),
        _ => None,
    }
}

/// The notifications that are known after one more event.
pub open spec fn seen_after(event: EventModel, expected: Seq<char>, seen: Seq<JsonModel>) -> Seq<
    JsonModel,
> {
    match verdict(event, expected) {
        Verdict::Notification(message) => seen.push(message),
        _ => seen,
    }
}

/// The outcome of a request whose event stream holds `events`; nothing where the stream ends
/// without an answer.
pub open spec fn stream_outcome(
    events: Seq<EventModel>,
    expected: Seq<char>,
    seen: Seq<JsonModel>,
) -> Option<Result<Reply, Failure>>
    decreases events.len(),
{
    if events.len() == 0 {
        None
    } else {
        match outcome_after(events[0], expected, seen) {
            Some(decided) => Some(decided),
            None => stream_outcome(
                events.drop_first(),
                expected,
                seen_after(events[0], expected, seen),
            ),
        }
    }
}

/// The notifications among events that all leave the request open.
pub open spec fn notifications_in(events: Seq<EventModel>, expected: Seq<char>) -> Seq<JsonModel>
    decreases events.len(),
{
    if events.len() == 0 {
        Seq::empty()
    } else {
        seen_after(events.last(), expected, notifications_in(events.drop_last(), expected))
    }
}

/// The event leaves the request open.
pub open spec fn leaves_open(event: EventModel, expected: Seq<char>) -> bool {
    verdict(event, expected) is Skip || verdict(event, expected) is Notification
}

proof fn lemma_stream_outcome_from(events: Seq<EventModel>, expected: Seq<char>, from: int)
    requires
        0 <= from <= events.len(),
        forall|j: int| 0 <= j < from ==> leaves_open(#[trigger] events[j], expected),
    ensures
        stream_outcome(events, expected, Seq::empty()) == stream_outcome(
            events.skip(from),
            expected,
            notifications_in(events.take(from), expected),
        ),
    decreases from,
{
    if from == 0 {
        assert(events.skip(0) =~= events);
        assert(events.take(0) =~= Seq::<EventModel>::empty());
    } else {
        lemma_stream_outcome_from(events, expected, from - 1);
        let rest = events.skip(from - 1);
        assert(rest[0] == events[from - 1]);
        assert(rest.drop_first() =~= events.skip(from));
        assert(events.take(from).drop_last() =~= events.take(from - 1));
        assert(events.take(from).last() == events[from - 1]);
        assert(leaves_open(events[from - 1], expected));
    }
}

/// A request that reads its event stream is decided by the first event that does not leave it
/// open, and its answer comes with the notifications among the events before that one, in order.
/// It stays undecided exactly where all events leave it open.
pub proof fn law_first_decisive_event(events: Seq<EventModel>, expected: Seq<char>)
    ensures
        match stream_outcome(events, expected, Seq::empty()) {
            Some(decided) => exists|at: int|
                {
                    &&& 0 <= at < events.len()
                    &&& forall|j: int| 0 <= j < at ==> leaves_open(#[trigger] events[j], expected)
                    &&& outcome_after(
                        #[trigger] events[at],
                        expected,
                        notifications_in(events.take(at), expected),
                    ) == Some(decided)
                },
            None => forall|j: int|
                0 <= j < events.len() ==> leaves_open(#[trigger] events[j], expected),
        },
{
    if forall|j: int| 0 <= j < events.len() ==> leaves_open(#[trigger] events[j], expected) {
        lemma_stream_outcome_from(events, expected, events.len() as int);
    } else {
        let at = lemma_first_decisive(events, expected);
        lemma_stream_outcome_from(events, expected, at);
        assert(events.skip(at)[0] == events[at]);
    }
}

proof fn lemma_first_decisive(events: Seq<EventModel>, expected: Seq<char>) -> (at: int)
    requires
        exists|j: int| 0 <= j < events.len() && !leaves_open(#[trigger] events[j], expected),
    ensures
        0 <= at < events.len(),
        !leaves_open(events[at], expected),
        forall|j: int| 0 <= j < at ==> leaves_open(#[trigger] events[j], expected),
    decreases events.len(),
{
    let j = choose|j: int| 0 <= j < events.len() && !leaves_open(#[trigger] events[j], expected);
    if exists|i: int| 0 <= i < j && !leaves_open(#[trigger] events[i], expected) {
        let i = choose|i: int| 0 <= i < j && !leaves_open(#[trigger] events[i], expected);
        assert(events.take(j)[i] == events[i]);
        let at = lemma_first_decisive(events.take(j), expected);
        assert forall|k: int| 0 <= k < at implies leaves_open(#[trigger] events[k], expected) by {
            assert(events.take(j)[k] == events[k]);
        }
        at
    } else {
        j
    }
}

/// A request is never answered by a message that is addressed to another request or that reports
/// an error: what it returns is the result of a message that carries its own identifier.
pub proof fn law_answer_is_addressed(message: JsonModel, expected: Seq<char>)
    ensures
        json_reply(message, expected) is Ok <==> {
            &&& answers(message, expected)
            &&& member(message, "error"@) is None
            &&& member(message, "result"@) is Some
        },
        json_reply(message, expected) is Ok ==> member(message, "result"@) == Some(
            json_reply(message, expected)->Ok_0,
        ),
{
}

/// An event and a JSON body that carry the same message give a request the same answer, and the
/// same failure where the message reports an error or lacks a result; only a message for another
/// request fails as a body and is a notification as an event.
pub proof fn law_event_agrees_with_body(data: Seq<char>, expected: Seq<char>)
    ensures
        parsed(data) matches Some(message) ==> verdict(
            EventModel { event: None, data: Some(data) },
            expected,
        ) == (match json_reply(message, expected) {
            Ok(result) => Verdict::Answer(result),
            Err(Failure::UnexpectedId(_)) => Verdict::Notification(message),
            Err(failure) => Verdict::Fail(failure),
        }),
{
}

/// The request that an `id` member names; nothing where it is neither a string nor a number.
pub fn extract_id(id: &Value) -> (r: Option<String>)
    ensures
        optional_text(r) == id_text(model(*id)),
{
    match as_str(id) {
        Some(text) => Some(text.to_owned()),
        None => number_text(id),
    }
}

/// Whether a message is addressed to the request `expected_id`.
pub fn is_answer_to(message: &Value, expected_id: &str) -> (r: bool)
    ensures
        r == answers(model(*message), expected_id@),
{
    match get(message, "id") {
        Some(id) => match extract_id(id) {
            Some(text) => same_text(text.as_str(), expected_id),
            None => false,
        },
        None => false,
    }
}

/// The error that a message reports.
pub fn error_in(message: &Value) -> (r: Option<ClientError>)
    ensures
        match r {
            Some(error) => reported_error(model(*message)) == Some(error@),
            None => reported_error(model(*message)) is None,
        },
{
    match get(message, "error") {
        Some(error) => {
            let code: i64 = match get(error, "code") {
                Some(code) => match as_i64(code) {
                    Some(n) => n,
                    None => 0,
                },
                None => 0,
            };
            let text: String = match get(error, "message") {
                Some(text) => match as_str(text) {
                    Some(t) => t.to_owned(),
                    None => "unknown error".to_owned(),
                },
                None => "unknown error".to_owned(),
            };
            Some(ClientError::Mcp { code, message: text })
        },
        None => None,
    }
}

/// The result that a message delivers.
pub fn result_in(message: &Value) -> (r: Result<Value, ClientError>)
    ensures
        match r {
            Ok(result) => delivered_result(model(*message)) == Ok::<JsonModel, Failure>(
                model(result),
            ),
            Err(error) => delivered_result(model(*message)) == Err::<JsonModel, Failure>(error@),
        },
{
    match get(message, "result") {
        Some(result) => Ok(copy(result)),
        None => Err(ClientError::MissingResult),
    }
}

/// The answer to the request `expected_id` in a JSON message.
pub fn parse_json_response(message: Value, expected_id: &str) -> (r: Result<
    RpcResponse<Value>,
    ClientError,
>)
    ensures
        outcome(r) == (match json_reply(model(message), expected_id@) {
            Ok(result) => Ok(Reply { result, notifications: Seq::empty() }),
            Err(failure) => Err(failure),
        }),
{
    match error_in(&message) {
        Some(error) => Err(error),
        None => {
            if !is_answer_to(&message, expected_id) {
                return Err(ClientError::UnexpectedId(expected_id.to_owned()));
            }
            match result_in(&message) {
                Ok(result) => {
                    let notifications: Vec<Value> = Vec::new();
                    assert(models(notifications@) =~= Seq::<JsonModel>::empty());
                    Ok(RpcResponse { result, notifications })
                },
                Err(error) => Err(error),
            }
        },
    }
}

/// Whether an event is of the kind that carries messages.
pub fn carries_message(event: &SseEvent) -> (r: bool)
    ensures
        r == is_message(event@),
{
    match &event.event {
        Some(kind) => same_text(kind.as_str(), "message"),
        None => true,
    }
}

/// How far the reading of a request's event stream has come.
pub enum StreamProgress {
    /// The stream has to be read on, with these notifications so far.
    Open(Vec<Value>),
    /// The request is decided.
    Decided(Result<RpcResponse<Value>, ClientError>),
}

/// Takes up one event of the event stream that answers the request `expected_id`, `notifications`
/// being what arrived before it.
pub fn parse_sse_event(event: &SseEvent, expected_id: &str, notifications: Vec<Value>) -> (r:
    StreamProgress)
    ensures
        match r {
            StreamProgress::Open(seen) => {
                &&& outcome_after(event@, expected_id@, models(notifications@)) is None
                &&& models(seen@) == seen_after(event@, expected_id@, models(notifications@))
            },
            StreamProgress::Decided(decided) => outcome_after(
                event@,
                expected_id@,
                models(notifications@),
            ) == Some(outcome(decided)),
        },
{
    if !carries_message(event) {
        return StreamProgress::Open(notifications);
    }
    let data: &String = match &event.data {
        Some(data) => data,
        None => {
            return StreamProgress::Decided(Err(ClientError::MissingData));
        },
    };
    let message: Value = match parse(data.as_str()) {
        Ok(message) => message,
        Err(_) => {
            return StreamProgress::Decided(Err(ClientError::InvalidPayload));
        },
    };
    match error_in(&message) {
        Some(error) => {
            return StreamProgress::Decided(Err(error));
        },
        None => {},
    }
    if is_answer_to(&message, expected_id) {
        match result_in(&message) {
            Ok(result) => StreamProgress::Decided(Ok(RpcResponse { result, notifications })),
            Err(error) => StreamProgress::Decided(Err(error)),
        }
    } else {
        let mut seen = notifications;
        let ghost before = models(seen@);
        seen.push(message);
        assert(models(seen@) =~= before.push(model(message)));
        StreamProgress::Open(seen)
    }
}

/// A text names the request with that text, a number the one with its notation; nothing else names
/// a request.
pub proof fn law_identifier_names_its_request(text: Seq<char>, n: int, other: JsonModel)
    ensures
        id_text(JsonModel::Str(text)) == Some(text),
        id_text(JsonModel::Number(NumberModel::Int(n))) == Some(decimal(n)),
        id_text(JsonModel::Number(NumberModel::Float(text))) == Some(text),
        !(other is Str) && !(other is Number) ==> id_text(other) is None,
{
}

/// A message is addressed to a request exactly where it has an identifier that names the request.
pub proof fn law_message_is_addressed(map: Map<Seq<char>, JsonModel>, expected: Seq<char>)
    ensures
        answers(JsonModel::Object(map), expected) <==> map.dom().contains("id"@) && {
            ||| map["id"@] == JsonModel::Str(expected)
            ||| map["id"@] matches JsonModel::Number(NumberModel::Int(n)) && decimal(n) == expected
            ||| map["id"@] == JsonModel::Number(NumberModel::Float(expected))
        },
{
}

/// A message with an error reports it, whatever else it holds: with the code where that is an
/// integer of 64 signed bits and zero otherwise, with the message where that is text and a general
/// one otherwise.
pub proof fn law_error_is_reported(map: Map<Seq<char>, JsonModel>, expected: Seq<char>)
    requires
        map.dom().contains("error"@),
    ensures
        ({
            let error = map["error"@];
            let parts = if error is Object {
                error->Object_0
            } else {
                Map::empty()
            };
            let code: int = match (parts.dom().contains("code"@), parts["code"@]) {
                (true, JsonModel::Number(NumberModel::Int(n))) => if i64::MIN <= n <= i64::MAX {
                    n
                } else {
                    0
                },
                _ => 0,
            };
            let text = match (parts.dom().contains("message"@), parts["message"@]) {
                (true, JsonModel::Str(text)) => text,
                _ => "unknown error"@,
            };
            &&& reported_error(JsonModel::Object(map)) == Some(
                Failure::Mcp { code: code as i64, message: text },
            )
            &&& json_reply(JsonModel::Object(map), expected) == Err::<JsonModel, Failure>(
                Failure::Mcp { code: code as i64, message: text },
            )
        }),
{
}

/// A message without an error gives a request its result where the message is addressed to it, and
/// fails it where the message has no result or is addressed to another.
pub proof fn law_message_without_error(
    map: Map<Seq<char>, JsonModel>,
    other: JsonModel,
    expected: Seq<char>,
)
    requires
        !map.dom().contains("error"@),
        !(other is Object),
    ensures
        ({
            let reply = json_reply(JsonModel::Object(map), expected);
            let named = map.dom().contains("id"@) && id_text(map["id"@]) == Some(expected);
            &&& reported_error(JsonModel::Object(map)) is None
            &&& named && map.dom().contains("result"@) ==> reply == Ok::<JsonModel, Failure>(
                map["result"@],
            )
            &&& named && !map.dom().contains("result"@) ==> reply == Err::<JsonModel, Failure>(
                Failure::MissingResult,
            )
            &&& !named ==> reply == Err::<JsonModel, Failure>(Failure::UnexpectedId(expected))
        }),
        reported_error(other) is None,
        json_reply(other, expected) == Err::<JsonModel, Failure>(Failure::UnexpectedId(expected)),
        delivered_result(JsonModel::Object(map)) == (if map.dom().contains("result"@) {
            Ok(map["result"@])
        } else {
            Err::<JsonModel, Failure>(Failure::MissingResult)
        }),
{
}

/// An event carries a message exactly where it has no kind or the kind `message`.
pub proof fn law_message_events(event: EventModel)
    ensures
        is_message(event) <==> (event.event matches Some(kind) ==> kind == "message"@),
{
}

/// An event of another kind than `message` leaves a request as it is, whatever its data.
pub proof fn law_other_kind_changes_nothing(
    kind: Seq<char>,
    data: Option<Seq<char>>,
    expected: Seq<char>,
    seen: Seq<JsonModel>,
)
    requires
        kind != "message"@,
    ensures
        outcome_after(EventModel { event: Some(kind), data }, expected, seen) is None,
        seen_after(EventModel { event: Some(kind), data }, expected, seen) == seen,
{
}

/// An event without a kind and one of the kind `message` do the same to a request, by what their
/// data says: an error fails it, its own answer ends it with the notifications so far, its own
/// answer without a result fails it, and any other message is one more notification. Data that is
/// missing or not JSON fails it.
pub proof fn law_message_event_does_what_its_message_says(
    kind: Option<Seq<char>>,
    data: Seq<char>,
    expected: Seq<char>,
    seen: Seq<JsonModel>,
)
    requires
        kind is None || kind == Some("message"@),
    ensures
        ({
            let event = EventModel { event: kind, data: Some(data) };
            let blank = EventModel { event: kind, data: None };
            &&& outcome_after(blank, expected, seen) == Some(
                Err::<Reply, Failure>(Failure::MissingData),
            )
            &&& seen_after(blank, expected, seen) == seen
            &&& parsed(data) is None ==> {
                &&& outcome_after(event, expected, seen) == Some(
                    Err::<Reply, Failure>(Failure::InvalidPayload),
                )
                &&& seen_after(event, expected, seen) == seen
            }
            &&& parsed(data) matches Some(message) ==> {
                let outcome = outcome_after(event, expected, seen);
                let own = answers(message, expected);
                &&& member(message, "error"@) is Some ==> {
                    &&& outcome is Some
                    &&& outcome->0 == Err::<Reply, Failure>(reported_error(message)->0)
                    &&& reported_error(message) is Some
                }
                &&& member(message, "error"@) is None && own ==> match member(
                    message,
                    "result"@,
                ) {
                    Some(result) => outcome == Some(
                        Ok::<Reply, Failure>(Reply { result, notifications: seen }),
                    ),
                    None => outcome == Some(Err::<Reply, Failure>(Failure::MissingResult)),
                }
                &&& member(message, "error"@) is None && !own ==> outcome is None && seen_after(
                    event,
                    expected,
                    seen,
                ) == seen.push(message)
                &&& outcome is Some ==> seen_after(event, expected, seen) == seen
                &&& verdict(event, expected) == (match json_reply(message, expected) {
                    Ok(result) => Verdict::Answer(result),
                    Err(Failure::UnexpectedId(_)) => Verdict::Notification(message),
                    Err(failure) => Verdict::Fail(failure),
                })
            }
        }),
{
}

/// The parts of an answer and of an event stand for themselves.
pub proof fn law_answers_and_events_stand_for_their_parts(
    response: RpcResponse<Value>,
    event: SseEvent,
    error: ClientError,
    text: String,
)
    ensures
        outcome(Ok(response)) == Ok::<Reply, Failure>(
            Reply { result: model(response.result), notifications: models(response.notifications@) },
        ),
        outcome(Err(error)) == Err::<Reply, Failure>(error@),
        event@.event is None <==> event.event is None,
        event.event matches Some(kind) ==> event@.event == Some(kind@),
        event@.data is None <==> event.data is None,
        event.data matches Some(data) ==> event@.data == Some(data@),
        optional_text(Some(text)) == Some(text@),
        optional_text(None) is None,
{
}

} // verus!
