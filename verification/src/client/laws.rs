//! What holds of a client over several of its operations.
use vstd::prelude::*;

use serde_json::Value;

use crate::client::error::Failure;
use crate::client::exchange::{
    ends_without_response, expects, law_finished_request_is_released, outcome_of_message,
    progress_after, Exchange, ExchangeEvent, ExchangeModel, Progress, ProgressModel, StageModel,
};
use crate::client::listener::{
    addressee, delivery_of, pending_after, pending_after_event, DeliveryModel,
};
use crate::client::reply::{
    answers, optional_text, outcome_after, stream_outcome, EventModel, Reply, SseEvent,
};
use crate::client::state::{
    client_after, client_after_begin, is_begun, is_next_request, request_model, stands_for,
    waiting_are_earlier, ClientModel, PostRequest,
};
use crate::http::{header_bytes, header_text_of, optional_header_text};
use crate::json::{model, models, parsed_bytes, JsonModel};
use crate::message::lemma_member_names;
use crate::text::{begins_with, decimal, lemma_decimal_injective, lower};

verus! {

/// Two requests with different numbers have different identifiers.
pub proof fn law_request_ids_differ(a: u64, b: u64)
    requires
        a != b,
    ensures
        decimal(a as int) != decimal(b as int),
{
    if decimal(a as int) == decimal(b as int) {
        lemma_decimal_injective(a as int, b as int);
    }
}

/// A new request takes the place of no request that waits, until the numbers run out.
pub proof fn law_new_request_replaces_nobody<S>(client: ClientModel<S>, responder: Option<S>)
    requires
        waiting_are_earlier(client),
        client.next_id < u64::MAX,
    ensures
        !client.pending.dom().contains(decimal(client.next_id as int)),
        waiting_are_earlier(client_after_begin(client, responder)),
{
    let id = decimal(client.next_id as int);
    if client.pending.dom().contains(id) {
        let n = choose|n: int| 0 <= n < client.next_id && #[trigger] decimal(n) == id;
        lemma_decimal_injective(n, client.next_id as int);
    }
    let after = client_after_begin(client, responder);
    assert forall|key: Seq<char>| #[trigger] after.pending.dom().contains(key) implies exists|n: int|
        0 <= n < after.next_id && #[trigger] decimal(n) == key by {
        if client.pending.dom().contains(key) {
            let n = choose|n: int| 0 <= n < client.next_id && #[trigger] decimal(n) == key;
            assert(0 <= n < after.next_id && decimal(n) == key);
        } else {
            assert(decimal(client.next_id as int) == key);
        }
    }
}

/// Neither the course of a request nor the background stream makes a later number wait.
pub proof fn law_waiting_stay_earlier<S>(
    client: ClientModel<S>,
    exchange: ExchangeModel,
    event: ExchangeEvent,
    streamed: EventModel,
)
    requires
        waiting_are_earlier(client),
    ensures
        waiting_are_earlier(client_after(client, exchange, event)),
        waiting_are_earlier(
            ClientModel { pending: pending_after_event(client.pending, streamed), ..client },
        ),
{
    let first = client_after(client, exchange, event);
    assert forall|id: Seq<char>| #[trigger] first.pending.dom().contains(id) implies exists|n: int|
        0 <= n < first.next_id && #[trigger] decimal(n) == id by {
        assert(client.pending.dom().contains(id));
    }
    let second = ClientModel { pending: pending_after_event(client.pending, streamed), ..client };
    assert forall|id: Seq<char>| #[trigger] second.pending.dom().contains(id) implies exists|n: int|
        0 <= n < second.next_id && #[trigger] decimal(n) == id by {
        assert(client.pending.dom().contains(id));
    }
}

/// The course of one request leaves the responders of all others in place.
pub proof fn law_requests_are_independent<S>(
    client: ClientModel<S>,
    exchange: ExchangeModel,
    event: ExchangeEvent,
    other: Seq<char>,
)
    requires
        other != exchange.id,
    ensures
        client_after(client, exchange, event).pending.dom().contains(other)
            == client.pending.dom().contains(other),
        client.pending.dom().contains(other) ==> client_after(
            client,
            exchange,
            event,
        ).pending[other] == client.pending[other],
{
}

/// The session that a response names is sent with the next request.
pub proof fn law_session_is_sent_back<S>(
    client: ClientModel<S>,
    exchange: ExchangeModel,
    event: ExchangeEvent,
    method: Seq<char>,
    params: Option<JsonModel>,
    request: PostRequest,
)
    requires
        event matches ExchangeEvent::HeadReceived { session, .. } && optional_header_text(
            session,
        ) is Some,
        is_next_request(client_after(client, exchange, event), method, params, request),
    ensures
        event matches ExchangeEvent::HeadReceived { session, .. } ==> optional_text(request.session)
            == optional_header_text(session),
{
}

/// What the background stream delivers to a request is addressed to it, so that the request is
/// never refused for a wrong identifier.
pub proof fn law_delivered_message_is_addressed<S>(
    pending: Map<Seq<char>, S>,
    message: JsonModel,
    id: Seq<char>,
)
    requires
        delivery_of(pending, message) is Answer,
        addressee(message) == Some(id),
    ensures
        delivery_of(pending, message) == (DeliveryModel::Answer { responder: pending[id], message }),
        answers(message, id),
        !(outcome_of_message(message, id) matches Err(Failure::UnexpectedId(_))),
{
}

/// How a request goes on that reads the events of its stream one after the other.
pub open spec fn progress_over(exchange: ExchangeModel, events: Seq<SseEvent>) -> ProgressModel
    decreases events.len(),
{
    if events.len() == 0 {
        ProgressModel::Continue(exchange.stage)
    } else {
        match progress_after(exchange, ExchangeEvent::EventReceived(events[0])) {
            ProgressModel::Continue(stage) => progress_over(
                ExchangeModel { stage, ..exchange },
                events.drop_first(),
            ),
            ProgressModel::Done(decided) => ProgressModel::Done(decided),
        }
    }
}

/// The events of a sequence as what they stand for.
pub open spec fn event_models(events: Seq<SseEvent>) -> Seq<EventModel> {
    Seq::new(events.len(), |i: int| events[i]@)
}

/// Reading a stream event by event gives the outcome of the stream as a whole, and leaves the
/// request open where the stream decides nothing.
pub proof fn law_events_add_up(exchange: ExchangeModel, events: Seq<SseEvent>)
    requires
        exchange.stage is Stream,
    ensures
        match stream_outcome(event_models(events), exchange.id, exchange.stage->seen) {
            Some(decided) => progress_over(exchange, events) == ProgressModel::Done(decided),
            None => progress_over(exchange, events) matches ProgressModel::Continue(
                StageModel::Stream { .. },
            ),
        },
    decreases events.len(),
{
    if events.len() > 0 {
        assert(event_models(events)[0] == events[0]@);
        assert(event_models(events).drop_first() =~= event_models(events.drop_first()));
        match progress_after(exchange, ExchangeEvent::EventReceived(events[0])) {
            ProgressModel::Continue(stage) => {
                law_events_add_up(ExchangeModel { stage, ..exchange }, events.drop_first());
            },
            ProgressModel::Done(_) => {},
        }
    }
}

/// The client, and how its request `exchange` goes on, after events that happen to the request one
/// after the other; what comes after its end is passed over.
pub open spec fn run_over<S>(
    client: ClientModel<S>,
    exchange: ExchangeModel,
    events: Seq<ExchangeEvent>,
) -> (ClientModel<S>, ProgressModel)
    decreases events.len(),
{
    if events.len() == 0 {
        (client, ProgressModel::Continue(exchange.stage))
    } else {
        let after = client_after(client, exchange, events[0]);
        match progress_after(exchange, events[0]) {
            ProgressModel::Continue(stage) => run_over(
                after,
                ExchangeModel { stage, ..exchange },
                events.drop_first(),
            ),
            ProgressModel::Done(decided) => (after, ProgressModel::Done(decided)),
        }
    }
}

/// Each event can happen to the request in the stage that it has reached by then.
pub open spec fn can_happen(exchange: ExchangeModel, events: Seq<ExchangeEvent>) -> bool
    decreases events.len(),
{
    events.len() == 0 || {
        &&& expects(exchange.stage, events[0])
        &&& progress_after(exchange, events[0]) matches ProgressModel::Continue(stage)
            ==> can_happen(ExchangeModel { stage, ..exchange }, events.drop_first())
    }
}

/// The event brings a response that could be read, over the request itself.
pub open spec fn responds(event: ExchangeEvent) -> bool {
    !ends_without_response(event) && !(event is Delivered)
}

proof fn lemma_run_releases<S>(
    client: ClientModel<S>,
    exchange: ExchangeModel,
    events: Seq<ExchangeEvent>,
)
    requires
        exchange.background,
        can_happen(exchange, events),
        run_over(client, exchange, events).1 is Done,
        forall|i: int| 0 <= i < events.len() ==> responds(#[trigger] events[i]),
        exchange.stage is ErrorBody ==> !client.pending.dom().contains(exchange.id),
    ensures
        run_over(client, exchange, events).0.pending == client.pending.remove(exchange.id),
    decreases events.len(),
{
    let event = events[0];
    assert(responds(event));
    let after = client_after(client, exchange, event);
    assert(client.pending.remove(exchange.id).remove(exchange.id) =~= client.pending.remove(
        exchange.id,
    ));
    match progress_after(exchange, event) {
        ProgressModel::Continue(stage) => {
            let next = ExchangeModel { stage, ..exchange };
            let rest = events.drop_first();
            assert forall|i: int| 0 <= i < rest.len() implies responds(#[trigger] rest[i]) by {
                assert(rest[i] == events[i + 1]);
            }
            lemma_run_releases(after, next, rest);
        },
        ProgressModel::Done(_) => {
            if exchange.stage is ErrorBody {
                assert(client.pending.remove(exchange.id) =~= client.pending);
            } else {
                law_finished_request_is_released(exchange, event);
            }
        },
    }
}

/// The next request of `client`, right after it was sent, with a responder that waits for it.
pub open spec fn begun<S>(client: ClientModel<S>) -> ExchangeModel {
    ExchangeModel {
        id: decimal(client.next_id as int),
        background: true,
        stage: StageModel::Head,
    }
}

/// A request leaves nothing behind: from its beginning to its end, over whatever stages, the
/// requests that wait are the same after it as before. The exceptions are a request that ends
/// without a response that could be read, and one that is answered over the background stream,
/// which takes the responder itself.
pub proof fn law_request_leaves_nothing_behind<S>(
    client: ClientModel<S>,
    responder: S,
    events: Seq<ExchangeEvent>,
)
    requires
        !client.pending.dom().contains(decimal(client.next_id as int)),
        can_happen(begun(client), events),
        run_over(client_after_begin(client, Some(responder)), begun(client), events).1 is Done,
        forall|i: int| 0 <= i < events.len() ==> responds(#[trigger] events[i]),
    ensures
        run_over(
            client_after_begin(client, Some(responder)),
            begun(client),
            events,
        ).0.pending == client.pending,
{
    let started = client_after_begin(client, Some(responder));
    lemma_run_releases(started, begun(client), events);
    assert(started.pending.remove(begun(client).id) =~= client.pending);
}

/// A request that is answered over the background stream leaves nothing behind either: the delivery
/// takes its responder, and the answer that is delivered ends it.
pub proof fn law_delivered_request_leaves_nothing_behind<S>(
    client: ClientModel<S>,
    responder: S,
    message: Value,
)
    requires
        !client.pending.dom().contains(decimal(client.next_id as int)),
        addressee(model(message)) == Some(decimal(client.next_id as int)),
    ensures
        ({
            let waiting = client_after_begin(client, Some(responder));
            let taken = ClientModel {
                pending: pending_after(waiting.pending, model(message)),
                ..waiting
            };
            let exchange = ExchangeModel { stage: StageModel::Background, ..begun(client) };
            let event = ExchangeEvent::Delivered(message);
            &&& delivery_of(waiting.pending, model(message)) == (DeliveryModel::Answer {
                responder,
                message: model(message),
            })
            &&& progress_after(exchange, event) is Done
            &&& client_after(taken, exchange, event).pending == client.pending
        }),
{
    let waiting = client_after_begin(client, Some(responder));
    assert(waiting.pending.remove(begun(client).id) =~= client.pending);
}

/// The session of a client changes only by a response head that names a session in a readable
/// header, and then to that session; every other event leaves it as it is, in particular a head
/// without a session header.
pub proof fn law_session_changes_only_by_a_named_one<S>(
    client: ClientModel<S>,
    exchange: ExchangeModel,
    event: ExchangeEvent,
)
    ensures
        ({
            let named = match event {
                ExchangeEvent::HeadReceived { status: _, session: Some(header), content_type: _ } =>
                    header_text_of(header_bytes(header)),
                _ => None,
            };
            let after = client_after(client, exchange, event).session;
            &&& named is Some ==> after == named
            &&& named is None ==> after == client.session
        }),
{
}

/// What a response head does not name is sent as before: after any event that names no session, the
/// next request carries the session from before the event, and the token as always.
pub proof fn law_session_is_kept<S>(
    client: ClientModel<S>,
    exchange: ExchangeModel,
    event: ExchangeEvent,
    method: Seq<char>,
    params: Option<JsonModel>,
    request: PostRequest,
)
    requires
        !(event is HeadReceived) || (event matches ExchangeEvent::HeadReceived { session, .. }
            && optional_header_text(session) is None),
        is_next_request(client_after(client, exchange, event), method, params, request),
    ensures
        optional_text(request.session) == client.session,
        optional_text(request.bearer) == client.token,
{
}

/// An event of a request changes nothing of the client but its session and the responder of that
/// request.
pub proof fn law_event_keeps_the_rest<S>(
    client: ClientModel<S>,
    exchange: ExchangeModel,
    event: ExchangeEvent,
)
    ensures
        ({
            let after = client_after(client, exchange, event);
            &&& after.url == client.url
            &&& after.token == client.token
            &&& after.next_id == client.next_id
            &&& after.listening == client.listening
            &&& after.pending == client.pending || after.pending == client.pending.remove(
                exchange.id,
            )
        }),
{
}

/// When the responder of a request is taken back, event by event: where the request ends by what its
/// response says or by the background, and where its status is not success. It stays where the
/// request goes on otherwise, where no readable response came, and where none was noted.
pub proof fn law_responder_is_taken_back<S>(
    client: ClientModel<S>,
    exchange: ExchangeModel,
    event: ExchangeEvent,
)
    ensures
        ({
            let after = client_after(client, exchange, event).pending;
            let taken = match event {
                ExchangeEvent::HeadReceived { status, session, content_type } => {
                    let kind = match optional_header_text(content_type) {
                        Some(text) => lower(text),
                        None => Seq::empty(),
                    };
                    &&& session is None || optional_header_text(session) is Some
                    &&& !(200 <= status < 300) || (!begins_with(kind, "application/json"@)
                        && !begins_with(kind, "text/event-stream"@))
                },
                ExchangeEvent::BodyRead(bytes) => parsed_bytes(bytes@) is Some,
                ExchangeEvent::EventReceived(received) => outcome_after(
                    received@,
                    exchange.id,
                    exchange.stage->seen,
                ) is Some,
                ExchangeEvent::EventFailed => true,
                ExchangeEvent::StreamTimedOut => true,
                ExchangeEvent::DeliveryDropped => true,
                ExchangeEvent::DeliveryTimedOut => true,
                ExchangeEvent::HeadTimedOut => false,
                ExchangeEvent::SendFailed(_) => false,
                ExchangeEvent::ErrorBodyRead(_) => false,
                ExchangeEvent::BodyFailed(_) => false,
                ExchangeEvent::StreamEnded => false,
                ExchangeEvent::Delivered(_) => false,
            };
            &&& exchange.background && taken ==> after == client.pending.remove(exchange.id)
            &&& !exchange.background || !taken ==> after == client.pending
        }),
{
}

/// What a request is on the wire: the version, its identifier as text, its method, and its
/// parameters where it has any, and no other member.
pub proof fn law_request_on_the_wire(id: Seq<char>, method: Seq<char>, params: JsonModel)
    ensures
        request_model(id, method, None) == JsonModel::Object(
            map![
                "method"@ => JsonModel::Str(method),
                "id"@ => JsonModel::Str(id),
                "jsonrpc"@ => JsonModel::Str("2.0"@),
            ],
        ),
        request_model(id, method, Some(params)) == JsonModel::Object(
            map![
                "params"@ => params,
                "method"@ => JsonModel::Str(method),
                "id"@ => JsonModel::Str(id),
                "jsonrpc"@ => JsonModel::Str("2.0"@),
            ],
        ),
{
    lemma_member_names();
    assert(request_model(id, method, None)->Object_0 =~= map![
        "method"@ => JsonModel::Str(method),
        "id"@ => JsonModel::Str(id),
        "jsonrpc"@ => JsonModel::Str("2.0"@),
    ]);
    assert(request_model(id, method, Some(params))->Object_0 =~= map![
        "params"@ => params,
        "method"@ => JsonModel::Str(method),
        "id"@ => JsonModel::Str(id),
        "jsonrpc"@ => JsonModel::Str("2.0"@),
    ]);
}

/// The next request of a client accepts both kinds of response, sends JSON with the client's token
/// and session, and carries the client's next number.
pub proof fn law_next_request<S>(
    client: ClientModel<S>,
    method: Seq<char>,
    params: Option<JsonModel>,
    request: PostRequest,
)
    ensures
        is_next_request(client, method, params, request) <==> {
            &&& request.accept@ == "text/event-stream, application/json"@
            &&& request.content_type@ == "application/json"@
            &&& optional_text(request.bearer) == client.token
            &&& optional_text(request.session) == client.session
            &&& model(request.body) == request_model(
                decimal(client.next_id as int),
                method,
                params,
            )
        },
{
}

/// Beginning a request moves the number on by one, from the largest to zero, and notes the
/// responder under the request's identifier; nothing else changes.
pub proof fn law_beginning_a_request<S>(
    client: ClientModel<S>,
    responder: S,
    background: bool,
    exchange: Exchange,
)
    ensures
        ({
            let quiet = client_after_begin(client, None);
            let waiting = client_after_begin(client, Some(responder));
            let id = decimal(client.next_id as int);
            &&& client.next_id < u64::MAX ==> quiet.next_id == client.next_id + 1
            &&& client.next_id == u64::MAX ==> quiet.next_id == 0
            &&& waiting.next_id == quiet.next_id
            &&& quiet.pending == client.pending
            &&& waiting.pending == client.pending.insert(id, responder)
            &&& quiet.url == client.url && waiting.url == client.url
            &&& quiet.token == client.token && waiting.token == client.token
            &&& quiet.session == client.session && waiting.session == client.session
            &&& quiet.listening == client.listening && waiting.listening == client.listening
            &&& is_begun(client, background, exchange) <==> exchange.id@ == id
                && exchange.background == background && exchange.stage is Head
        }),
{
}

/// How a request goes on is told in full: it keeps its identifier and its background, and its
/// outcome is the result with the notifications, or the failure.
pub proof fn law_progress_is_told_in_full(
    progress: Progress,
    exchange: ExchangeModel,
    expected: ProgressModel,
)
    requires
        stands_for(progress, exchange, expected),
    ensures
        match progress {
            Progress::Continue(next) => {
                &&& next.id@ == exchange.id
                &&& next.background == exchange.background
                &&& expected == ProgressModel::Continue(next.stage@)
            },
            Progress::Done(Ok(response)) => expected == ProgressModel::Done(
                Ok::<Reply, Failure>(
                    Reply {
                        result: model(response.result),
                        notifications: models(response.notifications@),
                    },
                ),
            ),
            Progress::Done(Err(error)) => expected == ProgressModel::Done(
                Err::<Reply, Failure>(error@),
            ),
        },
{
}

} // verus!
