//! The background stream, over which a server delivers answers and notifications.
use vstd::prelude::*;

use serde_json::Value;

use crate::client::reply::{id_text, is_message, EventModel, SseEvent};
use crate::http::{is_success, success};
use crate::json::{member, model, parsed, JsonModel, NumberModel};
use crate::text::decimal;

verus! {

/// Seconds between the end of a background stream and the next attempt to open one.
pub const RECONNECT_SECONDS: u64 = 1;

/// What becomes of an event of the background stream.
pub enum Delivery<S> {
    /// The message answers a request that waits for it.
    Answer { responder: S, message: Value },
    /// The message names a request that nobody waits for.
    Unknown(String),
    /// The message names no request.
    Unaddressed(Value),
    /// The event is not of the kind that carries messages.
    OtherKind,
    /// The event carries no data.
    NoData,
    /// The data of the event is not JSON.
    NotJson,
}

/// What a [`Delivery`] stands for.
pub enum DeliveryModel<S> {
    Answer { responder: S, message: JsonModel },
    Unknown(Seq<char>),
    Unaddressed(JsonModel),
    OtherKind,
    NoData,
    NotJson,
}

impl<S> View for Delivery<S> {
    type V = DeliveryModel<S>;

    open spec fn view(&self) -> DeliveryModel<S> {
        match self {
            Delivery::Answer { responder, message } => DeliveryModel::Answer {
                responder: *responder,
                message: model(*message),
            },
            Delivery::Unknown(id) => DeliveryModel::Unknown(id@),
            Delivery::Unaddressed(message) => DeliveryModel::Unaddressed(model(*message)),
            Delivery::OtherKind => DeliveryModel::OtherKind,
            Delivery::NoData => DeliveryModel::NoData,
            Delivery::NotJson => DeliveryModel::NotJson,
        }
    }
}

/// The request that a message names.
pub open spec fn addressee(message: JsonModel) -> Option<Seq<char>> {
    match member(message, "id"@) {
        Some(id) => id_text(id),
        None => None,
    }
}

/// What becomes of a message while the requests in `pending` wait.
pub open spec fn delivery_of<S>(pending: Map<Seq<char>, S>, message: JsonModel) -> DeliveryModel<
    S,
> {
    match addressee(message) {
        Some(id) => if pending.dom().contains(id) {
            DeliveryModel::Answer { responder: pending[id], message }
        } else {
            DeliveryModel::Unknown(id)
        },
        None => DeliveryModel::Unaddressed(message),
    }
}

/// The requests that wait after a message.
pub open spec fn pending_after<S>(pending: Map<Seq<char>, S>, message: JsonModel) -> Map<
    Seq<char>,
    S,
> {
    match addressee(message) {
        Some(id) => pending.remove(id),
        None => pending,
    }
}

/// The message that an event of the background stream carries.
pub open spec fn streamed_message(event: EventModel) -> Option<JsonModel> {
    if is_message(event) {
        match event.data {
            Some(data) => parsed(data),
            None => None,
        }
    } else {
        None
    }
}

/// What becomes of an event while the requests in `pending` wait.
pub open spec fn event_delivery<S>(pending: Map<Seq<char>, S>, event: EventModel) -> DeliveryModel<
    S,
> {
    if !is_message(event) {
        DeliveryModel::OtherKind
    } else {
        match event.data {
            None => DeliveryModel::NoData,
            Some(data) => match parsed(data) {
                None => DeliveryModel::NotJson,
                Some(message) => delivery_of(pending, message),
            },
        }
    }
}

/// The requests that wait after an event.
pub open spec fn pending_after_event<S>(pending: Map<Seq<char>, S>, event: EventModel) -> Map<
    Seq<char>,
    S,
> {
    match streamed_message(event) {
        Some(message) => pending_after(pending, message),
        None => pending,
    }
}

/// What the listener on the background stream does.
#[derive(Clone, Copy, PartialEq, Eq, Structural, Debug)]
pub enum ListenerStage {
    /// It asks for the stream.
    Connect,
    /// It reads the next event.
    Read,
    /// It waits before it asks again.
    Pause,
}

/// What can happen to the listener.
pub enum ListenerEvent {
    /// The request for the stream could not be sent.
    SendFailed,
    /// The head of the response arrived.
    HeadReceived { status: u16 },
    /// An event arrived.
    EventReceived(SseEvent),
    /// The stream could not be read on.
    EventFailed,
    /// The stream ended.
    StreamEnded,
    /// The wait is over.
    PauseOver,
}

/// A listener in `stage` can meet with `event`.
pub open spec fn listener_expects(stage: ListenerStage, event: ListenerEvent) -> bool {
    match event {
        ListenerEvent::SendFailed => stage is Connect,
        ListenerEvent::HeadReceived { status: _ } => stage is Connect,
        ListenerEvent::EventReceived(_) => stage is Read,
        ListenerEvent::EventFailed => stage is Read,
        ListenerEvent::StreamEnded => stage is Read,
        ListenerEvent::PauseOver => stage is Pause,
    }
}

/// What the listener does after `event`.
pub open spec fn listener_stage_after(event: ListenerEvent) -> ListenerStage {
    match event {
        ListenerEvent::SendFailed => ListenerStage::Pause,
        ListenerEvent::HeadReceived { status } => if success(status) {
            ListenerStage::Read
        } else {
            ListenerStage::Pause
        },
        ListenerEvent::EventReceived(_) => ListenerStage::Read,
        ListenerEvent::EventFailed => ListenerStage::Pause,
        ListenerEvent::StreamEnded => ListenerStage::Pause,
        ListenerEvent::PauseOver => ListenerStage::Connect,
    }
}

/// What the listener does after `event`.
pub fn next_listener_stage(event: &ListenerEvent) -> (r: ListenerStage)
    ensures
        r == listener_stage_after(*event),
{
    match event {
        ListenerEvent::SendFailed => ListenerStage::Pause,
        ListenerEvent::HeadReceived { status } => if is_success(*status) {
            ListenerStage::Read
        } else {
            ListenerStage::Pause
        },
        ListenerEvent::EventReceived(_) => ListenerStage::Read,
        ListenerEvent::EventFailed => ListenerStage::Pause,
        ListenerEvent::StreamEnded => ListenerStage::Pause,
        ListenerEvent::PauseOver => ListenerStage::Connect,
    }
}

/// The listener never asks for a stream twice without a pause in between, and it goes on after
/// whatever happens.
pub proof fn law_listener_pauses_before_reconnecting(stage: ListenerStage, event: ListenerEvent)
    requires
        listener_expects(stage, event),
    ensures
        listener_stage_after(event) is Connect <==> stage is Pause,
{
}

/// A message reaches at most the one request that it names, and every other request waits on.
pub proof fn law_delivery_touches_one_request<S>(
    pending: Map<Seq<char>, S>,
    event: EventModel,
    other: Seq<char>,
)
    requires
        !(streamed_message(event) matches Some(message) && addressee(message) == Some(other)),
    ensures
        pending_after_event(pending, event).dom().contains(other) == pending.dom().contains(other),
        pending.dom().contains(other) ==> pending_after_event(pending, event)[other]
            == pending[other],
{
}

/// A request is answered over the background stream at most once: after a message that names it,
/// it waits no longer, so a second message that names it finds nobody.
pub proof fn law_delivery_happens_once<S>(
    pending: Map<Seq<char>, S>,
    first: JsonModel,
    second: JsonModel,
)
    requires
        addressee(first) is Some,
        addressee(second) == addressee(first),
    ensures
        delivery_of(pending_after(pending, first), second) == DeliveryModel::<S>::Unknown(
            addressee(second)->0,
        ),
{
}

/// A message names the request that its identifier names, and none without one.
pub proof fn law_addressee(map: Map<Seq<char>, JsonModel>, text: Seq<char>, n: int, other: JsonModel)
    requires
        !(other is Object),
    ensures
        addressee(JsonModel::Object(map.insert("id"@, JsonModel::Str(text)))) == Some(text),
        addressee(
            JsonModel::Object(map.insert("id"@, JsonModel::Number(NumberModel::Int(n)))),
        ) == Some(decimal(n)),
        addressee(
            JsonModel::Object(map.insert("id"@, JsonModel::Number(NumberModel::Float(text)))),
        ) == Some(text),
        map.dom().contains("id"@) && !(map["id"@] is Str) && !(map["id"@] is Number)
            ==> addressee(JsonModel::Object(map)) is None,
        addressee(JsonModel::Object(map.remove("id"@))) is None,
        addressee(other) is None,
{
}

/// A message that names a request that waits is delivered to it, and the request waits no longer; a
/// message that names another, or none, changes nothing.
pub proof fn law_delivery<S>(pending: Map<Seq<char>, S>, message: JsonModel)
    ensures
        match addressee(message) {
            Some(id) => {
                &&& pending.dom().contains(id) ==> delivery_of(pending, message)
                    == (DeliveryModel::Answer { responder: pending[id], message })
                &&& !pending.dom().contains(id) ==> {
                    &&& delivery_of(pending, message) == DeliveryModel::<S>::Unknown(id)
                    &&& pending_after(pending, message) == pending
                }
                &&& pending_after(pending, message) == pending.remove(id)
            },
            None => {
                &&& delivery_of(pending, message) == DeliveryModel::<S>::Unaddressed(message)
                &&& pending_after(pending, message) == pending
            },
        },
{
    if addressee(message) is Some && !pending.dom().contains(addressee(message)->0) {
        assert(pending.remove(addressee(message)->0) =~= pending);
    }
}

/// An event without a kind and one of the kind `message` deliver what their data says. An event is
/// passed over as another kind exactly where it has a kind and that is not `message`; that, and data
/// that is missing or not JSON, changes nothing.
pub proof fn law_message_event_is_delivered<S>(pending: Map<Seq<char>, S>, event: EventModel)
    ensures
        ({
            let other = event.event is Some && event.event != Some("message"@);
            let delivery = event_delivery(pending, event);
            let after = pending_after_event(pending, event);
            &&& delivery is OtherKind <==> other
            &&& other ==> after == pending
            &&& !other && event.data is None ==> delivery is NoData && after == pending
            &&& !other && event.data is Some && parsed(event.data->0) is None ==> delivery is NotJson
                && after == pending
            &&& !other && event.data is Some && parsed(event.data->0) is Some ==> {
                &&& delivery == delivery_of(pending, parsed(event.data->0)->0)
                &&& after == pending_after(pending, parsed(event.data->0)->0)
            }
        }),
{
}

/// What the listener does next: it reads where the stream opened or goes on, it asks again where the
/// pause is over, and pauses after everything else.
pub proof fn law_listener_goes_on(status: u16, event: SseEvent)
    ensures
        listener_stage_after(ListenerEvent::SendFailed) is Pause,
        listener_stage_after((ListenerEvent::HeadReceived { status })) is Read <==> 200 <= status
            < 300,
        listener_stage_after((ListenerEvent::HeadReceived { status })) is Pause <==> !(200 <= status
            < 300),
        listener_stage_after(ListenerEvent::EventReceived(event)) is Read,
        listener_stage_after(ListenerEvent::EventFailed) is Pause,
        listener_stage_after(ListenerEvent::StreamEnded) is Pause,
        listener_stage_after(ListenerEvent::PauseOver) is Connect,
        RECONNECT_SECONDS == 1,
{
}

/// A delivery stands for its parts, each for itself.
pub proof fn law_delivery_stands_for_its_parts<S>(responder: S, message: Value, id: String)
    ensures
        (Delivery::Answer { responder, message })@ == (DeliveryModel::Answer {
            responder,
            message: model(message),
        }),
        (Delivery::<S>::Unknown(id))@ == DeliveryModel::<S>::Unknown(id@),
        (Delivery::<S>::Unaddressed(message))@ == DeliveryModel::<S>::Unaddressed(model(message)),
        (Delivery::<S>::OtherKind)@ == DeliveryModel::<S>::OtherKind,
        (Delivery::<S>::NoData)@ == DeliveryModel::<S>::NoData,
        (Delivery::<S>::NotJson)@ == DeliveryModel::<S>::NotJson,
{
}

} // verus!
