//! The two message shapes of the transport — client-to-server requests
//! and server-to-client events — together with the error taxonomy and
//! the correlation model: which request id each event answers.

use vstd::prelude::*;

verus! {

/// JSON-RPC error code: the call named a method outside the service's
/// capability set.
pub const METHOD_NOT_FOUND: i64 = -32601;

/// JSON-RPC error code: the method is known but the call could not be
/// served (for the counter: the value would overflow).
pub const INTERNAL_ERROR: i64 = -32603;

/// A client-to-server JSON-RPC-shaped request, as the HTTP layer hands
/// it over after decoding: a correlation id and a method name.
#[derive(PartialEq, Eq, Debug)]
pub struct Message {
    pub id: u64,
    pub method: String,
}

/// Mathematical image of a `Message`: the method as a character sequence.
pub struct MessageModel {
    pub id: u64,
    pub method: Seq<char>,
}

impl View for Message {
    type V = MessageModel;

    open spec fn view(&self) -> MessageModel {
        MessageModel { id: self.id, method: self.method@ }
    }
}

/// A server-to-client event: a correlated response, a correlated error,
/// or a protocol-level keep-alive ping that carries no id.
#[derive(Clone, Copy, PartialEq, Eq, Structural, Debug)]
pub enum Event {
    Response { id: u64, result: u64 },
    Error { id: u64, code: i64 },
    Ping,
}

/// Transport-level failures surfaced to the HTTP caller. Dispatch
/// failures are not here: they become correlated `Event::Error`s on the
/// stream, never HTTP failures.
#[derive(Clone, Copy, PartialEq, Eq, Structural, Debug)]
pub enum TransportError {
    /// The request named a session that is unknown or already closed.
    SessionNotFound,
    /// The body did not decode to the expected request shape.
    MalformedMessage,
    /// No further session id or stream generation can be allocated.
    RegistryExhausted,
}

/// The id an event answers; a ping answers none.
pub open spec fn event_correlation(e: Event) -> Option<u64> {
    match e {
        Event::Response { id, .. } => Some(id),
        Event::Error { id, .. } => Some(id),
        Event::Ping => None,
    }
}

/// Correlation ids of the non-ping events of `s`, in delivery order.
pub open spec fn event_ids(s: Seq<Event>) -> Seq<u64>
    decreases s.len(),
{
    if s.len() == 0 {
        Seq::empty()
    } else {
        event_ids(s.drop_last()) + (match event_correlation(s.last()) {
            Some(id) => seq![id],
            None => Seq::<u64>::empty(),
        })
    }
}

/// Ids of a sequence of requests, in arrival order.
pub open spec fn message_ids(s: Seq<MessageModel>) -> Seq<u64> {
    s.map_values(|m: MessageModel| m.id)
}

/// Appending one event extends the correlation ids by that event's id,
/// or not at all for a ping.
pub proof fn lemma_event_ids_push(s: Seq<Event>, e: Event)
    ensures
        event_ids(s.push(e)) == event_ids(s) + (match event_correlation(e) {
            Some(id) => seq![id],
            None => Seq::<u64>::empty(),
        }),
{
    assert(s.push(e).drop_last() =~= s);
    assert(s.push(e).last() == e);
}

/// Correlation ids distribute over concatenation.
pub proof fn lemma_event_ids_concat(a: Seq<Event>, b: Seq<Event>)
    ensures
        event_ids(a + b) == event_ids(a) + event_ids(b),
    decreases b.len(),
{
    if b.len() == 0 {
        assert(a + b =~= a);
        assert(event_ids(a) + event_ids(b) =~= event_ids(a));
    } else {
        lemma_event_ids_concat(a, b.drop_last());
        assert((a + b).drop_last() =~= a + b.drop_last());
        assert((a + b).last() == b.last());
        assert(event_ids(a) + event_ids(b) =~= event_ids(a + b));
    }
}

/// Appending one request extends the request ids by its id.
pub proof fn lemma_message_ids_push(s: Seq<MessageModel>, m: MessageModel)
    ensures
        message_ids(s.push(m)) == message_ids(s).push(m.id),
{
    assert(message_ids(s.push(m)) =~= message_ids(s).push(m.id));
}

/// Builds a request from the fields the HTTP layer managed to extract
/// from the body; a body without an id or without a method is malformed.
pub fn decode_message(id: Option<u64>, method: Option<String>) -> (r: Result<
    Message,
    TransportError,
>)
    ensures
        r is Ok <==> (id is Some && method is Some),
        r matches Ok(m) ==> id == Some(m.id) && (method matches Some(name) && m.method == name),
        r is Err ==> r == Err::<Message, TransportError>(TransportError::MalformedMessage),
{
    match (id, method) {
        (Some(id), Some(method)) => Ok(Message { id, method }),
        _ => Err(TransportError::MalformedMessage),
    }
}

} // verus!
