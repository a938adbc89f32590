//! The tool service behind the transport: a per-session counter. One
//! instance exists per session and is the unit of per-session state;
//! `spec_step` is the mathematical dispatch function every contract
//! about message handling goes through.

use vstd::prelude::*;
use crate::message::{Event, Message, MessageModel, INTERNAL_ERROR, METHOD_NOT_FOUND};

verus! {

/// The one method the counter service exposes.
pub open spec fn increment_method() -> Seq<char> {
    "increment"@
}

/// What dispatching one request does to a counter value, and which
/// event it produces. Every outcome — success, overflow, unknown
/// method — is an event correlated to the request's id; a dispatch
/// failure is never dropped and never ends the session.
pub open spec fn spec_step(value: u64, m: MessageModel) -> (u64, Event) {
    if m.method == increment_method() {
        if value < u64::MAX {
            ((value + 1) as u64, Event::Response { id: m.id, result: (value + 1) as u64 })
        } else {
            (value, Event::Error { id: m.id, code: INTERNAL_ERROR })
        }
    } else {
        (value, Event::Error { id: m.id, code: METHOD_NOT_FOUND })
    }
}

/// The whole dispatch loop as a fold: the counter value after serving
/// a queue of requests in arrival order, and the events produced, one
/// per request, in production order.
pub open spec fn run_service(value: u64, msgs: Seq<MessageModel>) -> (u64, Seq<Event>)
    decreases msgs.len(),
{
    if msgs.len() == 0 {
        (value, Seq::empty())
    } else {
        let first = spec_step(value, msgs[0]);
        let rest = run_service(first.0, msgs.drop_first());
        (rest.0, seq![first.1] + rest.1)
    }
}

/// One session's service instance: the counter value it owns.
#[derive(Clone, Copy, PartialEq, Eq, Structural, Debug)]
pub struct CounterService {
    pub value: u64,
}

impl CounterService {
    /// The service factory's product: a fresh instance, isolated from
    /// every other session's.
    pub fn new() -> (s: Self)
        ensures
            s.value == 0,
    {
        CounterService { value: 0 }
    }

    /// Dispatches one request to the capability it names.
    pub fn handle(&mut self, m: &Message) -> (ev: Event)
        ensures
            (final(self).value, ev) == spec_step(old(self).value, m@),
    {
        let name: String = "increment".to_owned();
        if m.method == name {
            if self.value < u64::MAX {
                self.value = self.value + 1;
                Event::Response { id: m.id, result: self.value }
            } else {
                Event::Error { id: m.id, code: INTERNAL_ERROR }
            }
        } else {
            Event::Error { id: m.id, code: METHOD_NOT_FOUND }
        }
    }
}

} // verus!
