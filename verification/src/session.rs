//! One client's logical connection: an inbound request queue, an
//! outbound event queue, its own service instance, a cancellation flag
//! and a stream generation counter. Two ghost histories — the requests
//! already dispatched and the events already handed to a stream —
//! carry the correlation invariant: pings aside, the events a session
//! has ever produced answer exactly the requests it has processed, in
//! order.

use vstd::prelude::*;
use crate::counter::{run_service, spec_step, CounterService};
use crate::message::{event_ids, message_ids, lemma_event_ids_push, lemma_event_ids_concat,
    lemma_message_ids_push, Event, Message, MessageModel};

verus! {

/// One session's whole state.
pub struct Session {
    /// The correlation key every POST and DELETE carries.
    pub id: u64,
    /// Requests accepted but not yet dispatched, in arrival order.
    pub inbound: Vec<Message>,
    /// Events produced but not yet handed to the stream, in production
    /// order.
    pub outbound: Vec<Event>,
    /// This session's own service instance.
    pub service: CounterService,
    /// Set once by DELETE, client disconnect or shutdown; never unset.
    pub cancelled: bool,
    /// The generation of the currently attached stream writer; each new
    /// attach bumps it, which evicts the stale writer.
    pub stream_epoch: u64,
    /// Ghost: requests already dispatched, in arrival order.
    pub processed: Ghost<Seq<MessageModel>>,
    /// Ghost: events already handed to a stream writer, in order.
    pub delivered: Ghost<Seq<Event>>,
}

impl Session {
    /// Correlation invariant: everything delivered or still queued
    /// answers exactly the processed requests, in order.
    pub open spec fn wf(self) -> bool {
        event_ids(self.delivered@ + self.outbound@) == message_ids(self.processed@)
    }

    /// A stream writer of generation `epoch` may still deliver events:
    /// it has not been superseded and the session is not cancelled.
    pub open spec fn writer_live(self, epoch: u64) -> bool {
        !self.cancelled && self.stream_epoch == epoch
    }

    /// A session as the registry creates it: empty queues, fresh
    /// service, first stream generation already attached.
    pub open spec fn fresh(self, id: u64) -> bool {
        &&& self.id == id
        &&& self.inbound@ == Seq::<Message>::empty()
        &&& self.outbound@ == Seq::<Event>::empty()
        &&& self.service.value == 0
        &&& !self.cancelled
        &&& self.stream_epoch == 1
        &&& self.processed@ == Seq::<MessageModel>::empty()
        &&& self.delivered@ == Seq::<Event>::empty()
    }

    pub fn new(id: u64) -> (s: Session)
        ensures
            s.fresh(id),
            s.wf(),
    {
        let s = Session {
            id,
            inbound: Vec::new(),
            outbound: Vec::new(),
            service: CounterService::new(),
            cancelled: false,
            stream_epoch: 1,
            processed: Ghost(Seq::empty()),
            delivered: Ghost(Seq::empty()),
        };
        proof {
            assert(s.delivered@ + s.outbound@ =~= Seq::<Event>::empty());
            assert(event_ids(Seq::<Event>::empty()) =~= Seq::<u64>::empty());
            assert(message_ids(Seq::<MessageModel>::empty()) =~= Seq::<u64>::empty());
        }
        s
    }

    /// Accepts one request: appended to the inbound queue, nothing else
    /// moves.
    pub fn enqueue_inbound(&mut self, m: Message)
        requires
            old(self).wf(),
        ensures
            final(self).wf(),
            enqueue_rel(*old(self), *final(self), m@),
    {
        self.inbound.push(m);
        proof {
            assert(self.inbound@ =~= old(self).inbound@.push(m));
            assert(self.inbound@.map_values(|x: Message| x@) =~= old(self).inbound@.map_values(
                |x: Message| x@,
            ).push(m@));
        }
    }

    /// Dispatches the oldest queued request, if any, through the
    /// service and queues the resulting event.
    pub fn dispatch_next(&mut self) -> (progressed: bool)
        requires
            old(self).wf(),
        ensures
            final(self).wf(),
            progressed == (old(self).inbound@.len() > 0),
            !progressed ==> *final(self) == *old(self),
            progressed ==> dispatch_rel(*old(self), *final(self)),
    {
        if self.inbound.len() == 0 {
            return false;
        }
        let m = self.inbound.remove(0);
        let ev = self.service.handle(&m);
        self.outbound.push(ev);
        proof {
            self.processed@ = old(self).processed@.push(m@);
            lemma_event_ids_concat(old(self).delivered@, old(self).outbound@);
            lemma_event_ids_concat(self.delivered@, self.outbound@);
            assert(self.delivered@ + self.outbound@ =~= (old(self).delivered@
                + old(self).outbound@).push(ev));
            lemma_event_ids_push(old(self).delivered@ + old(self).outbound@, ev);
            lemma_message_ids_push(old(self).processed@, m@);
            assert(event_ids(self.delivered@ + self.outbound@) =~= message_ids(
                self.processed@));
            assert(self.inbound@ =~= old(self).inbound@.drop_first());
        }
        true
    }

    /// The dispatch loop: serves every queued request in arrival
    /// order, queueing one event per request in production order.
    pub fn dispatch_all(&mut self)
        requires
            old(self).wf(),
        ensures
            final(self).wf(),
            drain_rel(*old(self), *final(self)),
    {
        let ghost v0 = old(self).service.value;
        let ghost m0 = inbound_models(*old(self));
        let ghost out0 = old(self).outbound@;
        while self.inbound.len() > 0
            invariant
                self.wf(),
                self.id == old(self).id,
                self.cancelled == old(self).cancelled,
                self.stream_epoch == old(self).stream_epoch,
                self.delivered@ == old(self).delivered@,
                inbound_models(*self) == m0.skip(m0.len() - self.inbound@.len()),
                self.inbound@.len() <= m0.len(),
                self.processed@ == old(self).processed@ + m0.take(m0.len() - self.inbound@.len()),
                self.outbound@.len() >= out0.len(),
                self.outbound@.take(out0.len() as int) == out0,
                run_service(v0, m0).0 == run_service(self.service.value, inbound_models(*self)).0,
                run_service(v0, m0).1 == self.outbound@.skip(out0.len() as int) + run_service(
                    self.service.value,
                    inbound_models(*self),
                ).1,
            decreases self.inbound@.len(),
        {
            let ghost pre = *self;
            let ghost k = m0.len() - pre.inbound@.len();
            self.dispatch_next();
            proof {
                let cur = inbound_models(pre);
                assert(cur.len() > 0);
                assert(cur[0] == pre.inbound@[0]@);
                let first = spec_step(pre.service.value, cur[0]);
                assert(run_service(pre.service.value, cur) == (
                    run_service(first.0, cur.drop_first()).0,
                    seq![first.1] + run_service(first.0, cur.drop_first()).1,
                ));
                assert(inbound_models(*self) =~= cur.drop_first());
                assert(inbound_models(*self) =~= m0.skip(m0.len() - self.inbound@.len()));
                assert(m0.take(k + 1) =~= m0.take(k).push(m0[k]));
                assert(cur[0] == m0[k]);
                assert(self.processed@ =~= old(self).processed@ + m0.take(
                    m0.len() - self.inbound@.len(),
                ));
                assert(self.outbound@.take(out0.len() as int) =~= out0);
                assert(self.outbound@.skip(out0.len() as int) =~= pre.outbound@.skip(
                    out0.len() as int,
                ).push(first.1));
                assert(self.outbound@.skip(out0.len() as int) + run_service(
                    self.service.value,
                    inbound_models(*self),
                ).1 =~= pre.outbound@.skip(out0.len() as int) + (seq![first.1] + run_service(
                    self.service.value,
                    inbound_models(*self),
                ).1));
            }
        }
        proof {
            assert(self.inbound@ =~= Seq::<Message>::empty());
            assert(inbound_models(*self) =~= Seq::<MessageModel>::empty());
            assert(run_service(self.service.value, inbound_models(*self)).0
                == self.service.value);
            assert(run_service(self.service.value, inbound_models(*self)).1
                =~= Seq::<Event>::empty());
            assert(m0 =~= inbound_models(*old(self)));
            assert(self.processed@ =~= old(self).processed@ + m0);
            assert(m0.take(m0.len() as int) =~= m0);
            assert(self.outbound@ =~= self.outbound@.take(out0.len() as int) + self.outbound@.skip(
                out0.len() as int,
            ));
            assert(run_service(v0, m0).1 =~= self.outbound@.skip(out0.len() as int)
                + Seq::<Event>::empty());
            assert(self.outbound@ =~= out0 + run_service(v0, m0).1);
        }
    }

    /// Hands the queued events to the stream writer of generation
    /// `epoch`. A stale or cancelled writer gets `None` — its cue to
    /// terminate quietly — and the session does not move, so no event
    /// can reach two writers.
    pub fn take_outbound(&mut self, epoch: u64) -> (r: Option<Vec<Event>>)
        requires
            old(self).wf(),
        ensures
            final(self).wf(),
            !old(self).writer_live(epoch) ==> r is None && *final(self) == *old(self),
            old(self).writer_live(epoch) ==> (r matches Some(evs) && evs@ == old(
                self,
            ).outbound@ && take_rel(*old(self), *final(self))),
    {
        if self.cancelled || epoch != self.stream_epoch {
            return None;
        }
        let mut evs: Vec<Event> = Vec::new();
        core::mem::swap(&mut self.outbound, &mut evs);
        proof {
            self.delivered@ = old(self).delivered@ + old(self).outbound@;
            assert(self.delivered@ + self.outbound@ =~= old(self).delivered@ + old(
                self,
            ).outbound@);
        }
        Some(evs)
    }

    /// Attaches a new stream writer: the generation is bumped, so the
    /// previous writer is no longer live. Fails only when the
    /// generation counter is exhausted.
    pub fn attach_stream(&mut self) -> (r: Option<u64>)
        requires
            old(self).wf(),
        ensures
            final(self).wf(),
            old(self).stream_epoch == u64::MAX ==> r is None && *final(self) == *old(self),
            old(self).stream_epoch < u64::MAX ==> (r == Some((old(self).stream_epoch + 1) as u64)
                && attach_rel(*old(self), *final(self))),
    {
        if self.stream_epoch == u64::MAX {
            return None;
        }
        self.stream_epoch = self.stream_epoch + 1;
        Some(self.stream_epoch)
    }

    /// Triggers the cancellation signal; idempotent.
    pub fn cancel(&mut self)
        requires
            old(self).wf(),
        ensures
            final(self).wf(),
            cancel_rel(*old(self), *final(self)),
    {
        self.cancelled = true;
    }

    /// Queues one keep-alive ping. Pings carry no id, so the
    /// correlation invariant is untouched.
    pub fn push_ping(&mut self)
        requires
            old(self).wf(),
        ensures
            final(self).wf(),
            ping_rel(*old(self), *final(self)),
    {
        self.outbound.push(Event::Ping);
        proof {
            lemma_event_ids_concat(old(self).delivered@, old(self).outbound@);
            lemma_event_ids_concat(self.delivered@, self.outbound@);
            assert(self.delivered@ + self.outbound@ =~= (old(self).delivered@ + old(
                self,
            ).outbound@).push(Event::Ping));
            lemma_event_ids_push(old(self).delivered@ + old(self).outbound@, Event::Ping);
            assert(event_ids(self.delivered@ + self.outbound@) =~= message_ids(
                self.processed@));
            assert(self.outbound@ =~= old(self).outbound@.push(Event::Ping));
        }
    }
}

/// A session's queued requests, as models, in arrival order.
pub open spec fn inbound_models(s: Session) -> Seq<MessageModel> {
    s.inbound@.map_values(|m: Message| m@)
}

/// The whole inbound queue was served, oldest first: it moved into the
/// processed history, and `run_service` says exactly which events were
/// queued and where the counter ended.
pub open spec fn drain_rel(pre: Session, post: Session) -> bool {
    &&& post.id == pre.id
    &&& post.inbound@ == Seq::<Message>::empty()
    &&& post.service.value == run_service(pre.service.value, inbound_models(pre)).0
    &&& post.outbound@ == pre.outbound@ + run_service(pre.service.value, inbound_models(pre)).1
    &&& post.cancelled == pre.cancelled
    &&& post.stream_epoch == pre.stream_epoch
    &&& post.processed@ == pre.processed@ + inbound_models(pre)
    &&& post.delivered@ == pre.delivered@
}

/// One request was appended to the inbound queue; nothing else moved.
pub open spec fn enqueue_rel(pre: Session, post: Session, m: MessageModel) -> bool {
    &&& post.id == pre.id
    &&& post.inbound@.len() == pre.inbound@.len() + 1
    &&& post.inbound@.map_values(|x: Message| x@) == pre.inbound@.map_values(
        |x: Message| x@,
    ).push(m)
    &&& post.outbound@ == pre.outbound@
    &&& post.service == pre.service
    &&& post.cancelled == pre.cancelled
    &&& post.stream_epoch == pre.stream_epoch
    &&& post.processed@ == pre.processed@
    &&& post.delivered@ == pre.delivered@
}

/// The oldest queued request was dispatched through the service: it
/// moved from the inbound queue to the processed history, and the event
/// `spec_step` assigns to it was queued outbound.
pub open spec fn dispatch_rel(pre: Session, post: Session) -> bool {
    &&& pre.inbound@.len() > 0
    &&& post.id == pre.id
    &&& post.inbound@ == pre.inbound@.drop_first()
    &&& (post.service.value, post.outbound@.last()) == spec_step(
        pre.service.value,
        pre.inbound@[0]@,
    )
    &&& post.outbound@ == pre.outbound@.push(post.outbound@.last())
    &&& post.cancelled == pre.cancelled
    &&& post.stream_epoch == pre.stream_epoch
    &&& post.processed@ == pre.processed@.push(pre.inbound@[0]@)
    &&& post.delivered@ == pre.delivered@
}

/// The outbound queue moved, whole and in order, into the delivered
/// history; nothing else changed.
pub open spec fn take_rel(pre: Session, post: Session) -> bool {
    &&& post.id == pre.id
    &&& post.inbound@ == pre.inbound@
    &&& post.outbound@ == Seq::<Event>::empty()
    &&& post.service == pre.service
    &&& post.cancelled == pre.cancelled
    &&& post.stream_epoch == pre.stream_epoch
    &&& post.processed@ == pre.processed@
    &&& post.delivered@ == pre.delivered@ + pre.outbound@
}

/// A new stream writer attached: only the generation moved, one up.
pub open spec fn attach_rel(pre: Session, post: Session) -> bool {
    &&& post.id == pre.id
    &&& post.inbound@ == pre.inbound@
    &&& post.outbound@ == pre.outbound@
    &&& post.service == pre.service
    &&& post.cancelled == pre.cancelled
    &&& post.stream_epoch == pre.stream_epoch + 1
    &&& post.processed@ == pre.processed@
    &&& post.delivered@ == pre.delivered@
}

/// The cancellation signal fired: only the flag moved, and only up.
pub open spec fn cancel_rel(pre: Session, post: Session) -> bool {
    &&& post.id == pre.id
    &&& post.inbound@ == pre.inbound@
    &&& post.outbound@ == pre.outbound@
    &&& post.service == pre.service
    &&& post.cancelled
    &&& post.stream_epoch == pre.stream_epoch
    &&& post.processed@ == pre.processed@
    &&& post.delivered@ == pre.delivered@
}

/// One ping was queued outbound; nothing else moved.
pub open spec fn ping_rel(pre: Session, post: Session) -> bool {
    &&& post.id == pre.id
    &&& post.inbound@ == pre.inbound@
    &&& post.outbound@ == pre.outbound@.push(Event::Ping)
    &&& post.service == pre.service
    &&& post.cancelled == pre.cancelled
    &&& post.stream_epoch == pre.stream_epoch
    &&& post.processed@ == pre.processed@
    &&& post.delivered@ == pre.delivered@
}

} // verus!
