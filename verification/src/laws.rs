//! The transport's cross-cutting guarantees, each stated over the spec
//! functions and relations the operations' own contracts use, and
//! proved once for every reachable state.

use vstd::prelude::*;
use crate::counter::{run_service, spec_step};
use crate::message::{event_correlation, event_ids, lemma_event_ids_concat, message_ids, Event,
    MessageModel};
use crate::registry::{delete_rel, dispatch_step_rel, drain_step_rel, post_rel, session_tick_rel,
    take_step_rel, tick_rel, Registry};
use crate::keepalive::KeepAliveSchedule;
use crate::session::{attach_rel, Session};

verus! {

/// For every sequence of requests and every starting counter value,
/// serving the queue produces events whose correlation ids are exactly
/// the requests' ids, in arrival order.
pub proof fn law_events_answer_posts_in_order(value: u64, msgs: Seq<MessageModel>)
    ensures
        event_ids(run_service(value, msgs).1) == message_ids(msgs),
    decreases msgs.len(),
{
    if msgs.len() == 0 {
        assert(event_ids(run_service(value, msgs).1) =~= message_ids(msgs));
    } else {
        let first = spec_step(value, msgs[0]);
        let rest = run_service(first.0, msgs.drop_first());
        law_events_answer_posts_in_order(first.0, msgs.drop_first());
        lemma_event_ids_concat(seq![first.1], rest.1);
        assert(event_correlation(first.1) == Some(msgs[0].id));
        assert(seq![first.1].len() == 1);
        assert(seq![first.1].last() == first.1);
        assert(seq![first.1].drop_last() =~= Seq::<Event>::empty());
        assert(event_ids(Seq::<Event>::empty()) == Seq::<u64>::empty());
        assert(event_ids(seq![first.1]) == event_ids(seq![first.1].drop_last()) + seq![
            msgs[0].id,
        ]);
        assert(event_ids(seq![first.1]) =~= seq![msgs[0].id]);
        assert(message_ids(msgs) =~= seq![msgs[0].id] + message_ids(msgs.drop_first()));
    }
}

/// Correlation: pings aside, the events a session has delivered or
/// still queues carry exactly the ids of the requests it processed, in
/// arrival order — and what was already delivered answers a prefix of
/// them.
pub proof fn law_stream_correlation(s: Session)
    requires
        s.wf(),
    ensures
        event_ids(s.delivered@ + s.outbound@) == message_ids(s.processed@),
        event_ids(s.delivered@).is_prefix_of(message_ids(s.processed@)),
{
    lemma_event_ids_concat(s.delivered@, s.outbound@);
    assert(event_ids(s.delivered@) =~= message_ids(s.processed@).take(
        event_ids(s.delivered@).len() as int,
    ));
}

/// At most one stream writer generation is ever live on a session, so
/// no event can be handed to two writers.
pub proof fn law_single_live_writer(s: Session, e1: u64, e2: u64)
    requires
        e1 != e2,
    ensures
        !(s.writer_live(e1) && s.writer_live(e2)),
{
}

/// Attaching a new stream evicts the old writer: the generation it
/// holds is stale from that point on, for good — generations only
/// grow.
pub proof fn law_supersede_evicts(pre: Session, post: Session)
    requires
        attach_rel(pre, post),
    ensures
        !post.writer_live(pre.stream_epoch),
{
}

/// After a delete the session is gone, whether or not it existed —
/// the observable end state is the same, which is why the HTTP layer
/// answers success either way — and `post_message`'s contract then
/// rejects a POST to that id with `SessionNotFound`.
pub proof fn law_delete_then_post_rejected(r1: Registry, r2: Registry, id: u64)
    requires
        r1.wf(),
        delete_rel(r1, r2, id),
    ensures
        !r2.has_session(id),
{
    if r1.has_session(id) {
        let i = r1.index_of_id(id);
        assert(0 <= i < r1.sessions@.len() && r1.sessions@[i].id == id);
        assert forall|j: int| 0 <= j < r2.sessions@.len() implies (
        #[trigger] r2.sessions@[j]).id != id by {
            if j < i {
                assert(r1.sessions@[j].id != r1.sessions@[i].id);
            } else {
                assert(r1.sessions@[i].id != r1.sessions@[j + 1].id);
            }
        }
    } else {
        assert(!r1.has_session(id));
    }
}

/// Deleting twice is the same as deleting once: the second delete finds
/// nothing and moves nothing.
pub proof fn law_delete_idempotent(r1: Registry, r2: Registry, r3: Registry, id: u64)
    requires
        r1.wf(),
        delete_rel(r1, r2, id),
        delete_rel(r2, r3, id),
    ensures
        r3 == r2,
{
    law_delete_then_post_rejected(r1, r2, id);
}

/// Keep-alive reaches only open sessions: a ping pass after a delete
/// cannot revive the deleted session, so no ping is ever queued for it
/// again.
pub proof fn law_no_ping_after_delete(r1: Registry, r2: Registry, r3: Registry, id: u64)
    requires
        r1.wf(),
        delete_rel(r1, r2, id),
        tick_rel(r2, r3),
    ensures
        !r3.has_session(id),
{
    law_delete_then_post_rejected(r1, r2, id);
    assert forall|j: int| 0 <= j < r3.sessions@.len() implies (
    #[trigger] r3.sessions@[j]).id != id by {
        assert(session_tick_rel(r2.sessions@[j], r3.sessions@[j]));
        assert(r2.sessions@[j].id != id);
    }
}

/// Ping passes keep their spacing: once `poll` fires at some instant —
/// leaving the schedule with that instant as its last tick — no pass
/// is due again before a full interval has gone by.
pub proof fn law_keep_alive_spacing(fired: KeepAliveSchedule, now_ms: u64)
    requires
        now_ms < fired.last_tick_ms + fired.interval_ms,
    ensures
        !fired.due(now_ms),
{
}

/// Sessions are isolated: a POST to one session leaves every other
/// session — its counter, its queues, its histories — exactly as it
/// was.
pub proof fn law_post_isolates(r1: Registry, r2: Registry, id: u64, m: MessageModel, other: u64)
    requires
        r1.wf(),
        post_rel(r1, r2, id, m),
        other != id,
        r1.has_session(other),
    ensures
        r2.has_session(other),
        r2.session_for(other) == r1.session_for(other),
{
    lemma_update_isolates(r1, r2, id, other);
}

/// Sessions are isolated under dispatch too: running one session's
/// service moves no other session's counter or queues.
pub proof fn law_dispatch_isolates(r1: Registry, r2: Registry, id: u64, other: u64)
    requires
        r1.wf(),
        dispatch_step_rel(r1, r2, id),
        other != id,
        r1.has_session(other),
    ensures
        r2.has_session(other),
        r2.session_for(other) == r1.session_for(other),
{
    lemma_update_isolates(r1, r2, id, other);
}

/// And under the whole dispatch loop: draining one session's queue
/// moves no other session, so two sessions incrementing concurrently
/// never observe each other's counter.
pub proof fn law_drain_isolates(r1: Registry, r2: Registry, id: u64, other: u64)
    requires
        r1.wf(),
        drain_step_rel(r1, r2, id),
        other != id,
        r1.has_session(other),
    ensures
        r2.has_session(other),
        r2.session_for(other) == r1.session_for(other),
{
    lemma_update_isolates(r1, r2, id, other);
}

/// And under delivery: handing one session's events to its stream
/// moves no other session.
pub proof fn law_take_isolates(r1: Registry, r2: Registry, id: u64, other: u64)
    requires
        r1.wf(),
        take_step_rel(r1, r2, id),
        other != id,
        r1.has_session(other),
    ensures
        r2.has_session(other),
        r2.session_for(other) == r1.session_for(other),
{
    lemma_update_isolates(r1, r2, id, other);
}

/// Updating the session with one id in place — its id kept — leaves
/// the session with any other id untouched and findable.
pub proof fn lemma_update_isolates(r1: Registry, r2: Registry, id: u64, other: u64)
    requires
        r1.wf(),
        r1.has_session(id),
        r2.sessions@ == r1.sessions@.update(
            r1.index_of_id(id),
            r2.sessions@[r1.index_of_id(id)],
        ),
        r2.sessions@[r1.index_of_id(id)].id == id,
        other != id,
        r1.has_session(other),
    ensures
        r2.has_session(other),
        r2.session_for(other) == r1.session_for(other),
{
    let i = r1.index_of_id(id);
    let w = r1.index_of_id(other);
    assert(0 <= i < r1.sessions@.len() && r1.sessions@[i].id == id);
    assert(0 <= w < r1.sessions@.len() && r1.sessions@[w].id == other);
    assert(w != i);
    assert(r2.sessions@[w] == r1.sessions@[w]);
    assert(r2.has_session(other));
    let w2 = r2.index_of_id(other);
    assert(0 <= w2 < r2.sessions@.len() && r2.sessions@[w2].id == other);
    if w2 != w {
        if w2 == i {
            assert(r2.sessions@[i].id == id);
        } else {
            assert(r2.sessions@[w2] == r1.sessions@[w2]);
            if w2 < w {
                assert(r1.sessions@[w2].id != r1.sessions@[w].id);
            } else {
                assert(r1.sessions@[w].id != r1.sessions@[w2].id);
            }
        }
    }
}

} // verus!
