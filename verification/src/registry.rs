//! The process-wide session registry: the one structure every
//! concurrent request handler touches. It maps session ids to
//! sessions, allocates fresh unguessable-at-this-layer ids, and offers
//! the three transport operations — stream attach, message post,
//! session delete — plus dispatch and keep-alive. Every operation's
//! contract says exactly which session moved and that every other
//! session stood still.

use vstd::prelude::*;
use crate::message::{Event, Message, MessageModel, TransportError};
use crate::session::{attach_rel, dispatch_rel, drain_rel, enqueue_rel, ping_rel, take_rel,
    Session};

verus! {

/// What a successful stream-open hands the writer: which session it
/// serves and which generation it is. The writer stays live only while
/// its generation is current.
#[derive(Clone, Copy, PartialEq, Eq, Structural, Debug)]
pub struct StreamGrant {
    pub session_id: u64,
    pub epoch: u64,
}

/// The registry: sessions in creation order, and the next id to hand
/// out. Ids are never reused.
pub struct Registry {
    pub sessions: Vec<Session>,
    pub next_id: u64,
}

impl Registry {
    /// Well-formedness: every session is well-formed, ids are unique,
    /// and every id was drawn from the allocator.
    pub open spec fn wf(self) -> bool {
        &&& forall|i: int|
            0 <= i < self.sessions@.len() ==> (#[trigger] self.sessions@[i]).wf()
        &&& forall|i: int|
            0 <= i < self.sessions@.len() ==> (#[trigger] self.sessions@[i]).id < self.next_id
        &&& forall|i: int, j: int|
            0 <= i < j < self.sessions@.len() ==> (#[trigger] self.sessions@[i]).id != (
            #[trigger] self.sessions@[j]).id
    }

    /// Whether a session with this id is currently open.
    pub open spec fn has_session(self, id: u64) -> bool {
        exists|i: int| 0 <= i < self.sessions@.len() && (#[trigger] self.sessions@[i]).id == id
    }

    /// The index of the session with this id (meaningful only when
    /// `has_session` holds; unique by well-formedness).
    pub open spec fn index_of_id(self, id: u64) -> int {
        choose|i: int| 0 <= i < self.sessions@.len() && (#[trigger] self.sessions@[i]).id == id
    }

    /// The session with this id.
    pub open spec fn session_for(self, id: u64) -> Session {
        self.sessions@[self.index_of_id(id)]
    }

    /// A registry as the process starts: no sessions. Id 0 is never
    /// handed out, so a caller may use it as a sentinel.
    pub fn new() -> (r: Registry)
        ensures
            r.wf(),
            r.sessions@ == Seq::<Session>::empty(),
            r.next_id == 1,
    {
        Registry { sessions: Vec::new(), next_id: 1 }
    }

    /// Where the session with this id sits, if it is open.
    fn index_of(&self, id: u64) -> (r: Option<usize>)
        requires
            self.wf(),
        ensures
            r is Some <==> self.has_session(id),
            r matches Some(i) ==> 0 <= i < self.sessions@.len() && self.sessions@[i as int].id
                == id && i as int == self.index_of_id(id),
    {
        let n = self.sessions.len();
        let mut i: usize = 0;
        while i < n
            invariant
                n == self.sessions@.len(),
                0 <= i <= n,
                self.wf(),
                forall|k: int| 0 <= k < i ==> (#[trigger] self.sessions@[k]).id != id,
            decreases n - i,
        {
            if self.sessions[i].id == id {
                proof {
                    assert(self.sessions@[i as int].id == id);
                    let w = self.index_of_id(id);
                    assert(0 <= w < self.sessions@.len() && self.sessions@[w].id == id);
                    if w != i as int {
                        if w < i as int {
                            assert(self.sessions@[w].id != self.sessions@[i as int].id);
                        } else {
                            assert(self.sessions@[i as int].id != self.sessions@[w].id);
                        }
                    }
                }
                return Some(i);
            }
            i = i + 1;
        }
        proof {
            if self.has_session(id) {
                let w = self.index_of_id(id);
                assert(0 <= w < self.sessions@.len() && self.sessions@[w].id == id);
            }
        }
        None
    }

    /// Whether a session with this id is currently open.
    pub fn contains(&self, id: u64) -> (r: bool)
        requires
            self.wf(),
        ensures
            r == self.has_session(id),
    {
        self.index_of(id).is_some()
    }

    /// Borrows the session with this id, if it is open.
    pub fn lookup(&self, id: u64) -> (r: Option<&Session>)
        requires
            self.wf(),
        ensures
            r is Some <==> self.has_session(id),
            r matches Some(s) ==> *s == self.session_for(id),
    {
        match self.index_of(id) {
            None => None,
            Some(i) => Some(&self.sessions[i]),
        }
    }

    /// Creates a session: a fresh id, a fresh service instance, empty
    /// queues, first stream generation attached. Fails exactly when the
    /// id space is exhausted.
    pub fn open_session(&mut self) -> (r: Result<u64, TransportError>)
        requires
            old(self).wf(),
        ensures
            final(self).wf(),
            old(self).next_id == u64::MAX ==> r == Err::<u64, TransportError>(
                TransportError::RegistryExhausted,
            ) && *final(self) == *old(self),
            old(self).next_id < u64::MAX ==> (r == Ok::<u64, TransportError>(old(self).next_id)
                && open_rel(*old(self), *final(self), old(self).next_id)),
    {
        if self.next_id == u64::MAX {
            return Err(TransportError::RegistryExhausted);
        }
        let id = self.next_id;
        let s = Session::new(id);
        self.sessions.push(s);
        self.next_id = self.next_id + 1;
        proof {
            assert(self.sessions@ =~= old(self).sessions@.push(s));
            assert forall|i: int| 0 <= i < self.sessions@.len() implies (
            #[trigger] self.sessions@[i]).wf() by {
                if i < old(self).sessions@.len() {
                    assert(old(self).sessions@[i].wf());
                }
            }
        }
        Ok(id)
    }

    /// Opens or resumes an event stream. With no session id a fresh
    /// session is created and its id travels back in the grant, to be
    /// sent as the stream's first frame; with the id of an open session
    /// the new writer supersedes the old one, whose generation goes
    /// stale; an unknown id is rejected.
    pub fn open_stream(&mut self, existing: Option<u64>) -> (r: Result<
        StreamGrant,
        TransportError,
    >)
        requires
            old(self).wf(),
        ensures
            final(self).wf(),
            r is Err ==> *final(self) == *old(self),
            (match existing {
                Some(id) => {
                    &&& !old(self).has_session(id) ==> r == Err::<StreamGrant, TransportError>(
                        TransportError::SessionNotFound,
                    )
                    &&& old(self).has_session(id) && old(self).session_for(id).stream_epoch
                        < u64::MAX ==> (r matches Ok(g) && g.session_id == id && g.epoch == old(
                        self,
                    ).session_for(id).stream_epoch + 1 && resume_rel(*old(self), *final(self), id))
                    &&& old(self).has_session(id) && old(self).session_for(id).stream_epoch
                        == u64::MAX ==> r == Err::<StreamGrant, TransportError>(
                        TransportError::RegistryExhausted,
                    )
                },
                None => {
                    &&& old(self).next_id < u64::MAX ==> (r matches Ok(g) && g.session_id == old(
                        self,
                    ).next_id && g.epoch == 1 && open_rel(*old(self), *final(self), old(self).next_id))
                    &&& old(self).next_id == u64::MAX ==> r == Err::<StreamGrant, TransportError>(
                        TransportError::RegistryExhausted,
                    )
                },
            }),
    {
        match existing {
            None => {
                let id = self.open_session()?;
                Ok(StreamGrant { session_id: id, epoch: 1 })
            },
            Some(id) => {
                let i = match self.index_of(id) {
                    None => {
                        return Err(TransportError::SessionNotFound);
                    },
                    Some(i) => i,
                };
                if self.sessions[i].stream_epoch == u64::MAX {
                    return Err(TransportError::RegistryExhausted);
                }
                let mut s = self.sessions.remove(i);
                let bumped = s.attach_stream();
                self.sessions.insert(i, s);
                proof {
                    assert(self.sessions@ =~= old(self).sessions@.update(
                        i as int,
                        self.sessions@[i as int],
                    ));
                    self.lemma_update_wf(*old(self), i as int);
                }
                match bumped {
                    None => {
                        proof {
                            assert(false);
                        }
                        Err(TransportError::RegistryExhausted)
                    },
                    Some(epoch) => Ok(StreamGrant { session_id: id, epoch }),
                }
            },
        }
    }

    /// Accepts one request for the session it names and returns at
    /// once: the RPC-level result travels later, over the stream,
    /// correlated by the request's id. Fails exactly when the session
    /// is unknown or already closed.
    pub fn post_message(&mut self, id: u64, m: Message) -> (r: Result<(), TransportError>)
        requires
            old(self).wf(),
        ensures
            final(self).wf(),
            r is Ok <==> old(self).has_session(id),
            !old(self).has_session(id) ==> r == Err::<(), TransportError>(
                TransportError::SessionNotFound,
            ) && *final(self) == *old(self),
            old(self).has_session(id) ==> post_rel(*old(self), *final(self), id, m@),
    {
        let i = match self.index_of(id) {
            None => {
                return Err(TransportError::SessionNotFound);
            },
            Some(i) => i,
        };
        let mut s = self.sessions.remove(i);
        s.enqueue_inbound(m);
        self.sessions.insert(i, s);
        proof {
            assert(self.sessions@ =~= old(self).sessions@.update(
                i as int,
                self.sessions@[i as int],
            ));
            self.lemma_update_wf(*old(self), i as int);
        }
        Ok(())
    }

    /// Dispatches the oldest queued request of the named session, if
    /// any, and queues the resulting event. `Ok(true)` when a request
    /// was dispatched.
    pub fn dispatch_session(&mut self, id: u64) -> (r: Result<bool, TransportError>)
        requires
            old(self).wf(),
        ensures
            final(self).wf(),
            r is Ok <==> old(self).has_session(id),
            !old(self).has_session(id) ==> r == Err::<bool, TransportError>(
                TransportError::SessionNotFound,
            ) && *final(self) == *old(self),
            old(self).has_session(id) ==> (r == Ok::<bool, TransportError>(old(self).session_for(
                id,
            ).inbound@.len() > 0) && dispatch_step_rel(*old(self), *final(self), id)),
    {
        let i = match self.index_of(id) {
            None => {
                return Err(TransportError::SessionNotFound);
            },
            Some(i) => i,
        };
        let mut s = self.sessions.remove(i);
        let progressed = s.dispatch_next();
        self.sessions.insert(i, s);
        proof {
            assert(self.sessions@ =~= old(self).sessions@.update(
                i as int,
                self.sessions@[i as int],
            ));
            self.lemma_update_wf(*old(self), i as int);
        }
        Ok(progressed)
    }

    /// Runs the named session's dispatch loop to completion: every
    /// queued request is served in arrival order, one event queued per
    /// request.
    pub fn dispatch_all(&mut self, id: u64) -> (r: Result<(), TransportError>)
        requires
            old(self).wf(),
        ensures
            final(self).wf(),
            r is Ok <==> old(self).has_session(id),
            !old(self).has_session(id) ==> r == Err::<(), TransportError>(
                TransportError::SessionNotFound,
            ) && *final(self) == *old(self),
            old(self).has_session(id) ==> drain_step_rel(*old(self), *final(self), id),
    {
        let i = match self.index_of(id) {
            None => {
                return Err(TransportError::SessionNotFound);
            },
            Some(i) => i,
        };
        let mut s = self.sessions.remove(i);
        s.dispatch_all();
        self.sessions.insert(i, s);
        proof {
            assert(self.sessions@ =~= old(self).sessions@.update(
                i as int,
                self.sessions@[i as int],
            ));
            self.lemma_update_wf(*old(self), i as int);
        }
        Ok(())
    }

    /// Hands the named session's queued events to the stream writer of
    /// generation `epoch`, in production order. `Ok(None)` tells a
    /// stale or cancelled writer to terminate quietly; the events stay
    /// for the live writer, so none is ever delivered twice.
    pub fn take_events(&mut self, id: u64, epoch: u64) -> (r: Result<
        Option<Vec<Event>>,
        TransportError,
    >)
        requires
            old(self).wf(),
        ensures
            final(self).wf(),
            r is Ok <==> old(self).has_session(id),
            !old(self).has_session(id) ==> r == Err::<Option<Vec<Event>>, TransportError>(
                TransportError::SessionNotFound,
            ) && *final(self) == *old(self),
            old(self).has_session(id) && !old(self).session_for(id).writer_live(epoch) ==> r
                == Ok::<Option<Vec<Event>>, TransportError>(None) && *final(self) == *old(self),
            old(self).has_session(id) && old(self).session_for(id).writer_live(epoch) ==> (
            r matches Ok(Some(evs)) && evs@ == old(self).session_for(id).outbound@ && take_step_rel(
                *old(self),
                *final(self),
                id,
            )),
    {
        let i = match self.index_of(id) {
            None => {
                return Err(TransportError::SessionNotFound);
            },
            Some(i) => i,
        };
        if self.sessions[i].cancelled || epoch != self.sessions[i].stream_epoch {
            return Ok(None);
        }
        let mut s = self.sessions.remove(i);
        let taken = s.take_outbound(epoch);
        self.sessions.insert(i, s);
        proof {
            assert(self.sessions@ =~= old(self).sessions@.update(
                i as int,
                self.sessions@[i as int],
            ));
            self.lemma_update_wf(*old(self), i as int);
        }
        Ok(taken)
    }

    /// Closes the named session: cancellation fires, the queues are
    /// dropped with it, the entry goes away. Idempotent at the HTTP
    /// layer: the caller treats `false` — already absent — as the same
    /// success, since the end state is identical.
    pub fn delete_session(&mut self, id: u64) -> (existed: bool)
        requires
            old(self).wf(),
        ensures
            final(self).wf(),
            existed == old(self).has_session(id),
            !final(self).has_session(id),
            delete_rel(*old(self), *final(self), id),
    {
        let i = match self.index_of(id) {
            None => {
                return false;
            },
            Some(i) => i,
        };
        let mut s = self.sessions.remove(i);
        s.cancel();
        proof {
            assert(self.sessions@ =~= old(self).sessions@.remove(i as int));
            assert forall|j: int| 0 <= j < self.sessions@.len() implies (
            #[trigger] self.sessions@[j]).id != id by {
                if j < i as int {
                    assert(old(self).sessions@[j].id != old(self).sessions@[i as int].id);
                } else {
                    assert(old(self).sessions@[i as int].id != old(self).sessions@[j + 1].id);
                }
            }
        }
        true
    }

    /// Queues one keep-alive ping on every open, uncancelled session.
    /// Runs independently of message traffic and moves nothing else, so
    /// inbound and outbound ordering is untouched.
    pub fn keep_alive_tick(&mut self)
        requires
            old(self).wf(),
        ensures
            final(self).wf(),
            tick_rel(*old(self), *final(self)),
    {
        let n = self.sessions.len();
        let mut i: usize = 0;
        while i < n
            invariant
                n == self.sessions@.len(),
                n == old(self).sessions@.len(),
                0 <= i <= n,
                self.wf(),
                self.next_id == old(self).next_id,
                forall|j: int|
                    0 <= j < i ==> session_tick_rel(
                        old(self).sessions@[j],
                        #[trigger] self.sessions@[j],
                    ),
                forall|j: int| i <= j < n ==> #[trigger] self.sessions@[j] == old(self).sessions@[j],
            decreases n - i,
        {
            let ghost pre_iter = *self;
            let mut s = self.sessions.remove(i);
            if !s.cancelled {
                s.push_ping();
            }
            self.sessions.insert(i, s);
            proof {
                assert(self.sessions@ =~= pre_iter.sessions@.update(
                    i as int,
                    self.sessions@[i as int],
                ));
                self.lemma_update_wf(pre_iter, i as int);
            }
            i = i + 1;
        }
    }

    /// Process shutdown: every session is removed at once, dropping
    /// every queue and service instance; every stream writer then
    /// finds its session gone and terminates. The id allocator is
    /// kept, so ids are never reused across a drain.
    pub fn shutdown(&mut self)
        requires
            old(self).wf(),
        ensures
            final(self).wf(),
            final(self).sessions@ == Seq::<Session>::empty(),
            final(self).next_id == old(self).next_id,
    {
        self.sessions.clear();
    }

    /// Replacing one session with a well-formed one of the same id
    /// keeps the registry well-formed.
    proof fn lemma_update_wf(self, pre: Registry, i: int)
        requires
            pre.wf(),
            0 <= i < pre.sessions@.len(),
            self.next_id == pre.next_id,
            self.sessions@ == pre.sessions@.update(i, self.sessions@[i]),
            self.sessions@[i].wf(),
            self.sessions@[i].id == pre.sessions@[i].id,
        ensures
            self.wf(),
    {
        assert forall|k: int| 0 <= k < self.sessions@.len() implies (
        #[trigger] self.sessions@[k]).wf() by {
            if k != i {
                assert(pre.sessions@[k].wf());
            }
        }
        assert forall|k: int| 0 <= k < self.sessions@.len() implies (
        #[trigger] self.sessions@[k]).id == pre.sessions@[k].id by {
            if k != i {
                assert(self.sessions@[k] == pre.sessions@[k]);
            }
        }
        assert forall|k: int| 0 <= k < self.sessions@.len() implies (
        #[trigger] self.sessions@[k]).id < self.next_id by {
            assert(pre.sessions@[k].id < pre.next_id);
        }
    }
}

/// A fresh session with id `id` was appended; every existing session
/// stood still and the id allocator moved one up.
pub open spec fn open_rel(pre: Registry, post: Registry, id: u64) -> bool {
    &&& post.sessions@.len() == pre.sessions@.len() + 1
    &&& forall|j: int|
        0 <= j < pre.sessions@.len() ==> #[trigger] post.sessions@[j] == pre.sessions@[j]
    &&& post.sessions@.last().fresh(id)
    &&& id == pre.next_id
    &&& post.next_id == pre.next_id + 1
}

/// Exactly the named session took `m` into its inbound queue.
pub open spec fn post_rel(pre: Registry, post: Registry, id: u64, m: MessageModel) -> bool {
    &&& pre.has_session(id)
    &&& post.sessions@ == pre.sessions@.update(
        pre.index_of_id(id),
        post.sessions@[pre.index_of_id(id)],
    )
    &&& enqueue_rel(pre.session_for(id), post.sessions@[pre.index_of_id(id)], m)
    &&& post.next_id == pre.next_id
}

/// Exactly the named session dispatched its oldest request, or stood
/// still if it had none.
pub open spec fn dispatch_step_rel(pre: Registry, post: Registry, id: u64) -> bool {
    &&& pre.has_session(id)
    &&& post.sessions@ == pre.sessions@.update(
        pre.index_of_id(id),
        post.sessions@[pre.index_of_id(id)],
    )
    &&& (if pre.session_for(id).inbound@.len() > 0 {
        dispatch_rel(pre.session_for(id), post.sessions@[pre.index_of_id(id)])
    } else {
        post.sessions@[pre.index_of_id(id)] == pre.session_for(id)
    })
    &&& post.next_id == pre.next_id
}

/// Exactly the named session served its whole inbound queue.
pub open spec fn drain_step_rel(pre: Registry, post: Registry, id: u64) -> bool {
    &&& pre.has_session(id)
    &&& post.sessions@ == pre.sessions@.update(
        pre.index_of_id(id),
        post.sessions@[pre.index_of_id(id)],
    )
    &&& drain_rel(pre.session_for(id), post.sessions@[pre.index_of_id(id)])
    &&& post.next_id == pre.next_id
}

/// Exactly the named session moved its outbound queue into its
/// delivered history.
pub open spec fn take_step_rel(pre: Registry, post: Registry, id: u64) -> bool {
    &&& pre.has_session(id)
    &&& post.sessions@ == pre.sessions@.update(
        pre.index_of_id(id),
        post.sessions@[pre.index_of_id(id)],
    )
    &&& take_rel(pre.session_for(id), post.sessions@[pre.index_of_id(id)])
    &&& post.next_id == pre.next_id
}

/// Exactly the named session's stream generation moved one up.
pub open spec fn resume_rel(pre: Registry, post: Registry, id: u64) -> bool {
    &&& pre.has_session(id)
    &&& post.sessions@ == pre.sessions@.update(
        pre.index_of_id(id),
        post.sessions@[pre.index_of_id(id)],
    )
    &&& attach_rel(pre.session_for(id), post.sessions@[pre.index_of_id(id)])
    &&& post.next_id == pre.next_id
}

/// The named session is gone — cancelled on the way out — and every
/// other session stood still, in order.
pub open spec fn delete_rel(pre: Registry, post: Registry, id: u64) -> bool {
    &&& (if pre.has_session(id) {
        post.sessions@ == pre.sessions@.remove(pre.index_of_id(id))
    } else {
        post == pre
    })
    &&& post.next_id == pre.next_id
}

/// Every uncancelled session took exactly one ping; cancelled ones
/// stood still.
pub open spec fn session_tick_rel(pre: Session, post: Session) -> bool {
    if pre.cancelled {
        post == pre
    } else {
        ping_rel(pre, post)
    }
}

/// The keep-alive pass over the whole registry.
pub open spec fn tick_rel(pre: Registry, post: Registry) -> bool {
    &&& post.sessions@.len() == pre.sessions@.len()
    &&& forall|j: int|
        0 <= j < pre.sessions@.len() ==> session_tick_rel(
            pre.sessions@[j],
            #[trigger] post.sessions@[j],
        )
    &&& post.next_id == pre.next_id
}

} // verus!
