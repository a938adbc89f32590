//! The handler bridge: what each of the three HTTP endpoints decides,
//! stripped of the host framework's request and response machinery.
//! The host-facing glue only extracts plain fields — the session
//! header, the body's id and method — hands them in, and turns the
//! returned status number and payload back into a framework response.

use vstd::prelude::*;
use crate::message::{decode_message, Event, TransportError};
use crate::registry::{delete_rel, post_rel, Registry};

verus! {

/// What the stream-open loop does next after asking for events.
pub enum StreamStep {
    /// Write these frames, in order, then ask again.
    Emit(Vec<Event>),
    /// Nothing queued: block until woken or cancelled, then ask again.
    Wait,
    /// The session is gone, or this writer was superseded by a newer
    /// stream: terminate, emitting nothing — not even an error.
    Exit,
}

/// The stream writer's decision after one `take_events` call. This is
/// the whole control flow of the stream-open loop; the host glue only
/// performs the blocking and the writing.
pub fn stream_step(taken: Result<Option<Vec<Event>>, TransportError>) -> (s: StreamStep)
    ensures
        (match taken {
            Err(_) => s is Exit,
            Ok(None) => s is Exit,
            Ok(Some(evs)) => {
                &&& evs@.len() == 0 ==> s is Wait
                &&& evs@.len() > 0 ==> (s matches StreamStep::Emit(out) && out@ == evs@)
            },
        }),
{
    match taken {
        Err(_) => StreamStep::Exit,
        Ok(None) => StreamStep::Exit,
        Ok(Some(evs)) => {
            if evs.len() == 0 {
                StreamStep::Wait
            } else {
                StreamStep::Emit(evs)
            }
        },
    }
}

/// Transport-level acknowledgement: the request was taken; the
/// RPC-level result travels separately, over the stream.
pub const STATUS_ACCEPTED: u16 = 202;

/// Success: for DELETE, the session is absent afterwards either way.
pub const STATUS_OK: u16 = 200;

/// The body or the session header did not have the expected shape.
pub const STATUS_BAD_REQUEST: u16 = 400;

/// The named session is unknown or already closed.
pub const STATUS_NOT_FOUND: u16 = 404;

/// A resource limit: no session or stream generation left to allocate.
pub const STATUS_UNAVAILABLE: u16 = 503;

/// The status a failed stream-open maps to.
pub fn open_failure_status(e: TransportError) -> (code: u16)
    ensures
        e == TransportError::SessionNotFound ==> code == STATUS_NOT_FOUND,
        e != TransportError::SessionNotFound ==> code == STATUS_UNAVAILABLE,
{
    match e {
        TransportError::SessionNotFound => STATUS_NOT_FOUND,
        _ => STATUS_UNAVAILABLE,
    }
}

/// The POST endpoint's whole decision: a request without a session
/// header or with a malformed body is rejected without touching any
/// session; a request for an unknown or closed session is refused; a
/// well-formed request for an open session is enqueued — exactly on
/// that session — and acknowledged at the transport level only.
pub fn handle_post(
    reg: &mut Registry,
    session: Option<u64>,
    id: Option<u64>,
    method: Option<String>,
) -> (code: u16)
    requires
        old(reg).wf(),
    ensures
        final(reg).wf(),
        session is None || id is None || method is None ==> code == STATUS_BAD_REQUEST
            && *final(reg) == *old(reg),
        (match (session, id, method) {
            (Some(sid), Some(mid), Some(name)) => {
                &&& !old(reg).has_session(sid) ==> code == STATUS_NOT_FOUND
                    && *final(reg) == *old(reg)
                &&& old(reg).has_session(sid) ==> code == STATUS_ACCEPTED && post_rel(
                    *old(reg),
                    *final(reg),
                    sid,
                    crate::message::MessageModel { id: mid, method: name@ },
                )
            },
            _ => true,
        }),
{
    let sid = match session {
        None => {
            return STATUS_BAD_REQUEST;
        },
        Some(sid) => sid,
    };
    let m = match decode_message(id, method) {
        Err(_) => {
            return STATUS_BAD_REQUEST;
        },
        Ok(m) => m,
    };
    match reg.post_message(sid, m) {
        Ok(()) => STATUS_ACCEPTED,
        Err(_) => STATUS_NOT_FOUND,
    }
}

/// The DELETE endpoint's whole decision: a request without a session
/// header is rejected; otherwise the session is closed and the caller
/// sees success whether or not it still existed, since the observable
/// end state — session absent — is the same.
pub fn handle_delete(reg: &mut Registry, session: Option<u64>) -> (code: u16)
    requires
        old(reg).wf(),
    ensures
        final(reg).wf(),
        session is None ==> code == STATUS_BAD_REQUEST && *final(reg) == *old(reg),
        (match session {
            Some(sid) => code == STATUS_OK && !final(reg).has_session(sid) && delete_rel(
                *old(reg),
                *final(reg),
                sid,
            ),
            None => true,
        }),
{
    match session {
        None => STATUS_BAD_REQUEST,
        Some(sid) => {
            reg.delete_session(sid);
            STATUS_OK
        },
    }
}

} // verus!
