//! State composition for mounting: the transport's handlers need the
//! transport's state, the host application's handlers need the host's,
//! and both families sit behind one framework-level state container.
//! `Composed` wraps the two side by side — composition, not merging:
//! each handler borrows only the substate it reads, neither state is
//! cloned into the other, and the container owns no socket and no
//! accept loop.

use vstd::prelude::*;

verus! {

/// A read-only composition of the host's state and the transport's
/// state, with one narrowing accessor per substate.
pub struct Composed<H, T> {
    pub host: H,
    pub transport: T,
}

impl<H, T> Composed<H, T> {
    pub fn new(host: H, transport: T) -> (c: Self)
        ensures
            c.host == host,
            c.transport == transport,
    {
        Composed { host, transport }
    }

    /// The host's substate, untouched by the transport.
    pub fn host(&self) -> (r: &H)
        ensures
            *r == self.host,
    {
        &self.host
    }

    /// The transport's substate: one canonical instance, borrowed, so
    /// its identity is kept rather than duplicated per request.
    pub fn transport(&self) -> (r: &T)
        ensures
            *r == self.transport,
    {
        &self.transport
    }
}

/// The host application's own private state.
pub struct HostState {
    pub data: String,
}

/// What the host's greeting route answers.
pub open spec fn host_greeting(h: HostState) -> Seq<char> {
    "Hello world! "@ + h.data@
}

/// Relies on String::push_str: it appends the slice's characters to
/// the end of the string.
#[verifier::external_body]
fn append_str(s: &mut String, t: &str)
    ensures
        final(s)@ == old(s)@ + t@,
{
    s.push_str(t)
}

/// The host's greeting route, mounted beside the transport's routes.
/// Its contract speaks of the host substate alone, so an open or busy
/// transport session cannot change what it answers.
pub fn hello_world<T>(c: &Composed<HostState, T>) -> (r: String)
    ensures
        r@ == host_greeting(c.host),
{
    let mut r: String = "Hello world! ".to_owned();
    append_str(&mut r, c.host().data.as_str());
    r
}

} // verus!
