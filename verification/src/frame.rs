//! Stream framing: each outbound event becomes one frame body, a
//! JSON-RPC-shaped byte string. `spec_frame` is the mathematical frame
//! and `event_frame` produces exactly it; the HTTP layer only wraps
//! the bytes in the event-stream envelope.

use vstd::prelude::*;
use vstd::string::StringSliceAdditionalSpecFns;
use crate::message::Event;

verus! {

/// The decimal digits of `n`, most significant first.
pub open spec fn dec_digits(n: nat) -> Seq<u8>
    decreases n,
{
    if n < 10 {
        seq![(48 + n) as u8]
    } else {
        dec_digits(n / 10).push((48 + n % 10) as u8)
    }
}

/// The decimal notation of a signed code: a minus sign where needed.
pub open spec fn dec_signed(c: i64) -> Seq<u8> {
    if c < 0 {
        seq![45u8] + dec_digits((-c) as nat)
    } else {
        dec_digits(c as nat)
    }
}

/// The frame body carrying one event: a correlated result, a
/// correlated error object, or a comment line for the keep-alive ping,
/// which the client's correlation logic ignores.
pub open spec fn spec_frame(e: Event) -> Seq<u8> {
    match e {
        Event::Response { id, result } => "{\"id\":".spec_bytes() + dec_digits(id as nat)
            + ",\"result\":".spec_bytes() + dec_digits(result as nat) + "}".spec_bytes(),
        Event::Error { id, code } => "{\"id\":".spec_bytes() + dec_digits(id as nat)
            + ",\"error\":{\"code\":".spec_bytes() + dec_signed(code) + "}}".spec_bytes(),
        Event::Ping => ": keep-alive".spec_bytes(),
    }
}

/// The stream's opening frame for a fresh session: it announces the
/// assigned session id, before any event.
pub open spec fn spec_session_frame(id: u64) -> Seq<u8> {
    "{\"session\":".spec_bytes() + dec_digits(id as nat) + "}".spec_bytes()
}

/// Serializes the session announcement frame.
pub fn session_frame(id: u64) -> (r: Vec<u8>)
    ensures
        r@ == spec_session_frame(id),
{
    let mut v: Vec<u8> = Vec::new();
    push_lit(&mut v, "{\"session\":");
    push_dec(&mut v, id);
    push_lit(&mut v, "}");
    proof {
        assert(v@ =~= spec_session_frame(id));
    }
    v
}

/// Appends a literal's bytes.
fn push_lit(v: &mut Vec<u8>, s: &str)
    ensures
        final(v)@ == old(v)@ + s.spec_bytes(),
{
    let bytes = s.as_bytes();
    let n = bytes.len();
    let mut i: usize = 0;
    while i < n
        invariant
            bytes@ == s.spec_bytes(),
            n == bytes@.len(),
            0 <= i <= n,
            v@ == old(v)@ + bytes@.take(i as int),
        decreases n - i,
    {
        v.push(bytes[i]);
        proof {
            assert(v@ =~= old(v)@ + bytes@.take(i + 1));
        }
        i = i + 1;
    }
    proof {
        assert(bytes@.take(n as int) =~= bytes@);
    }
}

/// Appends the decimal digits of `n`.
fn push_dec(v: &mut Vec<u8>, n: u64)
    ensures
        final(v)@ == old(v)@ + dec_digits(n as nat),
    decreases n,
{
    if n >= 10 {
        push_dec(v, n / 10);
    }
    v.push(48 + (n % 10) as u8);
    proof {
        if n >= 10 {
            assert((old(v)@ + dec_digits((n / 10) as nat)).push((48 + (n as nat) % 10) as u8)
                =~= old(v)@ + dec_digits(n as nat));
        } else {
            assert(old(v)@.push((48 + (n as nat)) as u8) =~= old(v)@ + dec_digits(n as nat));
        }
    }
}

/// Serializes one event to its frame body.
pub fn event_frame(e: &Event) -> (r: Vec<u8>)
    ensures
        r@ == spec_frame(*e),
{
    let mut v: Vec<u8> = Vec::new();
    match e {
        Event::Response { id, result } => {
            push_lit(&mut v, "{\"id\":");
            push_dec(&mut v, *id);
            push_lit(&mut v, ",\"result\":");
            push_dec(&mut v, *result);
            push_lit(&mut v, "}");
            proof {
                assert(v@ =~= spec_frame(*e));
            }
        },
        Event::Error { id, code } => {
            push_lit(&mut v, "{\"id\":");
            push_dec(&mut v, *id);
            push_lit(&mut v, ",\"error\":{\"code\":");
            let c = *code;
            if c < 0 {
                v.push(45);
                let mag: u64 = (-(c as i128)) as u64;
                push_dec(&mut v, mag);
            } else {
                push_dec(&mut v, c as u64);
            }
            push_lit(&mut v, "}}");
            proof {
                assert(v@ =~= spec_frame(*e));
            }
        },
        Event::Ping => {
            push_lit(&mut v, ": keep-alive");
            proof {
                assert(v@ =~= spec_frame(*e));
            }
        },
    }
    v
}

} // verus!
