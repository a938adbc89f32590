//! A session-oriented transport bridge: JSON-RPC-shaped tool calls arrive
//! over HTTP POST, responses and server pushes travel back over a
//! per-session event stream, and an explicit DELETE ends the session.
//! The modules here hold the transport's logic — session registry and
//! lifecycle, message dispatch, stream framing, keep-alive scheduling,
//! and the state composition that lets the routes mount inside a host
//! application — each with a contract that pins its behaviour down.

pub mod counter;
pub mod external;
pub mod frame;
pub mod handler;
pub mod keepalive;
pub mod laws;
pub mod message;
pub mod mount;
pub mod registry;
pub mod session;
