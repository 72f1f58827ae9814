//! The life of one WebSocket connection, as a state machine: what to do with each frame
//! to send, each frame received, each send's outcome and each keep-alive tick. The
//! program around the library performs the actions and reports the events.
use vstd::prelude::*;
use crate::text::{contains, lowercase, str_contains, to_lowercase};

verus! {

/// After this many failures in a row the connection is closed.
pub const MAX_LINK_FAILURES: u32 = 5;

/// Frames to send longer than this many bytes are dropped.
pub const MAX_SEND_BYTES: usize = 100_000;

/// Frames received longer than this many bytes are ignored.
pub const MAX_RECEIVE_BYTES: usize = 1_000_000;

/// The connection is held for dead when no pong came for this long, in milliseconds.
pub const PONG_TIMEOUT_MS: i64 = 120_000;

/// How often a keep-alive ping goes out, in milliseconds.
pub const KEEPALIVE_INTERVAL_MS: i64 = 60_000;

/// The pause after a receive error, in milliseconds.
pub const RECEIVE_RETRY_MS: u64 = 100;

/// The state of an open connection.
pub struct LinkState {
    pub consecutive_failures: u32,
    /// When the last pong arrived (or the connection opened), in milliseconds.
    pub last_pong_ms: i64,
    /// Whether the connection is over.
    pub closed: bool,
}

/// What a send was for.
#[derive(Debug, Clone, Copy, PartialEq, Eq, Structural)]
pub enum SendKind {
    Frame,
    Pong,
    Ping,
}

/// What happens to a connection.
pub enum LinkEvent {
    /// The client shuts the connection down.
    Shutdown,
    /// A text frame is to be sent.
    Outgoing(String),
    /// A send finished, well or not.
    Sent { kind: SendKind, ok: bool },
    /// A text frame arrived.
    Text(String),
    /// A pong arrived at `now_ms`.
    Pong { now_ms: i64 },
    /// A ping arrived, with its payload.
    Ping(Vec<u8>),
    /// The server closed the connection.
    CloseReceived,
    /// A binary or raw frame arrived.
    Ignored,
    /// Receiving failed, with the error's text.
    ReceiveError(String),
    /// The keep-alive timer fired at `now_ms`.
    Tick { now_ms: i64 },
}

/// What the program must do for the connection.
pub enum LinkAction {
    /// Send this text frame.
    Send(String),
    /// Answer a ping with this payload.
    SendPong(Vec<u8>),
    /// Send a keep-alive ping.
    SendPing,
    /// Send a close frame: a normal closure for leaving the application (`app_exit`),
    /// or a bare one answering the server's.
    SendClose { app_exit: bool },
    /// Hand this received text to the frame decoder.
    Deliver(String),
    /// Wait this many milliseconds before receiving again.
    Pause(u64),
    /// Tell the client that the connection went down.
    NotifyDisconnected,
}

/// A fresh connection opened at `now_ms`.
pub open spec fn link_start(now_ms: i64) -> LinkState {
    LinkState { consecutive_failures: 0, last_pong_ms: now_ms, closed: false }
}

/// `x + 1`, staying at the maximum.
pub open spec fn inc_fail(x: u32) -> u32 {
    if x < u32::MAX { (x + 1) as u32 } else { x }
}

/// Whether a receive error's lowercased text says that the peer ended the connection.
pub open spec fn peer_gone(lower: Seq<char>) -> bool {
    ||| contains(lower, "connection closed"@)
    ||| contains(lower, "broken pipe"@)
    ||| contains(lower, "interrotta"@)
    ||| contains(lower, "10054"@)
}

/// `s` after the failure count grew and, when it reached the limit, the connection closed.
pub open spec fn failed(s: LinkState) -> (LinkState, Seq<LinkAction>) {
    let f = inc_fail(s.consecutive_failures);
    if f >= MAX_LINK_FAILURES {
        (LinkState { consecutive_failures: f, closed: true, ..s }, seq![LinkAction::NotifyDisconnected])
    } else {
        (LinkState { consecutive_failures: f, ..s }, Seq::empty())
    }
}

/// The state after event `ev` in state `s`, and the actions it asks for. A closed
/// connection ignores every event.
pub open spec fn link_step_spec(s: LinkState, ev: LinkEvent) -> (LinkState, Seq<LinkAction>) {
    if s.closed {
        (s, Seq::empty())
    } else {
        match ev {
            LinkEvent::Shutdown => (LinkState { closed: true, ..s }, seq![LinkAction::SendClose { app_exit: true }]),
            LinkEvent::Outgoing(text) => if byte_len(text@) > MAX_SEND_BYTES {
                (s, Seq::empty())
            } else {
                (s, seq![LinkAction::Send(text)])
            },
            LinkEvent::Sent { kind, ok } => if ok {
                (LinkState { consecutive_failures: 0, ..s }, Seq::empty())
            } else if kind == SendKind::Pong {
                (LinkState { consecutive_failures: inc_fail(s.consecutive_failures), ..s }, Seq::empty())
            } else {
                failed(s)
            },
            LinkEvent::Text(text) => if byte_len(text@) > MAX_RECEIVE_BYTES {
                (s, Seq::empty())
            } else {
                (LinkState { consecutive_failures: 0, ..s }, seq![LinkAction::Deliver(text)])
            },
            LinkEvent::Pong { now_ms } => (LinkState { consecutive_failures: 0, last_pong_ms: now_ms, ..s }, Seq::empty()),
            LinkEvent::Ping(p) => (s, seq![LinkAction::SendPong(p)]),
            LinkEvent::CloseReceived => (
                LinkState { closed: true, ..s },
                seq![LinkAction::SendClose { app_exit: false }, LinkAction::NotifyDisconnected],
            ),
            LinkEvent::Ignored => (s, Seq::empty()),
            LinkEvent::ReceiveError(e) => {
                let f = inc_fail(s.consecutive_failures);
                if peer_gone(lowercase(e@)) || f >= MAX_LINK_FAILURES {
                    (LinkState { consecutive_failures: f, closed: true, ..s }, seq![LinkAction::NotifyDisconnected])
                } else {
                    (LinkState { consecutive_failures: f, ..s }, seq![LinkAction::Pause(RECEIVE_RETRY_MS)])
                }
            },
            LinkEvent::Tick { now_ms } => if now_ms - s.last_pong_ms > PONG_TIMEOUT_MS {
                (LinkState { closed: true, ..s }, seq![LinkAction::NotifyDisconnected])
            } else {
                (s, seq![LinkAction::SendPing])
            },
        }
    }
}

/// The length in bytes of the UTF-8 encoding of `s`, as `str::len` gives it.
pub open spec fn byte_len(s: Seq<char>) -> usize {
    vstd::utf8::encode_utf8(s).len() as usize
}

fn one(a: LinkAction) -> (r: Vec<LinkAction>)
    ensures
        r@ == seq![a],
{
    let mut v = Vec::new();
    v.push(a);
    v
}

fn two(a: LinkAction, b: LinkAction) -> (r: Vec<LinkAction>)
    ensures
        r@ == seq![a, b],
{
    let mut v = Vec::new();
    v.push(a);
    v.push(b);
    v
}

/// A fresh connection opened at `now_ms`.
pub fn link_new(now_ms: i64) -> (r: LinkState)
    ensures
        r == link_start(now_ms),
{
    LinkState { consecutive_failures: 0, last_pong_ms: now_ms, closed: false }
}

fn fail(s: LinkState) -> (r: (LinkState, Vec<LinkAction>))
    ensures
        r.0 == failed(s).0,
        r.1@ == failed(s).1,
{
    let f = if s.consecutive_failures < u32::MAX { s.consecutive_failures + 1 } else { s.consecutive_failures };
    if f >= MAX_LINK_FAILURES {
        (LinkState { consecutive_failures: f, closed: true, ..s }, one(LinkAction::NotifyDisconnected))
    } else {
        (LinkState { consecutive_failures: f, ..s }, Vec::new())
    }
}

/// Takes event `ev` in state `s`: returns the next state and the actions to perform.
pub fn link_step(s: LinkState, ev: LinkEvent) -> (r: (LinkState, Vec<LinkAction>))
    ensures
        r.0 == link_step_spec(s, ev).0,
        r.1@ == link_step_spec(s, ev).1,
{
    if s.closed {
        return (s, Vec::new());
    }
    match ev {
        LinkEvent::Shutdown => (LinkState { closed: true, ..s }, one(LinkAction::SendClose { app_exit: true })),
        LinkEvent::Outgoing(text) => {
            if text.as_str().len() > MAX_SEND_BYTES {
                (s, Vec::new())
            } else {
                (s, one(LinkAction::Send(text)))
            }
        },
        LinkEvent::Sent { kind, ok } => {
            if ok {
                (LinkState { consecutive_failures: 0, ..s }, Vec::new())
            } else if kind == SendKind::Pong {
                let f = if s.consecutive_failures < u32::MAX { s.consecutive_failures + 1 } else { s.consecutive_failures };
                (LinkState { consecutive_failures: f, ..s }, Vec::new())
            } else {
                fail(s)
            }
        },
        LinkEvent::Text(text) => {
            if text.as_str().len() > MAX_RECEIVE_BYTES {
                (s, Vec::new())
            } else {
                (LinkState { consecutive_failures: 0, ..s }, one(LinkAction::Deliver(text)))
            }
        },
        LinkEvent::Pong { now_ms } => (LinkState { consecutive_failures: 0, last_pong_ms: now_ms, ..s }, Vec::new()),
        LinkEvent::Ping(p) => (s, one(LinkAction::SendPong(p))),
        LinkEvent::CloseReceived => (
            LinkState { closed: true, ..s },
            two(LinkAction::SendClose { app_exit: false }, LinkAction::NotifyDisconnected),
        ),
        LinkEvent::Ignored => (s, Vec::new()),
        LinkEvent::ReceiveError(e) => {
            let f = if s.consecutive_failures < u32::MAX { s.consecutive_failures + 1 } else { s.consecutive_failures };
            let lower = to_lowercase(e.as_str());
            let gone = str_contains(lower.as_str(), "connection closed") || str_contains(lower.as_str(), "broken pipe")
                || str_contains(lower.as_str(), "interrotta") || str_contains(lower.as_str(), "10054");
            if gone || f >= MAX_LINK_FAILURES {
                (LinkState { consecutive_failures: f, closed: true, ..s }, one(LinkAction::NotifyDisconnected))
            } else {
                (LinkState { consecutive_failures: f, ..s }, one(LinkAction::Pause(RECEIVE_RETRY_MS)))
            }
        },
        LinkEvent::Tick { now_ms } => {
            let since: i128 = (now_ms as i128) - (s.last_pong_ms as i128);
            if since > PONG_TIMEOUT_MS as i128 {
                (LinkState { closed: true, ..s }, one(LinkAction::NotifyDisconnected))
            } else {
                (s, one(LinkAction::SendPing))
            }
        },
    }
}

} // verus!
