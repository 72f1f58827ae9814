//! The way out to the server: the rate limiter, the preparation of the requests, and the
//! WebSocket manager that owns them.
use vstd::prelude::*;
use vstd::utf8::encode_utf8;
use crate::connection::{counters_ok, manage_spec, ConnectionAction, ConnectionManager};
use crate::external::now_millis;
use crate::model::Outgoing;
use crate::state::{AppState, OUTGOING_CAPACITY};
use crate::text::{blank, chars_of, is_blank, string_from_chars, trim, trimmed};
use crate::view::AppView;

verus! {

/// How many requests may go out in one window.
pub const MAX_MESSAGES_PER_WINDOW: u32 = 100;

/// The length of a rate-limiting window, in milliseconds.
pub const WINDOW_MS: i64 = 60_000;

/// How many requests one round takes from the queue at most.
pub const MAX_PER_ROUND: usize = 200;

/// The longest chat message sent, in chars; a longer one is cut.
pub const MAX_CONTENT_CHARS: usize = 10_000;

/// The limiter `a` becomes `b` when asked at `now` whether another request may go out,
/// and `ok` is the answer: a window that is over starts anew at `now`.
pub open spec fn rate_check(a: RateLimiter, b: RateLimiter, ok: bool, now: i64) -> bool {
    &&& if window_over(a.window_start, now, a.window_duration_ms) {
        &&& b.messages_sent == 0
        &&& b.window_start == now
    } else {
        &&& b.messages_sent == a.messages_sent
        &&& b.window_start == a.window_start
    }
    &&& b.max_messages_per_window == a.max_messages_per_window
    &&& b.window_duration_ms == a.window_duration_ms
    &&& ok == (b.messages_sent < b.max_messages_per_window)
}

/// Limits how many requests go out per window of time.
pub struct RateLimiter {
    pub messages_sent: u32,
    /// When the current window started, in milliseconds.
    pub window_start: i64,
    pub max_messages_per_window: u32,
    pub window_duration_ms: i64,
}

/// Whether the window that started at `start` is over at `now`.
pub open spec fn window_over(start: i64, now: i64, duration: i64) -> bool {
    (if now >= start { now - start } else { 0 }) > duration
}

impl RateLimiter {
    /// A limiter whose first window starts at `now`.
    pub fn new_at(now: i64) -> (r: Self)
        ensures
            r.messages_sent == 0,
            r.window_start == now,
            r.max_messages_per_window == MAX_MESSAGES_PER_WINDOW,
            r.window_duration_ms == WINDOW_MS,
    {
        RateLimiter {
            messages_sent: 0,
            window_start: now,
            max_messages_per_window: MAX_MESSAGES_PER_WINDOW,
            window_duration_ms: WINDOW_MS,
        }
    }

    /// A limiter whose first window starts now.
    pub fn new() -> (r: Self)
        ensures
            r.messages_sent == 0,
            r.window_start >= 0,
            r.max_messages_per_window == MAX_MESSAGES_PER_WINDOW,
            r.window_duration_ms == WINDOW_MS,
    {
        Self::new_at(now_millis())
    }

    /// Whether another request may go out at `now`; a window that is over starts anew.
    pub fn check_rate_limit_at(&mut self, now: i64) -> (ok: bool)
        ensures
            rate_check(*old(self), *final(self), ok, now),
    {
        let elapsed: i128 = if now >= self.window_start { (now as i128) - (self.window_start as i128) } else { 0 };
        if elapsed > self.window_duration_ms as i128 {
            self.messages_sent = 0;
            self.window_start = now;
        }
        self.messages_sent < self.max_messages_per_window
    }

    /// Whether another request may go out now.
    pub fn check_rate_limit(&mut self) -> (ok: bool)
        ensures
            exists|now: i64| now >= 0 && #[trigger] rate_check(*old(self), *final(self), ok, now),
    {
        let now = now_millis();
        self.check_rate_limit_at(now)
    }

    /// Counts one more request sent.
    pub fn increment_sent(&mut self)
        requires
            old(self).messages_sent < u32::MAX,
        ensures
            final(self).messages_sent == old(self).messages_sent + 1,
            final(self).window_start == old(self).window_start,
            final(self).max_messages_per_window == old(self).max_messages_per_window,
            final(self).window_duration_ms == old(self).window_duration_ms,
    {
        self.messages_sent = self.messages_sent + 1;
    }
}

/// A chat message's text as it goes out: cut to `MAX_CONTENT_CHARS` chars when it is
/// longer than that many bytes.
pub open spec fn sent_content(c: Seq<char>) -> Seq<char> {
    if (encode_utf8(c).len() as usize) > MAX_CONTENT_CHARS && c.len() > MAX_CONTENT_CHARS {
        c.take(MAX_CONTENT_CHARS as int)
    } else {
        c
    }
}

/// Whether some name of `us` is nothing but white space.
pub open spec fn has_blank(us: Seq<String>) -> bool {
    exists|i: int| 0 <= i < us.len() && blank((#[trigger] us[i])@)
}

/// Whether request `o` is refused before it goes out: a chat message with nothing but
/// white space, or an invitation that names nobody or a blank name.
pub open spec fn refused(o: Outgoing) -> bool {
    match o {
        Outgoing::ChatMessage { content, .. } => blank(content@),
        Outgoing::InviteUser { usernames, .. } => usernames@.len() == 0 || has_blank(usernames@),
        _ => false,
    }
}

/// `ts` are the names of `us`, each trimmed.
pub open spec fn trimmed_names(us: Seq<String>, ts: Seq<String>) -> bool {
    &&& ts.len() == us.len()
    &&& forall|i: int| 0 <= i < us.len() ==> (#[trigger] ts[i])@ == trim(us[i]@)
}

/// `p` is request `o` as it goes out.
pub open spec fn prepared_as(o: Outgoing, p: Outgoing) -> bool {
    match o {
        Outgoing::ChatMessage { cid, content, target_username, target_usernames, client_msg_id } => p matches Outgoing::ChatMessage {
            cid: c2,
            content: t2,
            target_username: u2,
            target_usernames: us2,
            client_msg_id: m2,
        } && c2 == cid && t2@ == sent_content(content@) && u2 == target_username && us2 == target_usernames && m2 == client_msg_id,
        Outgoing::InviteUser { cid, usernames } => p matches Outgoing::InviteUser { cid: c2, usernames: u2 }
            && c2 == cid && trimmed_names(usernames@, u2@),
        _ => p == o,
    }
}

/// The first `n` chars of `s`.
fn first_chars(s: &str, n: usize) -> (r: String)
    ensures
        r@ == (if s@.len() > n { s@.take(n as int) } else { s@ }),
{
    let v = chars_of(s);
    if v.len() <= n {
        return string_from_chars(v.as_slice());
    }
    let mut w: Vec<char> = Vec::new();
    let mut i: usize = 0;
    while i < n
        invariant
            i <= n,
            n < v.len(),
            w@ == v@.take(i as int),
        decreases n - i,
    {
        w.push(v[i]);
        proof {
            assert(w@ =~= v@.take(i + 1));
        }
        i = i + 1;
    }
    string_from_chars(w.as_slice())
}

/// Checks the names of an invitation: `None` when one is blank, otherwise each trimmed.
fn trim_names(us: &Vec<String>) -> (r: Option<Vec<String>>)
    ensures
        r is None == has_blank(us@),
        r matches Some(ts) ==> trimmed_names(us@, ts@),
{
    let mut out: Vec<String> = Vec::new();
    let mut i: usize = 0;
    while i < us.len()
        invariant
            i <= us.len(),
            !has_blank(us@.take(i as int)),
            trimmed_names(us@.take(i as int), out@),
        decreases us.len() - i,
    {
        if is_blank(us[i].as_str()) {
            assert(blank(us@[i as int]@));
            return None;
        }
        let t = trimmed(us[i].as_str());
        proof {
            let u1 = us@.take(i + 1);
            assert forall|j: int| 0 <= j < u1.len() implies !blank((#[trigger] u1[j])@) by {
                if j < i {
                    assert(u1[j] == us@.take(i as int)[j]);
                }
            }
        }
        out.push(t);
        proof {
            let u1 = us@.take(i + 1);
            assert forall|j: int| 0 <= j < u1.len() implies (#[trigger] out@[j])@ == trim(u1[j]@) by {
                if j < i {
                    assert(u1[j] == us@.take(i as int)[j]);
                }
            }
        }
        i = i + 1;
    }
    proof {
        assert(us@.take(us.len() as int) =~= us@);
    }
    Some(out)
}

/// Prepares a request to go out: a blank chat message is refused, a long one is cut; an
/// invitation naming nobody or a blank name is refused, its names are trimmed.
pub fn prepare_outgoing(o: Outgoing) -> (r: Option<Outgoing>)
    ensures
        r is None == refused(o),
        r matches Some(p) ==> prepared_as(o, p),
{
    match o {
        Outgoing::ChatMessage { cid, content, target_username, target_usernames, client_msg_id } => {
            if is_blank(content.as_str()) {
                return None;
            }
            let text = if content.as_str().len() > MAX_CONTENT_CHARS {
                first_chars(content.as_str(), MAX_CONTENT_CHARS)
            } else {
                content
            };
            Some(Outgoing::ChatMessage { cid, content: text, target_username, target_usernames, client_msg_id })
        },
        Outgoing::InviteUser { cid, usernames } => {
            if usernames.len() == 0 {
                return None;
            }
            match trim_names(&usernames) {
                Some(ts) => Some(Outgoing::InviteUser { cid, usernames: ts }),
                None => None,
            }
        },
        other => Some(other),
    }
}

/// Takes the requests queued for the server out to the WebSocket.
pub struct MessageProcessor;

/// `out` are the requests of `qs` that are not refused, each prepared, in order.
pub open spec fn sent_of(qs: Seq<Outgoing>, out: Seq<Outgoing>) -> bool
    decreases qs.len(),
{
    if qs.len() == 0 {
        out.len() == 0
    } else if refused(qs.last()) {
        sent_of(qs.drop_last(), out)
    } else {
        out.len() > 0 && prepared_as(qs.last(), out.last()) && sent_of(qs.drop_last(), out.drop_last())
    }
}

/// How many requests a round takes from a queue of `n`: at most `MAX_PER_ROUND`; the
/// rest stays queued, in order, for the next round.
pub open spec fn round_len(n: int) -> int {
    if n > MAX_PER_ROUND { MAX_PER_ROUND as int } else { n }
}

/// `b` is `a` after one round of the request queue, `out` being the requests that go
/// out: with a connection, the front of the queue is taken and its requests that are not
/// refused go out, prepared; without one, the first request goes back to the end.
pub open spec fn round_rel(a: AppView, b: AppView, out: Seq<Outgoing>) -> bool {
    if a.ws.has_ws_control {
        &&& b == (AppView { outgoing: a.outgoing.skip(round_len(a.outgoing.len() as int)), ..a })
        &&& sent_of(a.outgoing.take(round_len(a.outgoing.len() as int)), out)
    } else {
        &&& out.len() == 0
        &&& b == (if a.outgoing.len() == 0 { a } else { AppView { outgoing: a.outgoing.drop_first().push(a.outgoing[0]), ..a } })
    }
}

/// One round of the request processor at `now`: the limiter `r0` becomes `r1`, the state
/// `a` becomes `b`, and `out` goes out. Unless the rate limit is reached, the round takes
/// the queue as `round_rel` says and counts what went out; otherwise nothing moves.
pub open spec fn outgoing_round(r0: RateLimiter, r1: RateLimiter, a: AppView, b: AppView, out: Seq<Outgoing>, now: i64) -> bool {
    let sent0 = if window_over(r0.window_start, now, r0.window_duration_ms) { 0 } else { r0.messages_sent };
    &&& r1.max_messages_per_window == r0.max_messages_per_window
    &&& r1.window_duration_ms == r0.window_duration_ms
    &&& if sent0 < r0.max_messages_per_window {
        &&& round_rel(a, b, out)
        &&& r1.messages_sent == sent0 + out.len()
    } else {
        &&& out.len() == 0
        &&& b == a
        &&& r1.messages_sent == sent0
    }
}

impl MessageProcessor {
    pub fn new() -> (r: Self) {
        MessageProcessor
    }

    /// Takes the queued requests out at `now`, unless the rate limit is reached; returns
    /// those that go out, prepared, in order (each counted by the limiter).
    pub fn process_outgoing_messages_at(&self, state: &mut AppState, rate_limiter: &mut RateLimiter, now: i64) -> (out: Vec<Outgoing>)
        requires
            old(rate_limiter).max_messages_per_window < u32::MAX - MAX_PER_ROUND,
        ensures
            outgoing_round(*old(rate_limiter), *final(rate_limiter), old(state)@, final(state)@, out@, now),
    {
        let mut out: Vec<Outgoing> = Vec::new();
        if !rate_limiter.check_rate_limit_at(now) {
            return out;
        }
        if !state.ws.has_ws_control {
            if state.outgoing.len() > 0 {
                let first = state.outgoing.remove(0);
                state.outgoing.push(first);
            }
            return out;
        }
        let ghost q = state.outgoing@;
        let ghost s0 = rate_limiter.messages_sent;
        let mut taken: usize = 0;
        while taken < MAX_PER_ROUND && state.outgoing.len() > 0
            invariant
                taken <= MAX_PER_ROUND,
                taken <= q.len(),
                state.outgoing@ == q.skip(taken as int),
                sent_of(q.take(taken as int), out@),
                out@.len() <= taken,
                s0 < rate_limiter.max_messages_per_window,
                rate_limiter.max_messages_per_window < u32::MAX - MAX_PER_ROUND,
                rate_limiter.messages_sent == s0 + out@.len(),
                rate_limiter.max_messages_per_window == old(rate_limiter).max_messages_per_window,
                rate_limiter.window_duration_ms == old(rate_limiter).window_duration_ms,
                *state == (AppState { outgoing: state.outgoing, ..*old(state) }),
            decreases MAX_PER_ROUND - taken,
        {
            let o = state.outgoing.remove(0);
            proof {
                assert(o == q[taken as int]);
                assert(q.take(taken + 1).drop_last() =~= q.take(taken as int));
                assert(q.take(taken + 1).last() == q[taken as int]);
            }
            taken = taken + 1;
            let ghost go = o;
            match prepare_outgoing(o) {
                Some(p) => {
                    let ghost before = out@;
                    out.push(p);
                    rate_limiter.increment_sent();
                    proof {
                        assert(out@.drop_last() =~= before);
                    }
                },
                None => {},
            }
            proof {
                assert(state.outgoing@ =~= q.skip(taken as int));
            }
        }
        out
    }
}

impl MessageProcessor {
    /// Takes the queued requests out now, unless the rate limit is reached; returns those
    /// that go out, prepared, in order.
    pub fn process_outgoing_messages(&self, state: &mut AppState, rate_limiter: &mut RateLimiter) -> (out: Vec<Outgoing>)
        requires
            old(rate_limiter).max_messages_per_window < u32::MAX - MAX_PER_ROUND,
        ensures
            exists|now: i64| now >= 0 && #[trigger] outgoing_round(*old(rate_limiter), *final(rate_limiter), old(state)@, final(state)@, out@, now),
    {
        let now = now_millis();
        self.process_outgoing_messages_at(state, rate_limiter, now)
    }
}

/// The health monitor: how often the health of the connection is checked.
pub struct HealthMonitor {
    /// When the last check ran, in milliseconds.
    pub last_health_check: i64,
    pub health_check_interval_ms: i64,
}

/// The interval between two health checks, in milliseconds.
pub const HEALTH_CHECK_INTERVAL_MS: i64 = 60_000;

impl HealthMonitor {
    /// A monitor whose last check is now.
    pub fn new() -> (r: Self)
        ensures
            r.health_check_interval_ms == HEALTH_CHECK_INTERVAL_MS,
    {
        HealthMonitor { last_health_check: now_millis(), health_check_interval_ms: HEALTH_CHECK_INTERVAL_MS }
    }

    /// Whether a check is due at `now`; when it is, the check counts as done at `now`.
    pub fn check_due_at(&mut self, now: i64) -> (due: bool)
        ensures
            due == ((if now >= old(self).last_health_check { now - old(self).last_health_check } else { 0 }) >= old(self).health_check_interval_ms),
            final(self).last_health_check == (if due { now } else { old(self).last_health_check }),
            final(self).health_check_interval_ms == old(self).health_check_interval_ms,
    {
        let elapsed: i128 = if now >= self.last_health_check { (now as i128) - (self.last_health_check as i128) } else { 0 };
        if elapsed < self.health_check_interval_ms as i128 {
            return false;
        }
        self.last_health_check = now;
        true
    }
}

/// The WebSocket manager: the connection policy, the request processor, the health
/// monitor and the rate limiter.
pub struct WebSocketManager {
    pub connection_manager: ConnectionManager,
    pub message_processor: MessageProcessor,
    pub health_monitor: HealthMonitor,
    pub rate_limiter: RateLimiter,
}

impl WebSocketManager {
    pub fn new() -> (r: Self)
        ensures
            r.connection_manager@ == ConnectionManager::initial(),
            r.rate_limiter.messages_sent == 0,
            r.rate_limiter.max_messages_per_window == MAX_MESSAGES_PER_WINDOW,
            r.rate_limiter.window_duration_ms == WINDOW_MS,
            r.health_monitor.health_check_interval_ms == HEALTH_CHECK_INTERVAL_MS,
    {
        WebSocketManager {
            connection_manager: ConnectionManager::new(),
            message_processor: MessageProcessor::new(),
            health_monitor: HealthMonitor::new(),
            rate_limiter: RateLimiter::new(),
        }
    }
}

impl WebSocketManager {
    /// One turn of the connection's life at `now` (milliseconds): the queued requests go
    /// out (as `out`), the health check clock moves on when a check is due, and the
    /// connection policy runs on the state that the requests left (giving `acts`).
    pub fn ensure_ws_lifecycle_at(&mut self, state: &mut AppState, now: i64) -> (r: (Vec<Outgoing>, Vec<ConnectionAction>))
        requires
            counters_ok(old(self).connection_manager@),
            old(self).rate_limiter.max_messages_per_window < u32::MAX - MAX_PER_ROUND,
        ensures
            exists|mid: AppView, login_again: String, invalid: String| {
                &&& outgoing_round(old(self).rate_limiter, final(self).rate_limiter, old(state)@, mid, r.0@, now)
                &&& login_again@ == "Impossibile connettersi al server. Effettua nuovamente il login."@
                &&& invalid@ == "Token non valido"@
                &&& (final(self).connection_manager@, final(state)@, r.1@) == #[trigger] manage_spec(old(self).connection_manager@, mid, now, login_again, invalid)
            },
            final(self).health_monitor.health_check_interval_ms == old(self).health_monitor.health_check_interval_ms,
            final(self).health_monitor.last_health_check == (if (if now >= old(self).health_monitor.last_health_check {
                now - old(self).health_monitor.last_health_check
            } else {
                0
            }) >= old(self).health_monitor.health_check_interval_ms {
                now
            } else {
                old(self).health_monitor.last_health_check
            }),
    {
        let out = self.message_processor.process_outgoing_messages_at(state, &mut self.rate_limiter, now);
        let _ = self.health_monitor.check_due_at(now);
        let acts = self.connection_manager.manage_connection_at(state, now);
        (out, acts)
    }

    /// One turn of the connection's life now.
    pub fn ensure_ws_lifecycle(&mut self, state: &mut AppState) -> (r: (Vec<Outgoing>, Vec<ConnectionAction>))
        requires
            counters_ok(old(self).connection_manager@),
            old(self).rate_limiter.max_messages_per_window < u32::MAX - MAX_PER_ROUND,
        ensures
            exists|now: i64, mid: AppView, login_again: String, invalid: String| {
                &&& now >= 0
                &&& #[trigger] outgoing_round(old(self).rate_limiter, final(self).rate_limiter, old(state)@, mid, r.0@, now)
                &&& login_again@ == "Impossibile connettersi al server. Effettua nuovamente il login."@
                &&& invalid@ == "Token non valido"@
                &&& (final(self).connection_manager@, final(state)@, r.1@) == #[trigger] manage_spec(old(self).connection_manager@, mid, now, login_again, invalid)
            },
    {
        let now = now_millis();
        self.ensure_ws_lifecycle_at(state, now)
    }
}

} // verus!
