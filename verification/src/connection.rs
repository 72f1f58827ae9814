//! The WebSocket connection policy: when to connect, retry with back-off, give up, or
//! disconnect; and the connection statistics.
use vstd::prelude::*;
use crate::external::now_millis;
use crate::model::{ErrorType, UiEvent, WsStatus};
use crate::state::{AppState, WsState};
use crate::text::{is_blank, blank};
use crate::view::AppView;

verus! {

/// After this many consecutive failures the user is logged out.
pub const MAX_CONSECUTIVE_FAILURES: u32 = 6;

/// A connection attempt that takes longer than this, in milliseconds, is abandoned.
pub const CONNECTION_TIMEOUT_MS: i64 = 30_000;

/// Counters of the WebSocket connection.
pub struct ConnectionStats {
    total_messages_sent: u64,
    total_messages_received: u64,
    connection_attempts: u32,
    successful_connections: u32,
    disconnections: u32,
    last_error: Option<String>,
    /// When the current connection came up, in milliseconds.
    uptime_start: Option<i64>,
}

/// The content of the connection statistics.
pub ghost struct StatsModel {
    pub total_messages_sent: u64,
    pub total_messages_received: u64,
    pub connection_attempts: u32,
    pub successful_connections: u32,
    pub disconnections: u32,
    pub last_error: Option<Seq<char>>,
    pub uptime_start: Option<i64>,
}

impl View for ConnectionStats {
    type V = StatsModel;

    closed spec fn view(&self) -> StatsModel {
        StatsModel {
            total_messages_sent: self.total_messages_sent,
            total_messages_received: self.total_messages_received,
            connection_attempts: self.connection_attempts,
            successful_connections: self.successful_connections,
            disconnections: self.disconnections,
            last_error: match self.last_error {
                Some(e) => Some(e@),
                None => None,
            },
            uptime_start: self.uptime_start,
        }
    }
}

/// How long the connection of `m` has been up at `now` (milliseconds), if it is up.
pub open spec fn uptime_at(m: StatsModel, now: i64) -> Option<u64> {
    match m.uptime_start {
        Some(s) => Some(if now >= s { (now - s) as u64 } else { 0u64 }),
        None => None,
    }
}

/// Statistics with every counter at zero.
pub open spec fn zero_stats() -> StatsModel {
    StatsModel {
        total_messages_sent: 0,
        total_messages_received: 0,
        connection_attempts: 0,
        successful_connections: 0,
        disconnections: 0,
        last_error: None,
        uptime_start: None,
    }
}

impl ConnectionStats {
    fn zero() -> (r: ConnectionStats)
        ensures
            r@ == zero_stats(),
    {
        ConnectionStats {
            total_messages_sent: 0,
            total_messages_received: 0,
            connection_attempts: 0,
            successful_connections: 0,
            disconnections: 0,
            last_error: None,
            uptime_start: None,
        }
    }

    /// How long the current connection has been up at `now` (milliseconds), if it is up.
    pub fn current_uptime_at(&self, now: i64) -> (r: Option<u64>)
        ensures
            r == uptime_at(self@, now),
    {
        match self.uptime_start {
            Some(s) => Some(if now >= s { ((now as i128) - (s as i128)) as u64 } else { 0 }),
            None => None,
        }
    }

    /// How long the current connection has been up, in milliseconds, if it is up.
    pub fn current_uptime(&self) -> (r: Option<u64>)
        ensures
            exists|now: i64| now >= 0 && r == #[trigger] uptime_at(self@, now),
    {
        let now = now_millis();
        self.current_uptime_at(now)
    }

    pub fn total_messages_sent(&self) -> (r: u64)
        ensures
            r == self@.total_messages_sent,
    {
        self.total_messages_sent
    }

    pub fn total_messages_received(&self) -> (r: u64)
        ensures
            r == self@.total_messages_received,
    {
        self.total_messages_received
    }

    pub fn connection_attempts(&self) -> (r: u32)
        ensures
            r == self@.connection_attempts,
    {
        self.connection_attempts
    }

    pub fn successful_connections(&self) -> (r: u32)
        ensures
            r == self@.successful_connections,
    {
        self.successful_connections
    }

    pub fn disconnections(&self) -> (r: u32)
        ensures
            r == self@.disconnections,
    {
        self.disconnections
    }
}

/// What the caller of the connection policy must do outside the state.
pub enum ConnectionAction {
    /// Open a connection to `base` with `token`, in session `session_id`.
    Connect { base: String, token: String, session_id: Option<u128> },
    /// Shut the connection under control down.
    Shutdown,
}

/// The consecutive failures of `m` and the wait left at `now` (milliseconds) before the
/// next attempt, when there were failures.
pub open spec fn retry_info_at(m: ConnModel, now: i64) -> Option<(u32, u64)> {
    if m.consecutive_failures > 0 {
        Some((
            m.consecutive_failures,
            match m.last_attempt {
                Some(t) => {
                    let elapsed: int = if now >= t { now - t } else { 0 };
                    if elapsed >= m.next_retry_delay_ms { 0u64 } else { (m.next_retry_delay_ms - elapsed) as u64 }
                },
                None => 0u64,
            },
        ))
    } else {
        None
    }
}

/// Decides when the WebSocket connects, reconnects and gives up.
pub struct ConnectionManager {
    stats: ConnectionStats,
    consecutive_failures: u32,
    /// When the last attempt started, in milliseconds.
    last_attempt: Option<i64>,
    /// How long to wait after the last attempt before the next one, in milliseconds.
    next_retry_delay_ms: u64,
    last_ws_status: WsStatus,
    is_connecting_in_progress: bool,
}

/// The content of a connection manager.
pub ghost struct ConnModel {
    pub stats: StatsModel,
    pub consecutive_failures: u32,
    pub last_attempt: Option<i64>,
    pub next_retry_delay_ms: u64,
    pub last_ws_status: WsStatus,
    pub is_connecting: bool,
}

impl View for ConnectionManager {
    type V = ConnModel;

    closed spec fn view(&self) -> ConnModel {
        ConnModel {
            stats: self.stats@,
            consecutive_failures: self.consecutive_failures,
            last_attempt: self.last_attempt,
            next_retry_delay_ms: self.next_retry_delay_ms,
            last_ws_status: self.last_ws_status,
            is_connecting: self.is_connecting_in_progress,
        }
    }
}

/// The wait before retrying after `failures` consecutive failures, in milliseconds.
pub open spec fn retry_delay_ms(failures: u32) -> u64 {
    if failures == 1 {
        1000
    } else if failures == 2 {
        2000
    } else if failures == 3 {
        5000
    } else if failures == 4 {
        10000
    } else if failures == 5 {
        15000
    } else {
        30000
    }
}

/// The manager after one more failure, and whether the user must be logged out.
pub open spec fn failed_model(m: ConnModel) -> (ConnModel, bool) {
    let c = (m.consecutive_failures + 1) as u32;
    if c >= MAX_CONSECUTIVE_FAILURES {
        (ConnModel { consecutive_failures: c, ..m }, true)
    } else {
        (ConnModel { consecutive_failures: c, next_retry_delay_ms: retry_delay_ms(c), ..m }, false)
    }
}

/// The manager after a successful connection at `now`.
pub open spec fn connected_model(m: ConnModel, now: i64) -> ConnModel {
    ConnModel {
        consecutive_failures: 0,
        next_retry_delay_ms: 0,
        stats: StatsModel {
            successful_connections: (m.stats.successful_connections + 1) as u32,
            uptime_start: Some(now),
            ..m.stats
        },
        ..m
    }
}

/// The manager with the back-off forgotten.
pub open spec fn backoff_cleared(m: ConnModel) -> ConnModel {
    ConnModel { consecutive_failures: 0, next_retry_delay_ms: 0, last_attempt: None, ..m }
}

/// The manager and the state after the connection is dropped, telling the UI when
/// `notify`; the connection under control, if any, is to be shut down.
pub open spec fn disconnect_spec(m: ConnModel, a: AppView, notify: bool) -> (ConnModel, AppView, Seq<ConnectionAction>) {
    let m1 = ConnModel {
        is_connecting: false,
        stats: StatsModel { disconnections: (m.stats.disconnections + 1) as u32, uptime_start: None, ..m.stats },
        ..m
    };
    let a1 = AppView {
        ws: WsState { ws_status: WsStatus::Disconnected, has_ws_control: false, ..a.ws },
        ui_events: if notify { a.ui_events.push(UiEvent::WsDisconnected) } else { a.ui_events },
        ..a
    };
    (m1, a1, if a.ws.has_ws_control { seq![ConnectionAction::Shutdown] } else { Seq::empty() })
}

/// Whether the session holds a token that is not blank.
pub open spec fn usable_token(a: AppView) -> bool {
    match a.session.token {
        Some(t) => !blank(t@),
        None => false,
    }
}

/// The manager and the state after a connection attempt is started at `now` (unless one
/// is in progress); a blank token is refused and reported with `invalid`.
pub open spec fn start_spec(m: ConnModel, a: AppView, now: i64, invalid: String) -> (ConnModel, AppView, Seq<ConnectionAction>) {
    if m.is_connecting {
        (m, a, Seq::empty())
    } else if !usable_token(a) {
        (
            ConnModel { stats: StatsModel { last_error: Some("Invalid token"@), ..m.stats }, ..m },
            AppView { ui_events: a.ui_events.push(UiEvent::WsError(invalid)), ..a },
            Seq::empty(),
        )
    } else {
        (
            ConnModel {
                is_connecting: true,
                last_attempt: Some(now),
                stats: StatsModel { connection_attempts: (m.stats.connection_attempts + 1) as u32, ..m.stats },
                ..m
            },
            AppView {
                ws: WsState { ws_status: WsStatus::Connecting, connection_attempt_start: Some(now), ..a.ws },
                ..a
            },
            seq![ConnectionAction::Connect {
                base: a.session.base,
                token: a.session.token.unwrap(),
                session_id: a.session.current_session_id,
            }],
        )
    }
}

/// The manager and the state after a change of the connection's status is noted at
/// `now`, and whether the user must be logged out (told so with `login_again`).
pub open spec fn status_change_spec(m: ConnModel, a: AppView, now: i64, login_again: String) -> (ConnModel, AppView, bool) {
    let cur = a.ws.ws_status;
    if cur == m.last_ws_status {
        (m, a, false)
    } else {
        let m1 = if cur == WsStatus::Connected || cur == WsStatus::Disconnected {
            ConnModel { is_connecting: false, ..m }
        } else {
            m
        };
        if cur == WsStatus::Connected {
            (
                ConnModel { last_ws_status: cur, ..connected_model(m1, now) },
                AppView { ws: WsState { connection_attempt_start: None, ..a.ws }, ..a },
                false,
            )
        } else if m.last_ws_status == WsStatus::Connecting && cur == WsStatus::Disconnected {
            let (m2, logout) = failed_model(m1);
            if logout {
                (
                    ConnModel { last_ws_status: cur, ..backoff_cleared(m2) },
                    AppView {
                        ui_events: a.ui_events.push(UiEvent::Error(ErrorType::Auth(login_again))).push(UiEvent::LoggedOut),
                        ..a
                    },
                    true,
                )
            } else {
                (ConnModel { last_ws_status: cur, ..m2 }, a, false)
            }
        } else {
            (ConnModel { last_ws_status: cur, ..m1 }, a, false)
        }
    }
}

/// Whether the wait after the last attempt is still running at `now`.
pub open spec fn waiting(m: ConnModel, now: i64) -> bool {
    match m.last_attempt {
        Some(t) => now - t < m.next_retry_delay_ms,
        None => false,
    }
}

/// The manager and the state after the connection is looked after at `now`, with the
/// actions to carry out; `login_again` and `invalid` are the texts of the two reports.
pub open spec fn manage_spec(m: ConnModel, a: AppView, now: i64, login_again: String, invalid: String) -> (ConnModel, AppView, Seq<ConnectionAction>) {
    let (m1, a1, stop) = status_change_spec(m, a, now, login_again);
    if stop {
        (m1, a1, Seq::empty())
    } else if a1.session.token is None {
        let (m2, a2, acts) = if a1.ws.ws_status != WsStatus::Disconnected {
            disconnect_spec(m1, a1, true)
        } else {
            (m1, a1, Seq::empty())
        };
        (if m2.consecutive_failures > 0 { backoff_cleared(m2) } else { m2 }, a2, acts)
    } else {
        let (m2, a2, acts1) = if a1.ws.request_ws_reconnect {
            let a1b = AppView { ws: WsState { request_ws_reconnect: false, ..a1.ws }, ..a1 };
            if a1b.ws.ws_status != WsStatus::Connecting { disconnect_spec(m1, a1b, false) } else { (m1, a1b, Seq::empty()) }
        } else {
            (m1, a1, Seq::empty())
        };
        if a2.ws.ws_status == WsStatus::Disconnected {
            if !m2.is_connecting && !waiting(m2, now) {
                let (m3, a3, acts2) = start_spec(m2, a2, now, invalid);
                (m3, a3, acts1 + acts2)
            } else {
                (m2, a2, acts1)
            }
        } else if a2.ws.ws_status == WsStatus::Connecting {
            match a2.ws.connection_attempt_start {
                Some(st) if now - st > CONNECTION_TIMEOUT_MS => {
                    let (m3, a3, acts2) = disconnect_spec(m2, a2, true);
                    (ConnModel { stats: StatsModel { last_error: Some("Connection timeout"@), ..m3.stats }, ..m3 }, a3, acts1 + acts2)
                },
                _ => (m2, a2, acts1),
            }
        } else {
            let a3 = if a2.seq.stats.pong_count == 0 && a2.seq.stats.ping_count > 5 {
                AppView { ws: WsState { request_ws_reconnect: true, ..a2.ws }, ..a2 }
            } else {
                a2
            };
            (m2, a3, acts1)
        }
    }
}

/// The counters that `manage_connection` may advance are below their maximum.
pub open spec fn counters_ok(m: ConnModel) -> bool {
    &&& m.consecutive_failures < u32::MAX
    &&& m.stats.disconnections < u32::MAX
    &&& m.stats.connection_attempts < u32::MAX
    &&& m.stats.successful_connections < u32::MAX
}

impl ConnectionManager {
    /// The content of a new manager: disconnected, with no failures.
    pub open spec fn initial() -> ConnModel {
        ConnModel {
            stats: zero_stats(),
            consecutive_failures: 0,
            last_attempt: None,
            next_retry_delay_ms: 0,
            last_ws_status: WsStatus::Disconnected,
            is_connecting: false,
        }
    }

    /// A manager for a disconnected client with no failures.
    pub fn new() -> (r: Self)
        ensures
            r@ == Self::initial(),
    {
        ConnectionManager {
            stats: ConnectionStats::zero(),
            consecutive_failures: 0,
            last_attempt: None,
            next_retry_delay_ms: 0,
            last_ws_status: WsStatus::Disconnected,
            is_connecting_in_progress: false,
        }
    }

    /// The statistics.
    pub fn get_stats(&self) -> (r: &ConnectionStats)
        ensures
            r@ == self@.stats,
    {
        &self.stats
    }

    /// Sets every counter of the statistics back to zero.
    pub fn reset_stats(&mut self)
        ensures
            final(self)@ == (ConnModel { stats: zero_stats(), ..old(self)@ }),
    {
        self.stats = ConnectionStats::zero();
    }

    /// Counts one more message sent.
    pub fn mark_message_sent(&mut self)
        requires
            old(self)@.stats.total_messages_sent < u64::MAX,
        ensures
            final(self)@ == (ConnModel {
                stats: StatsModel { total_messages_sent: (old(self)@.stats.total_messages_sent + 1) as u64, ..old(self)@.stats },
                ..old(self)@
            }),
    {
        self.stats.total_messages_sent = self.stats.total_messages_sent + 1;
    }

    /// Counts one more message received.
    pub fn mark_message_received(&mut self)
        requires
            old(self)@.stats.total_messages_received < u64::MAX,
        ensures
            final(self)@ == (ConnModel {
                stats: StatsModel {
                    total_messages_received: (old(self)@.stats.total_messages_received + 1) as u64,
                    ..old(self)@.stats
                },
                ..old(self)@
            }),
    {
        self.stats.total_messages_received = self.stats.total_messages_received + 1;
    }

    /// Records the last error.
    pub fn mark_send_error(&mut self, error: String)
        ensures
            final(self)@ == (ConnModel { stats: StatsModel { last_error: Some(error@), ..old(self)@.stats }, ..old(self)@ }),
    {
        self.stats.last_error = Some(error);
    }

    /// One more connection failure: the wait before the next attempt grows (1, 2, 5, 10,
    /// 15 seconds); returns whether there were too many, and the user must be logged out.
    pub fn increment_backoff(&mut self) -> (logout: bool)
        requires
            old(self)@.consecutive_failures < u32::MAX,
        ensures
            (final(self)@, logout) == failed_model(old(self)@),
    {
        self.consecutive_failures = self.consecutive_failures + 1;
        if self.consecutive_failures >= MAX_CONSECUTIVE_FAILURES {
            return true;
        }
        self.next_retry_delay_ms = if self.consecutive_failures == 1 {
            1000
        } else if self.consecutive_failures == 2 {
            2000
        } else if self.consecutive_failures == 3 {
            5000
        } else if self.consecutive_failures == 4 {
            10000
        } else if self.consecutive_failures == 5 {
            15000
        } else {
            30000
        };
        false
    }

    /// A successful connection at `now`: the back-off is cleared and the uptime starts.
    pub fn reset_backoff_at(&mut self, now: i64)
        requires
            old(self)@.stats.successful_connections < u32::MAX,
        ensures
            final(self)@ == connected_model(old(self)@, now),
    {
        self.consecutive_failures = 0;
        self.next_retry_delay_ms = 0;
        self.stats.successful_connections = self.stats.successful_connections + 1;
        self.stats.uptime_start = Some(now);
    }

    /// A successful connection: the back-off is cleared and the uptime starts.
    pub fn reset_backoff(&mut self)
        requires
            old(self)@.stats.successful_connections < u32::MAX,
        ensures
            exists|now: i64| now >= 0 && final(self)@ == #[trigger] connected_model(old(self)@, now),
    {
        let now = now_millis();
        self.reset_backoff_at(now);
    }

    /// The consecutive failures and the wait left before the next attempt at `now`
    /// (milliseconds), when there were failures.
    pub fn get_retry_info_at(&self, now: i64) -> (r: Option<(u32, u64)>)
        ensures
            r == retry_info_at(self@, now),
    {
        if self.consecutive_failures > 0 {
            let remaining: u64 = match self.last_attempt {
                Some(t) => {
                    let elapsed: i128 = if now >= t { (now as i128) - (t as i128) } else { 0 };
                    if elapsed >= self.next_retry_delay_ms as i128 {
                        0
                    } else {
                        ((self.next_retry_delay_ms as i128) - elapsed) as u64
                    }
                },
                None => 0,
            };
            Some((self.consecutive_failures, remaining))
        } else {
            None
        }
    }

    /// The consecutive failures and the wait left before the next attempt, when there
    /// were failures.
    pub fn get_retry_info(&self) -> (r: Option<(u32, u64)>)
        ensures
            exists|now: i64| now >= 0 && r == #[trigger] retry_info_at(self@, now),
    {
        let now = now_millis();
        self.get_retry_info_at(now)
    }

    /// The connection came up at `now`: as `reset_backoff_at(now)`.
    pub fn handle_connected_at(&mut self, now: i64)
        requires
            old(self)@.stats.successful_connections < u32::MAX,
        ensures
            final(self)@ == connected_model(old(self)@, now),
    {
        self.reset_backoff_at(now);
    }

    /// The connection came up.
    pub fn handle_connected(&mut self)
        requires
            old(self)@.stats.successful_connections < u32::MAX,
        ensures
            exists|now: i64| now >= 0 && final(self)@ == #[trigger] connected_model(old(self)@, now),
    {
        let now = now_millis();
        self.handle_connected_at(now);
    }

    /// The connection went down or failed; returns whether the user must be logged out.
    pub fn handle_disconnected(&mut self) -> (logout: bool)
        requires
            old(self)@.consecutive_failures < u32::MAX,
        ensures
            (final(self)@, logout) == failed_model(old(self)@),
    {
        self.increment_backoff()
    }

    /// Notes a change of the connection's status at `now`; returns whether the user must
    /// be logged out, which is then reported with `login_again`.
    fn status_change(&mut self, state: &mut AppState, now: i64, login_again: String) -> (stop: bool)
        requires
            counters_ok(old(self)@),
        ensures
            (final(self)@, final(state)@, stop) == status_change_spec(old(self)@, old(state)@, now, login_again),
    {
        let cur = state.ws.ws_status;
        if cur == self.last_ws_status {
            return false;
        }
        if cur == WsStatus::Connected || cur == WsStatus::Disconnected {
            self.is_connecting_in_progress = false;
        }
        if cur == WsStatus::Connected {
            self.reset_backoff_at(now);
            state.ws.connection_attempt_start = None;
        } else if self.last_ws_status == WsStatus::Connecting && cur == WsStatus::Disconnected {
            let logout = self.increment_backoff();
            if logout {
                state.send_ui_event(UiEvent::Error(ErrorType::Auth(login_again)));
                state.send_ui_event(UiEvent::LoggedOut);
                self.consecutive_failures = 0;
                self.next_retry_delay_ms = 0;
                self.last_attempt = None;
                self.last_ws_status = cur;
                return true;
            }
        }
        self.last_ws_status = cur;
        false
    }

    /// Drops the connection, telling the UI when `notify`.
    fn disconnect(&mut self, state: &mut AppState, notify: bool) -> (acts: Vec<ConnectionAction>)
        requires
            old(self)@.stats.disconnections < u32::MAX,
        ensures
            (final(self)@, final(state)@, acts@) == disconnect_spec(old(self)@, old(state)@, notify),
    {
        self.is_connecting_in_progress = false;
        state.ws.ws_status = WsStatus::Disconnected;
        if notify {
            state.send_ui_event(UiEvent::WsDisconnected);
        }
        let mut acts: Vec<ConnectionAction> = Vec::new();
        if state.ws.has_ws_control {
            state.ws.has_ws_control = false;
            acts.push(ConnectionAction::Shutdown);
        }
        self.stats.disconnections = self.stats.disconnections + 1;
        self.stats.uptime_start = None;
        proof {
            assert(acts@ =~= (if old(state)@.ws.has_ws_control { seq![ConnectionAction::Shutdown] } else { Seq::empty() }));
        }
        acts
    }

    /// Starts a connection attempt at `now`, unless one is in progress; a blank token is
    /// refused and reported with `invalid`.
    fn start(&mut self, state: &mut AppState, now: i64, invalid: String) -> (acts: Vec<ConnectionAction>)
        requires
            old(self)@.stats.connection_attempts < u32::MAX,
        ensures
            (final(self)@, final(state)@, acts@) == start_spec(old(self)@, old(state)@, now, invalid),
    {
        let mut acts: Vec<ConnectionAction> = Vec::new();
        if self.is_connecting_in_progress {
            return acts;
        }
        let token = match &state.session.token {
            Some(t) => if is_blank(t.as_str()) { None } else { Some(t.clone()) },
            None => None,
        };
        match token {
            None => {
                self.stats.last_error = Some(String::from_str("Invalid token"));
                state.send_ui_event(UiEvent::WsError(invalid));
            },
            Some(t) => {
                self.is_connecting_in_progress = true;
                state.ws.ws_status = WsStatus::Connecting;
                state.ws.connection_attempt_start = Some(now);
                self.last_attempt = Some(now);
                self.stats.connection_attempts = self.stats.connection_attempts + 1;
                acts.push(ConnectionAction::Connect {
                    base: state.session.base.clone(),
                    token: t,
                    session_id: state.session.current_session_id,
                });
            },
        }
        acts
    }

    /// Looks after the connection at `now` (milliseconds): notes status changes (a
    /// success clears the back-off, a failure extends it, too many log the user out),
    /// disconnects when logged out, reconnects on request, connects when it is time,
    /// abandons an attempt that takes too long, and asks for a reconnection when pongs
    /// never come. Returns what must be done outside the state.
    pub fn manage_connection_at(&mut self, state: &mut AppState, now: i64) -> (acts: Vec<ConnectionAction>)
        requires
            counters_ok(old(self)@),
        ensures
            exists|login_again: String, invalid: String| {
                &&& login_again@ == "Impossibile connettersi al server. Effettua nuovamente il login."@
                &&& invalid@ == "Token non valido"@
                &&& (final(self)@, final(state)@, acts@) == #[trigger] manage_spec(old(self)@, old(state)@, now, login_again, invalid)
            },
    {
        let login_again = String::from_str("Impossibile connettersi al server. Effettua nuovamente il login.");
        let invalid = String::from_str("Token non valido");
        let ghost gl = login_again;
        let ghost gi = invalid;
        let mut acts: Vec<ConnectionAction> = Vec::new();
        if self.status_change(state, now, login_again) {
            assert((self@, state@, acts@) == manage_spec(old(self)@, old(state)@, now, gl, gi));
            return acts;
        }
        if state.session.token.is_none() {
            if state.ws.ws_status != WsStatus::Disconnected {
                acts = self.disconnect(state, true);
            }
            if self.consecutive_failures > 0 {
                self.consecutive_failures = 0;
                self.next_retry_delay_ms = 0;
                self.last_attempt = None;
            }
            assert((self@, state@, acts@) == manage_spec(old(self)@, old(state)@, now, gl, gi));
            return acts;
        }
        if state.ws.request_ws_reconnect {
            state.ws.request_ws_reconnect = false;
            if state.ws.ws_status != WsStatus::Connecting {
                acts = self.disconnect(state, false);
            }
        }
        let ghost acts1 = acts@;
        if state.ws.ws_status == WsStatus::Disconnected {
            let wait = match self.last_attempt {
                Some(t) => (now as i128) - (t as i128) < self.next_retry_delay_ms as i128,
                None => false,
            };
            if !self.is_connecting_in_progress && !wait {
                let mut more = self.start(state, now, invalid);
                acts.append(&mut more);
            }
        } else if state.ws.ws_status == WsStatus::Connecting {
            if let Some(st) = state.ws.connection_attempt_start {
                if (now as i128) - (st as i128) > CONNECTION_TIMEOUT_MS as i128 {
                    let mut more = self.disconnect(state, true);
                    acts.append(&mut more);
                    self.stats.last_error = Some(String::from_str("Connection timeout"));
                }
            }
        } else {
            if state.seq.sequence_stats.pong_count == 0 && state.seq.sequence_stats.ping_count > 5 {
                state.ws.request_ws_reconnect = true;
            }
        }
        assert((self@, state@, acts@) == manage_spec(old(self)@, old(state)@, now, gl, gi));
        acts
    }

    /// Looks after the connection now; returns what must be done outside the state.
    pub fn manage_connection(&mut self, state: &mut AppState) -> (acts: Vec<ConnectionAction>)
        requires
            counters_ok(old(self)@),
        ensures
            exists|now: i64, login_again: String, invalid: String| {
                &&& now >= 0
                &&& login_again@ == "Impossibile connettersi al server. Effettua nuovamente il login."@
                &&& invalid@ == "Token non valido"@
                &&& (final(self)@, final(state)@, acts@) == #[trigger] manage_spec(old(self)@, old(state)@, now, login_again, invalid)
            },
    {
        let now = now_millis();
        self.manage_connection_at(state, now)
    }
}

} // verus!
