//! The application state that every handler reads and updates.
use std::collections::{BTreeMap, HashMap, HashSet};
use vstd::prelude::*;
use crate::model::{ConversationDto, LoginState, MessageDto, NotificationData, Outgoing, Page, ParticipantInfo, UiEvent, WsStatus};

verus! {

/// How long a DM or group stub may wait for the server, in milliseconds.
pub const STUB_TIMEOUT_MS: i64 = 30_000;

/// How long a user check may wait for its answer, in milliseconds.
pub const USER_CHECK_TIMEOUT_MS: i64 = 10_000;

/// How many requests the queue towards the network task can hold.
pub const OUTGOING_CAPACITY: usize = 200;

/// How many toasts are shown at most.
pub const MAX_TOASTS: usize = 5;

/// Counters of the dual sequence system.
#[derive(Debug, Clone, Copy, PartialEq, Eq, Structural)]
pub struct SequenceStats {
    pub total_events_received: u64,
    pub gaps_detected: u32,
    pub events_recovered: u32,
    pub ping_count: u32,
    pub pong_count: u32,
}

impl SequenceStats {
    pub open spec fn zero() -> SequenceStats {
        SequenceStats {
            total_events_received: 0,
            gaps_detected: 0,
            events_recovered: 0,
            ping_count: 0,
            pong_count: 0,
        }
    }

    /// All counters at zero.
    pub fn new() -> (r: SequenceStats)
        ensures
            r == SequenceStats::zero(),
    {
        SequenceStats {
            total_events_received: 0,
            gaps_detected: 0,
            events_recovered: 0,
            ping_count: 0,
            pong_count: 0,
        }
    }
}

/// `x + 1`, staying at the maximum instead of overflowing.
pub open spec fn inc32(x: u32) -> u32 {
    if x < u32::MAX { (x + 1) as u32 } else { x }
}

pub open spec fn inc64(x: u64) -> u64 {
    if x < u64::MAX { (x + 1) as u64 } else { x }
}

pub fn incr32(x: u32) -> (r: u32)
    ensures
        r == inc32(x),
{
    x.saturating_add(1)
}

pub fn incr64(x: u64) -> (r: u64)
    ensures
        r == inc64(x),
{
    x.saturating_add(1)
}

/// A conversation the user asked to delete, waiting for confirmation.
pub struct PendingDeletion {
    pub conversation: ConversationDto,
}

/// The form of the "create group" popup.
pub struct CreateGroupPopupState {
    pub group_name: String,
    pub manual_username_input: String,
    /// The chosen participants; no name occurs twice.
    pub selected_participants: Vec<String>,
    pub search_query: String,
    pub pending_user_verification: Option<String>,
}

impl CreateGroupPopupState {
    /// The content of an empty form.
    pub open spec fn new_model() -> crate::view::CreateGroupModel {
        crate::view::CreateGroupModel {
            group_name: Seq::empty(),
            manual_username_input: Seq::empty(),
            selected_participants: Seq::empty(),
            search_query: Seq::empty(),
            pending_user_verification: None,
        }
    }

    pub open spec fn is_empty(&self) -> bool {
        &&& self.group_name@.len() == 0
        &&& self.manual_username_input@.len() == 0
        &&& self.selected_participants@.len() == 0
        &&& self.search_query@.len() == 0
        &&& self.pending_user_verification is None
    }

    /// An empty form.
    pub fn new() -> (r: Self)
        ensures
            r.is_empty(),
            r@ == Self::new_model(),
    {
        CreateGroupPopupState {
            group_name: String::new(),
            manual_username_input: String::new(),
            selected_participants: Vec::new(),
            search_query: String::new(),
            pending_user_verification: None,
        }
    }

    /// Empties the form.
    pub fn reset(&mut self)
        ensures
            final(self).is_empty(),
            final(self)@ == Self::new_model(),
    {
        self.group_name = String::new();
        self.manual_username_input = String::new();
        self.selected_participants = Vec::new();
        self.search_query = String::new();
        self.pending_user_verification = None;
    }
}

/// The form of the "invite members" popup.
pub struct InvitePopupState {
    pub search_query: String,
    /// The chosen users; no name occurs twice.
    pub selected_users: Vec<String>,
    pub pending_user_verification: Option<String>,
}

impl InvitePopupState {
    /// The content of an empty form.
    pub open spec fn new_model() -> crate::view::InviteModel {
        crate::view::InviteModel { search_query: Seq::empty(), selected_users: Seq::empty(), pending_user_verification: None }
    }

    pub open spec fn is_empty(&self) -> bool {
        &&& self.search_query@.len() == 0
        &&& self.selected_users@.len() == 0
        &&& self.pending_user_verification is None
    }

    /// An empty form.
    pub fn new() -> (r: Self)
        ensures
            r.is_empty(),
            r@ == Self::new_model(),
    {
        InvitePopupState { search_query: String::new(), selected_users: Vec::new(), pending_user_verification: None }
    }

    /// Empties the form.
    pub fn reset(&mut self)
        ensures
            final(self).is_empty(),
            final(self)@ == Self::new_model(),
    {
        self.search_query = String::new();
        self.selected_users = Vec::new();
        self.pending_user_verification = None;
    }
}

#[derive(Debug, Clone, Copy, PartialEq, Eq, Structural)]
pub enum ToastKind {
    Info,
    Error,
}

/// A transient notification.
pub struct Toast {
    pub id: u128,
    pub message: String,
    pub kind: ToastKind,
    /// When it was shown, in milliseconds of wall-clock time.
    pub created: i64,
}

/// The session: who is logged in, and with which token.
pub struct Session {
    pub base: String,
    pub username: String,
    pub password: String,
    pub password_confirm: String,
    pub token: Option<String>,
    pub user_id: Option<u128>,
    pub current_session_id: Option<u128>,
    pub login_state: LoginState,
}

/// The state of the WebSocket connection as the UI sees it.
pub struct WsState {
    pub ws_status: WsStatus,
    pub request_ws_reconnect: bool,
    pub has_ws_control: bool,
    /// When the current connection attempt started, in milliseconds.
    pub connection_attempt_start: Option<i64>,
}

/// The page on screen and the open conversation.
pub struct ChatView {
    pub page: Page,
    pub cid: Option<u128>,
    pub conv_title: String,
    pub input: String,
    /// The messages of the open conversation, as shown.
    pub messages: Vec<MessageDto>,
    pub is_loading_more: bool,
    pub has_more_messages: HashMap<u128, bool>,
}

/// The conversations and the messages cached for each of them.
pub struct ConversationData {
    pub conversations: Option<Vec<ConversationDto>>,
    pub conversation_messages: HashMap<u128, Vec<MessageDto>>,
    pub conversation_unread_counts: HashMap<u128, i64>,
    pub members_list: HashMap<u128, Vec<ParticipantInfo>>,
    pub request_conversations_refresh: bool,
    pub fetching_conversations: HashSet<u128>,
    pub has_more_conversations: bool,
    pub next_cursor: Option<i64>,
    pub is_loading_more_conversations: bool,
    pub is_initial_load_complete: bool,
    pub is_loading: bool,
    pub is_loading_members: bool,
}

/// The dual sequence system: the user event stream and one message stream per conversation.
pub struct SequenceState {
    /// The highest user event sequence up to which every event was seen, without gap.
    pub user_sequence_confirmed: u64,
    /// The highest user event sequence seen.
    pub user_sequence_received: u64,
    /// The highest message sequence seen, per conversation.
    pub conversation_sequences: HashMap<u128, u64>,
    /// The highest message sequence seen without gap, per conversation.
    pub conversation_sequences_confirmed: HashMap<u128, u64>,
    pub is_recovering_user_events: bool,
    pub is_recovering_messages: HashMap<u128, bool>,
    pub pending_resume_requests: u32,
    pub sequence_stats: SequenceStats,
    pub ping_interval_ms: i64,
    pub last_ping_time: i64,
    pub missed_pings: u32,
    pub max_missed_pings: u32,
    pub ping_timeout_ms: i64,
}

/// Events and messages that arrived ahead of their turn.
pub struct ReorderBuffers {
    /// Per conversation, the messages that arrived early, by sequence.
    pub message_reorder_buffer: BTreeMap<u128, BTreeMap<u64, MessageDto>>,
    /// The user events that arrived early, by sequence.
    pub user_event_reorder_buffer: BTreeMap<u64, Vec<NotificationData>>,
}

/// Conversations created locally that the server has not confirmed yet.
pub struct Stubs {
    /// Target user name and creation time in milliseconds, per stub identifier.
    pub dm_stubs: HashMap<u128, (String, i64)>,
    /// Group name and creation time in milliseconds, per stub identifier.
    pub group_stubs: HashMap<u128, (String, i64)>,
}

/// Requests that wait for an answer from the server.
pub struct PendingRequests {
    /// Optimistic messages waiting for confirmation, keyed by client message id.
    pub pending_confirmations: Vec<(String, MessageDto)>,
    pub confirmation_timeout_secs: i64,
    pub last_confirmation_cleanup: i64,
    pub pending_user_check: Option<String>,
    pub user_check_request_id: Option<String>,
    pub user_check_timestamp: Option<i64>,
}

/// Notifications, popups and form fields.
pub struct UiState {
    pub toasts: Vec<Toast>,
    pub auth_message: Option<String>,
    pub auth_message_is_error: bool,
    pub confirm_delete_account: bool,
    pub show_account_modal: bool,
    pub pending_deletion: Option<PendingDeletion>,
    pub group_name: String,
    pub dm_user_username_input: String,
    pub last_invite_token: Option<String>,
    pub invite_conversation_id: String,
    pub last_created_invite: Option<String>,
    pub show_invite_popup: bool,
    pub invite_popup: InvitePopupState,
    pub show_group_info_popup: bool,
    pub show_create_group_modal: bool,
    pub create_group_popup: CreateGroupPopupState,
    pub dm_username: String,
    pub pending_message_deletion: Option<u128>,
    pub pending_member_kick: Option<(u128, u128, String)>,
}

/// Everything the client knows: session, conversations, caches, sequences, UI state.
///
/// Two queues connect it to the rest of the client: `ui_events` holds
/// the events that the state sends to itself, to be handled by `drain_events`;
/// `outgoing` holds the requests for the network task, which takes them in order.
pub struct AppState {
    pub session: Session,
    pub ws: WsState,
    pub view: ChatView,
    pub data: ConversationData,
    pub seq: SequenceState,
    pub buffers: ReorderBuffers,
    pub stubs: Stubs,
    pub pending: PendingRequests,
    pub ui: UiState,
    pub ui_events: Vec<UiEvent>,
    pub outgoing: Vec<Outgoing>,
}

/// The sequence of a conversation in a sequence map (0 when absent).
pub open spec fn seq_or_zero(m: Map<u128, u64>, cid: u128) -> u64 {
    if m.contains_key(cid) { m[cid] } else { 0 }
}

/// Looks a conversation up in a sequence map (0 when absent).
pub fn get_seq(m: &HashMap<u128, u64>, cid: u128) -> (r: u64)
    ensures
        r == seq_or_zero(m@, cid),
{
    match m.get(&cid) {
        Some(v) => *v,
        None => 0,
    }
}

impl AppState {
    /// A fresh, logged-out state talking to the server at `base`.
    pub fn new(base: String, username: String, password: String, now_ms: i64) -> (r: AppState)
        ensures
            r.session.base == base,
            r.session.username == username,
            r.session.password == password,
            r.session.token is None,
            r.session.user_id is None,
            r.session.login_state == LoginState::Idle,
            r.view.page == Page::Auth,
            r.view.cid is None,
            r.view.messages@.len() == 0,
            r.data.conversations is None,
            r.data.conversation_messages@ == Map::<u128, Vec<MessageDto>>::empty(),
            r.ws.ws_status == WsStatus::Disconnected,
            r.ui_events@.len() == 0,
            r.outgoing@.len() == 0,
            r.seq.user_sequence_confirmed == 0,
            r.seq.user_sequence_received == 0,
            r.seq.conversation_sequences@ == Map::<u128, u64>::empty(),
            r.seq.conversation_sequences_confirmed@ == Map::<u128, u64>::empty(),
            r.seq.sequence_stats == SequenceStats::zero(),
            r.seq.max_missed_pings == 3,
            r.seq.missed_pings == 0,
            r.seq.last_ping_time == now_ms,
            r.buffers.message_reorder_buffer@ == Map::<u128, BTreeMap<u64, MessageDto>>::empty(),
            r.buffers.user_event_reorder_buffer@ == Map::<u64, Vec<NotificationData>>::empty(),
            r.ui.toasts@.len() == 0,
            r.pending.pending_confirmations@.len() == 0,
            r.pending.confirmation_timeout_secs == 10,
            r.pending.last_confirmation_cleanup == now_ms,
    {
        AppState {
            session: Session {
                base,
                username,
                password,
                password_confirm: String::new(),
                token: None,
                user_id: None,
                current_session_id: None,
                login_state: LoginState::Idle,
            },
            ws: WsState {
                ws_status: WsStatus::Disconnected,
                request_ws_reconnect: false,
                has_ws_control: false,
                connection_attempt_start: None,
            },
            view: ChatView {
                page: Page::Auth,
                cid: None,
                conv_title: String::new(),
                input: String::new(),
                messages: Vec::new(),
                is_loading_more: false,
                has_more_messages: HashMap::new(),
            },
            data: ConversationData {
                conversations: None,
                conversation_messages: HashMap::new(),
                conversation_unread_counts: HashMap::new(),
                members_list: HashMap::new(),
                request_conversations_refresh: false,
                fetching_conversations: HashSet::new(),
                has_more_conversations: true,
                next_cursor: None,
                is_loading_more_conversations: false,
                is_initial_load_complete: false,
                is_loading: false,
                is_loading_members: false,
            },
            seq: SequenceState {
                user_sequence_confirmed: 0,
                user_sequence_received: 0,
                conversation_sequences: HashMap::new(),
                conversation_sequences_confirmed: HashMap::new(),
                is_recovering_user_events: false,
                is_recovering_messages: HashMap::new(),
                pending_resume_requests: 0,
                sequence_stats: SequenceStats::new(),
                ping_interval_ms: 30_000,
                last_ping_time: now_ms,
                missed_pings: 0,
                max_missed_pings: 3,
                ping_timeout_ms: 15_000,
            },
            buffers: ReorderBuffers {
                message_reorder_buffer: BTreeMap::new(),
                user_event_reorder_buffer: BTreeMap::new(),
            },
            stubs: Stubs { dm_stubs: HashMap::new(), group_stubs: HashMap::new() },
            pending: PendingRequests {
                pending_confirmations: Vec::new(),
                confirmation_timeout_secs: 10,
                last_confirmation_cleanup: now_ms,
                pending_user_check: None,
                user_check_request_id: None,
                user_check_timestamp: None,
            },
            ui: UiState {
                toasts: Vec::new(),
                auth_message: None,
                auth_message_is_error: false,
                confirm_delete_account: false,
                show_account_modal: false,
                pending_deletion: None,
                group_name: String::new(),
                dm_user_username_input: String::new(),
                last_invite_token: None,
                invite_conversation_id: String::new(),
                last_created_invite: None,
                show_invite_popup: false,
                invite_popup: InvitePopupState::new(),
                show_group_info_popup: false,
                show_create_group_modal: false,
                create_group_popup: CreateGroupPopupState::new(),
                dm_username: String::new(),
                pending_message_deletion: None,
                pending_member_kick: None,
            },
            ui_events: Vec::new(),
            outgoing: Vec::new(),
        }
    }

    /// Queues a request for the network task; fails when the queue is full.
    pub fn try_send_outgoing(&mut self, o: Outgoing) -> (sent: bool)
        ensures
            sent == (old(self).outgoing@.len() < OUTGOING_CAPACITY),
            sent ==> final(self).outgoing@ == old(self).outgoing@.push(o),
            !sent ==> final(self).outgoing@ == old(self).outgoing@,
            (AppState { outgoing: final(self).outgoing, ..*final(self) }) == (AppState { outgoing: final(self).outgoing, ..*old(self) }),
    {
        let full = self.outgoing.len() >= OUTGOING_CAPACITY;
        if full {
            return false;
        }
        self.outgoing.push(o);
        true
    }

    /// Sends an event to the state itself, to be handled by `drain_events`.
    pub fn send_ui_event(&mut self, e: UiEvent)
        ensures
            final(self).ui_events@ == old(self).ui_events@.push(e),
            (AppState { ui_events: final(self).ui_events, ..*final(self) }) == (AppState { ui_events: final(self).ui_events, ..*old(self) }),
    {
        self.ui_events.push(e);
    }
}

} // verus!
