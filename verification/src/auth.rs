//! Login, logout and account deletion.
use vstd::prelude::*;
use crate::external::new_uuid;
use crate::model::{ErrorType, LoginState, Outgoing, Page, UiEvent, WsStatus};
use crate::sequence::SequenceHandler;
use crate::state::{AppState, CreateGroupPopupState, InvitePopupState, SequenceStats, Session, WsState, OUTGOING_CAPACITY};
use crate::view::{AppView, BuffersModel, ChatModel, DataModel, PendingModel, SeqModel, StubsModel, UiModel};

verus! {

/// The state after the user logged in with `token` as `user_id`, the server's user event
/// stream being at `last_sequence`, in a fresh session `sid`.
pub open spec fn logged_app(a: AppView, token: String, user_id: u128, last_sequence: u64, sid: u128) -> AppView {
    AppView {
        session: Session {
            token: Some(token),
            user_id: Some(user_id),
            current_session_id: Some(sid),
            login_state: LoginState::LoggedIn,
            ..a.session
        },
        seq: SeqModel {
            user_sequence_confirmed: last_sequence,
            user_sequence_received: last_sequence,
            conversation_sequences: Map::empty(),
            conversation_sequences_confirmed: Map::empty(),
            stats: SequenceStats::zero(),
            ..a.seq
        },
        view: ChatModel { page: Page::Conversations, ..a.view },
        ws: WsState { request_ws_reconnect: true, ..a.ws },
        ui: UiModel { auth_message: None, auth_message_is_error: false, ..a.ui },
        ..a
    }
}

/// The state after the user logged out at time `now`: the session, the data, the
/// sequences, the buffers, the stubs and the popups are all cleared; the user name and
/// password stay, so that the user can log in again.
pub open spec fn logged_out_app(a: AppView, now: i64) -> AppView {
    AppView {
        session: Session {
            token: None,
            user_id: None,
            current_session_id: None,
            login_state: LoginState::Idle,
            ..a.session
        },
        ws: WsState { ws_status: WsStatus::Disconnected, has_ws_control: false, ..a.ws },
        view: ChatModel {
            page: Page::Auth,
            cid: None,
            messages: Seq::empty(),
            conv_title: Seq::empty(),
            input: Seq::empty(),
            is_loading_more: false,
            has_more_messages: Map::empty(),
        },
        data: DataModel {
            conversations: None,
            conversation_messages: Map::empty(),
            conversation_unread_counts: Map::empty(),
            members_list: Map::empty(),
            is_loading_members: false,
            is_loading_more_conversations: false,
            has_more_conversations: true,
            next_cursor: None,
            fetching_conversations: Set::empty(),
            is_loading: false,
            is_initial_load_complete: false,
            ..a.data
        },
        seq: SeqModel {
            user_sequence_confirmed: 0,
            user_sequence_received: 0,
            conversation_sequences: Map::empty(),
            conversation_sequences_confirmed: Map::empty(),
            stats: SequenceStats::zero(),
            is_recovering_user_events: false,
            is_recovering_messages: Map::empty(),
            pending_resume_requests: 0,
            missed_pings: 0,
            last_ping_time: now,
            ..a.seq
        },
        buffers: BuffersModel { messages: Map::empty(), user_events: Map::empty() },
        stubs: StubsModel { dm_stubs: Map::empty(), group_stubs: Map::empty() },
        pending: PendingModel {
            pending_confirmations: Seq::empty(),
            pending_user_check: None,
            user_check_request_id: None,
            user_check_timestamp: None,
            ..a.pending
        },
        ui: UiModel {
            show_account_modal: false,
            show_create_group_modal: false,
            show_invite_popup: false,
            show_group_info_popup: false,
            confirm_delete_account: false,
            pending_deletion: None,
            pending_message_deletion: None,
            pending_member_kick: None,
            create_group_popup: CreateGroupPopupState::new_model(),
            invite_popup: InvitePopupState::new_model(),
            group_name: Seq::empty(),
            dm_username: Seq::empty(),
            dm_user_username_input: Seq::empty(),
            invite_conversation_id: Seq::empty(),
            last_invite_token: None,
            last_created_invite: None,
            ..a.ui
        },
        ..a
    }
}

/// `e` reports information with text `text`.
pub open spec fn info_event(e: UiEvent, text: Seq<char>) -> bool {
    e matches UiEvent::Info(t) && t@ == text
}

/// `e` reports an authentication error with text `text`.
pub open spec fn auth_error_event(e: UiEvent, text: Seq<char>) -> bool {
    e matches UiEvent::Error(ErrorType::Auth(t)) && t@ == text
}

/// `b` is `a` with one more event sent to the state itself.
pub open spec fn one_event_more(a: AppView, b: AppView) -> bool {
    b.ui_events == a.ui_events.push(b.ui_events.last())
}

/// `b` is `a` after the deletion of the account was cancelled: the confirmation closes
/// and the user is told.
pub open spec fn cancel_rel(a: AppView, b: AppView) -> bool {
    &&& one_event_more(a, b)
    &&& info_event(b.ui_events.last(), "Eliminazione annullata"@)
    &&& b == (AppView { ui: UiModel { confirm_delete_account: false, ..a.ui }, ui_events: b.ui_events, ..a })
}

/// `b` is `a` after the deletion of the account was confirmed: the confirmation closes
/// and the request goes out, or the failure is reported.
pub open spec fn confirm_rel(a: AppView, b: AppView) -> bool {
    let a0 = AppView { ui: UiModel { confirm_delete_account: false, ..a.ui }, ..a };
    if !a.ws.has_ws_control {
        &&& one_event_more(a, b)
        &&& auth_error_event(b.ui_events.last(), "WebSocket non connesso"@)
        &&& b == (AppView { ui_events: b.ui_events, ..a0 })
    } else if a.outgoing.len() < OUTGOING_CAPACITY {
        b == (AppView { outgoing: a.outgoing.push(Outgoing::DeleteUser), ..a0 })
    } else {
        &&& one_event_more(a, b)
        &&& auth_error_event(b.ui_events.last(), "Impossibile inviare richiesta: coda piena"@)
        &&& b == (AppView { ui_events: b.ui_events, ..a0 })
    }
}

/// Handling of authentication events.
pub struct AuthHandler;

impl AuthHandler {
    /// A login request started.
    pub fn handle_login_started(state: &mut AppState)
        ensures
            final(state)@ == (AppView { session: Session { login_state: LoginState::LoggingIn, ..old(state)@.session }, ..old(state)@ }),
    {
        state.session.login_state = LoginState::LoggingIn;
    }

    /// A registration request started.
    pub fn handle_register_started(state: &mut AppState)
        ensures
            final(state)@ == (AppView { session: Session { login_state: LoginState::Registering, ..old(state)@.session }, ..old(state)@ }),
    {
        state.session.login_state = LoginState::Registering;
    }

    /// The user logged in; a new session id is drawn every time, so that an old one is
    /// never reused by a second connection.
    pub fn handle_logged(state: &mut AppState, token: String, user_id: u128, last_sequence: u64)
        ensures
            exists|sid: u128| final(state)@ == #[trigger] logged_app(old(state)@, token, user_id, last_sequence, sid),
    {
        state.session.token = Some(token);
        state.session.user_id = Some(user_id);
        let sid = new_uuid();
        state.session.current_session_id = Some(sid);
        state.seq.user_sequence_confirmed = last_sequence;
        state.seq.user_sequence_received = last_sequence;
        state.seq.conversation_sequences.clear();
        state.seq.conversation_sequences_confirmed.clear();
        state.session.login_state = LoginState::LoggedIn;
        state.view.page = Page::Conversations;
        state.seq.sequence_stats = SequenceStats::new();
        state.ws.request_ws_reconnect = true;
        state.clear_auth_message();
        assert(state@ == logged_app(old(state)@, token, user_id, last_sequence, sid));
    }

    /// The user logged out at time `now`. Returns whether a WebSocket connection was
    /// under control, which the caller then shuts down.
    pub fn handle_logged_out_at(state: &mut AppState, now: i64) -> (had_control: bool)
        ensures
            had_control == old(state)@.ws.has_ws_control,
            final(state)@ == logged_out_app(old(state)@, now),
    {
        let had_control = state.ws.has_ws_control;
        state.ws.has_ws_control = false;
        state.session.token = None;
        state.session.user_id = None;
        state.view.page = Page::Auth;
        state.view.cid = None;
        state.ui.show_account_modal = false;
        state.ui.show_create_group_modal = false;
        state.ui.show_invite_popup = false;
        state.ui.show_group_info_popup = false;
        state.ui.confirm_delete_account = false;
        state.ui.pending_deletion = None;
        state.ui.pending_message_deletion = None;
        state.ui.pending_member_kick = None;
        state.pending.pending_user_check = None;
        state.pending.user_check_request_id = None;
        state.pending.user_check_timestamp = None;
        state.ui.create_group_popup.reset();
        state.ui.invite_popup.reset();
        state.view.messages.clear();
        state.data.conversations = None;
        state.data.conversation_messages.clear();
        state.data.conversation_unread_counts.clear();
        state.data.members_list.clear();
        state.data.is_loading_members = false;
        state.data.is_loading_more_conversations = false;
        state.data.has_more_conversations = true;
        state.data.next_cursor = None;
        state.data.fetching_conversations.clear();
        state.session.login_state = LoginState::Idle;
        state.ws.ws_status = WsStatus::Disconnected;
        state.stubs.dm_stubs.clear();
        state.stubs.group_stubs.clear();
        state.pending.pending_confirmations.clear();
        state.ui.group_name = String::new();
        state.ui.dm_username = String::new();
        state.ui.dm_user_username_input = String::new();
        state.view.conv_title = String::new();
        state.view.input = String::new();
        state.ui.invite_conversation_id = String::new();
        state.ui.last_invite_token = None;
        state.ui.last_created_invite = None;
        state.seq.user_sequence_confirmed = 0;
        state.seq.user_sequence_received = 0;
        state.seq.conversation_sequences.clear();
        state.seq.conversation_sequences_confirmed.clear();
        state.seq.sequence_stats = SequenceStats::new();
        state.buffers.message_reorder_buffer.clear();
        state.buffers.user_event_reorder_buffer.clear();
        state.data.is_loading = false;
        state.view.is_loading_more = false;
        state.data.is_initial_load_complete = false;
        state.view.has_more_messages.clear();
        state.seq.is_recovering_user_events = false;
        state.seq.is_recovering_messages.clear();
        state.seq.pending_resume_requests = 0;
        state.seq.missed_pings = 0;
        state.seq.last_ping_time = now;
        state.session.current_session_id = None;
        proof {
            assert(state@.data.conversation_messages =~= Map::empty());
            assert(state@.data.members_list =~= Map::empty());
            assert(state@.buffers.messages =~= Map::empty());
            assert(state@.buffers.user_events =~= Map::empty());
            assert(state@.view =~= logged_out_app(old(state)@, now).view);
            assert(state@.data =~= logged_out_app(old(state)@, now).data);
            assert(state@.seq =~= logged_out_app(old(state)@, now).seq);
            assert(state@.ui =~= logged_out_app(old(state)@, now).ui);
            assert(state@.pending =~= logged_out_app(old(state)@, now).pending);
        }
        had_control
    }

    /// The user logged out (now). Returns whether a WebSocket connection was under
    /// control, which the caller then shuts down.
    pub fn handle_logged_out(state: &mut AppState) -> (had_control: bool)
        ensures
            had_control == old(state)@.ws.has_ws_control,
            exists|now: i64| now >= 0 && final(state)@ == #[trigger] logged_out_app(old(state)@, now),
    {
        let now = crate::external::now_millis();
        Self::handle_logged_out_at(state, now)
    }

    /// The user asked to delete the account: confirmation is asked for.
    pub fn handle_delete_account_start(state: &mut AppState)
        ensures
            final(state)@ == (AppView { ui: UiModel { confirm_delete_account: true, ..old(state)@.ui }, ..old(state)@ }),
    {
        state.ui.confirm_delete_account = true;
    }

    /// The user cancelled the deletion of the account.
    pub fn handle_delete_account_cancel(state: &mut AppState)
        ensures
            cancel_rel(old(state)@, final(state)@),
    {
        state.ui.confirm_delete_account = false;
        state.send_ui_event(UiEvent::Info(String::from_str("Eliminazione annullata")));
    }

    /// The user confirmed the deletion of the account: it is requested over the WebSocket,
    /// which must be connected and must take the request.
    pub fn handle_delete_account_confirm(state: &mut AppState)
        ensures
            confirm_rel(old(state)@, final(state)@),
    {
        state.ui.confirm_delete_account = false;
        if !state.ws.has_ws_control {
            state.send_ui_event(UiEvent::Error(ErrorType::Auth(String::from_str("WebSocket non connesso"))));
            return;
        }
        if !state.try_send_outgoing(Outgoing::DeleteUser) {
            state.send_ui_event(UiEvent::Error(ErrorType::Auth(String::from_str("Impossibile inviare richiesta: coda piena"))));
        }
    }
}

} // verus!
