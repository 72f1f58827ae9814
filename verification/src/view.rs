//! The mathematical content of the application state, used by the contracts.
use std::collections::BTreeMap;
use vstd::prelude::*;
use crate::model::{ConversationDto, MessageDto, NotificationData, Outgoing, Page, ParticipantInfo, UiEvent};
use crate::state::{
    AppState, ChatView, ConversationData, CreateGroupPopupState, InvitePopupState, PendingDeletion,
    PendingRequests, ReorderBuffers, SequenceState, SequenceStats, Session, Stubs, Toast, UiState,
    WsState,
};

verus! {

/// The mathematical content of a `SequenceState`.
pub ghost struct SeqModel {
    pub user_sequence_confirmed: u64,
    pub user_sequence_received: u64,
    pub conversation_sequences: Map<u128, u64>,
    pub conversation_sequences_confirmed: Map<u128, u64>,
    pub is_recovering_user_events: bool,
    pub is_recovering_messages: Map<u128, bool>,
    pub pending_resume_requests: u32,
    pub stats: SequenceStats,
    pub ping_interval_ms: i64,
    pub last_ping_time: i64,
    pub missed_pings: u32,
    pub max_missed_pings: u32,
    pub ping_timeout_ms: i64,
}

impl View for SequenceState {
    type V = SeqModel;

    open spec fn view(&self) -> SeqModel {
        SeqModel {
            user_sequence_confirmed: self.user_sequence_confirmed,
            user_sequence_received: self.user_sequence_received,
            conversation_sequences: self.conversation_sequences@,
            conversation_sequences_confirmed: self.conversation_sequences_confirmed@,
            is_recovering_user_events: self.is_recovering_user_events,
            is_recovering_messages: self.is_recovering_messages@,
            pending_resume_requests: self.pending_resume_requests,
            stats: self.sequence_stats,
            ping_interval_ms: self.ping_interval_ms,
            last_ping_time: self.last_ping_time,
            missed_pings: self.missed_pings,
            max_missed_pings: self.max_missed_pings,
            ping_timeout_ms: self.ping_timeout_ms,
        }
    }
}

/// The mathematical content of a `ChatView`.
pub ghost struct ChatModel {
    pub page: Page,
    pub cid: Option<u128>,
    pub conv_title: Seq<char>,
    pub input: Seq<char>,
    pub messages: Seq<MessageDto>,
    pub is_loading_more: bool,
    pub has_more_messages: Map<u128, bool>,
}

impl View for ChatView {
    type V = ChatModel;

    open spec fn view(&self) -> ChatModel {
        ChatModel {
            page: self.page,
            cid: self.cid,
            conv_title: self.conv_title@,
            input: self.input@,
            messages: self.messages@,
            is_loading_more: self.is_loading_more,
            has_more_messages: self.has_more_messages@,
        }
    }
}

/// The mathematical content of a `ConversationData`.
pub ghost struct DataModel {
    pub conversations: Option<Seq<ConversationDto>>,
    pub conversation_messages: Map<u128, Seq<MessageDto>>,
    pub conversation_unread_counts: Map<u128, i64>,
    pub members_list: Map<u128, Seq<ParticipantInfo>>,
    pub request_conversations_refresh: bool,
    pub fetching_conversations: Set<u128>,
    pub has_more_conversations: bool,
    pub next_cursor: Option<i64>,
    pub is_loading_more_conversations: bool,
    pub is_initial_load_complete: bool,
    pub is_loading: bool,
    pub is_loading_members: bool,
}

pub open spec fn opt_seq<T>(v: Option<Vec<T>>) -> Option<Seq<T>> {
    match v {
        Some(x) => Some(x@),
        None => None,
    }
}

pub open spec fn seq_map_view<T>(m: Map<u128, Vec<T>>) -> Map<u128, Seq<T>> {
    m.map_values(|v: Vec<T>| v@)
}

impl View for ConversationData {
    type V = DataModel;

    open spec fn view(&self) -> DataModel {
        DataModel {
            conversations: opt_seq(self.conversations),
            conversation_messages: seq_map_view(self.conversation_messages@),
            conversation_unread_counts: self.conversation_unread_counts@,
            members_list: seq_map_view(self.members_list@),
            request_conversations_refresh: self.request_conversations_refresh,
            fetching_conversations: self.fetching_conversations@,
            has_more_conversations: self.has_more_conversations,
            next_cursor: self.next_cursor,
            is_loading_more_conversations: self.is_loading_more_conversations,
            is_initial_load_complete: self.is_initial_load_complete,
            is_loading: self.is_loading,
            is_loading_members: self.is_loading_members,
        }
    }
}

/// The mathematical content of the reorder buffers.
pub ghost struct BuffersModel {
    pub messages: Map<u128, Map<u64, MessageDto>>,
    pub user_events: Map<u64, Seq<NotificationData>>,
}

impl View for ReorderBuffers {
    type V = BuffersModel;

    open spec fn view(&self) -> BuffersModel {
        BuffersModel {
            messages: self.message_reorder_buffer@.map_values(|b: BTreeMap<u64, MessageDto>| b@),
            user_events: self.user_event_reorder_buffer@.map_values(|v: Vec<NotificationData>| v@),
        }
    }
}

/// The mathematical content of the stubs.
pub ghost struct StubsModel {
    pub dm_stubs: Map<u128, (String, i64)>,
    pub group_stubs: Map<u128, (String, i64)>,
}

impl View for Stubs {
    type V = StubsModel;

    open spec fn view(&self) -> StubsModel {
        StubsModel { dm_stubs: self.dm_stubs@, group_stubs: self.group_stubs@ }
    }
}

/// The mathematical content of the pending requests.
pub ghost struct PendingModel {
    pub pending_confirmations: Seq<(String, MessageDto)>,
    pub confirmation_timeout_secs: i64,
    pub last_confirmation_cleanup: i64,
    pub pending_user_check: Option<String>,
    pub user_check_request_id: Option<String>,
    pub user_check_timestamp: Option<i64>,
}

impl View for PendingRequests {
    type V = PendingModel;

    open spec fn view(&self) -> PendingModel {
        PendingModel {
            pending_confirmations: self.pending_confirmations@,
            confirmation_timeout_secs: self.confirmation_timeout_secs,
            last_confirmation_cleanup: self.last_confirmation_cleanup,
            pending_user_check: self.pending_user_check,
            user_check_request_id: self.user_check_request_id,
            user_check_timestamp: self.user_check_timestamp,
        }
    }
}

/// The mathematical content of the "create group" form.
pub ghost struct CreateGroupModel {
    pub group_name: Seq<char>,
    pub manual_username_input: Seq<char>,
    pub selected_participants: Seq<String>,
    pub search_query: Seq<char>,
    pub pending_user_verification: Option<String>,
}

impl View for CreateGroupPopupState {
    type V = CreateGroupModel;

    open spec fn view(&self) -> CreateGroupModel {
        CreateGroupModel {
            group_name: self.group_name@,
            manual_username_input: self.manual_username_input@,
            selected_participants: self.selected_participants@,
            search_query: self.search_query@,
            pending_user_verification: self.pending_user_verification,
        }
    }
}

/// The mathematical content of the "invite members" form.
pub ghost struct InviteModel {
    pub search_query: Seq<char>,
    pub selected_users: Seq<String>,
    pub pending_user_verification: Option<String>,
}

impl View for InvitePopupState {
    type V = InviteModel;

    open spec fn view(&self) -> InviteModel {
        InviteModel {
            search_query: self.search_query@,
            selected_users: self.selected_users@,
            pending_user_verification: self.pending_user_verification,
        }
    }
}

/// The mathematical content of the UI state.
pub ghost struct UiModel {
    pub toasts: Seq<Toast>,
    pub auth_message: Option<String>,
    pub auth_message_is_error: bool,
    pub confirm_delete_account: bool,
    pub show_account_modal: bool,
    pub pending_deletion: Option<PendingDeletion>,
    pub group_name: Seq<char>,
    pub dm_user_username_input: Seq<char>,
    pub last_invite_token: Option<String>,
    pub invite_conversation_id: Seq<char>,
    pub last_created_invite: Option<String>,
    pub show_invite_popup: bool,
    pub invite_popup: InviteModel,
    pub show_group_info_popup: bool,
    pub show_create_group_modal: bool,
    pub create_group_popup: CreateGroupModel,
    pub dm_username: Seq<char>,
    pub pending_message_deletion: Option<u128>,
    pub pending_member_kick: Option<(u128, u128, String)>,
}

impl View for UiState {
    type V = UiModel;

    open spec fn view(&self) -> UiModel {
        UiModel {
            toasts: self.toasts@,
            auth_message: self.auth_message,
            auth_message_is_error: self.auth_message_is_error,
            confirm_delete_account: self.confirm_delete_account,
            show_account_modal: self.show_account_modal,
            pending_deletion: self.pending_deletion,
            group_name: self.group_name@,
            dm_user_username_input: self.dm_user_username_input@,
            last_invite_token: self.last_invite_token,
            invite_conversation_id: self.invite_conversation_id@,
            last_created_invite: self.last_created_invite,
            show_invite_popup: self.show_invite_popup,
            invite_popup: self.invite_popup@,
            show_group_info_popup: self.show_group_info_popup,
            show_create_group_modal: self.show_create_group_modal,
            create_group_popup: self.create_group_popup@,
            dm_username: self.dm_username@,
            pending_message_deletion: self.pending_message_deletion,
            pending_member_kick: self.pending_member_kick,
        }
    }
}

/// The mathematical content of the whole application state.
pub ghost struct AppView {
    pub session: Session,
    pub ws: WsState,
    pub view: ChatModel,
    pub data: DataModel,
    pub seq: SeqModel,
    pub buffers: BuffersModel,
    pub stubs: StubsModel,
    pub pending: PendingModel,
    pub ui: UiModel,
    pub ui_events: Seq<UiEvent>,
    pub outgoing: Seq<Outgoing>,
}

impl View for AppState {
    type V = AppView;

    open spec fn view(&self) -> AppView {
        AppView {
            session: self.session,
            ws: self.ws,
            view: self.view@,
            data: self.data@,
            seq: self.seq@,
            buffers: self.buffers@,
            stubs: self.stubs@,
            pending: self.pending@,
            ui: self.ui@,
            ui_events: self.ui_events@,
            outgoing: self.outgoing@,
        }
    }
}

} // verus!
