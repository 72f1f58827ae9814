//! Data model shared by the handlers: messages, conversations, events.
use std::collections::HashMap;
use vstd::prelude::*;

verus! {

/// A chat message. Identifiers here and below are UUIDs, held as their 128-bit value.
#[derive(Debug)]
pub struct MessageDto {
    pub id: u128,
    pub author_id: u128,
    pub conversation_id: u128,
    pub author_username: String,
    pub content: String,
    pub created_at: i64,
    pub sequence_num: Option<u64>,
    pub client_msg_id: Option<String>,
    pub is_confirmed: Option<bool>,
}

pub fn clone_opt_string(s: &Option<String>) -> (r: Option<String>)
    ensures
        r == *s,
{
    match s {
        Some(x) => Some(x.clone()),
        None => None,
    }
}

impl MessageDto {
    /// A field-by-field copy.
    pub fn duplicate(&self) -> (r: MessageDto)
        ensures
            r == *self,
    {
        MessageDto {
            id: self.id,
            author_id: self.author_id,
            conversation_id: self.conversation_id,
            author_username: self.author_username.clone(),
            content: self.content.clone(),
            created_at: self.created_at,
            sequence_num: self.sequence_num,
            client_msg_id: clone_opt_string(&self.client_msg_id),
            is_confirmed: self.is_confirmed,
        }
    }

    pub open spec fn spec_is_pending(&self) -> bool {
        self.client_msg_id is Some && self.is_confirmed == Some(false)
    }

    /// A message that was sent optimistically and still waits for the server.
    pub fn is_pending(&self) -> (r: bool)
        ensures
            r == self.spec_is_pending(),
    {
        self.client_msg_id.is_some() && match self.is_confirmed {
            Some(b) => !b,
            None => false,
        }
    }

    /// A message that the server confirmed.
    pub fn is_server_confirmed(&self) -> (r: bool)
        ensures
            r == (self.is_confirmed == Some(true)),
    {
        match self.is_confirmed {
            Some(b) => b,
            None => false,
        }
    }
}


#[derive(Debug)]
pub struct ConversationDto {
    pub id: u128,
    pub kind: String,
    pub title: String,
    pub owner_id: u128,
    pub created_at: i64,
    pub last_read_sequence: i64,
    pub last_activity: i64,
    pub last_msg_seq: i64,
}

impl ConversationDto {
    /// A field-by-field copy.
    pub fn duplicate(&self) -> (r: ConversationDto)
        ensures
            r == *self,
    {
        ConversationDto {
            id: self.id,
            kind: self.kind.clone(),
            title: self.title.clone(),
            owner_id: self.owner_id,
            created_at: self.created_at,
            last_read_sequence: self.last_read_sequence,
            last_activity: self.last_activity,
            last_msg_seq: self.last_msg_seq,
        }
    }
}

/// A conversation with its members.
pub struct ConversationWithMembers {
    pub conversation: ConversationDto,
    pub members: Vec<ParticipantInfo>,
}

/// A conversation together with its most recent message.
pub struct ConversationSummary {
    pub conversation: ConversationDto,
    pub last_message: Option<MessageDto>,
}

/// One page of the conversation list.
pub struct PaginatedConversationsResponse {
    pub conversations: Vec<ConversationSummary>,
    pub next_cursor: Option<i64>,
    pub has_more: bool,
}

#[derive(Debug)]
pub struct ParticipantInfo {
    pub user_id: u128,
    pub username: String,
    pub role: String,
}

impl ParticipantInfo {
    /// A field-by-field copy.
    pub fn duplicate(&self) -> (r: ParticipantInfo)
        ensures
            r == *self,
    {
        ParticipantInfo { user_id: self.user_id, username: self.username.clone(), role: self.role.clone() }
    }
}

/// A user as the server lists it.
pub struct User {
    pub id: u128,
    pub username: String,
}

/// A user's account data.
pub struct UserInfo {
    pub id: u128,
    pub username: String,
    pub created_at: i64,
}

/// The answer to a successful login.
pub struct LoginResp {
    pub token: String,
    pub user_id: u128,
    pub username: String,
    pub last_sequence: u64,
}

/// Body of a registration request.
pub struct RegisterReq {
    pub username: String,
    pub password: String,
}

/// Body of a login request.
pub struct LoginReq {
    pub username: String,
    pub password: String,
}

/// Body of a group creation request.
pub struct GroupReq {
    pub name: String,
}

/// Body of a direct-message creation request.
pub struct DmReq {
    pub user_username: String,
}

/// The identifier the server assigned to a new object.
pub struct CreatedId {
    pub id: u128,
}

/// Body of an invite creation request.
pub struct InviteReq {
    pub conversation_id: u128,
}

/// The invite token the server created.
pub struct InviteResp {
    pub token: String,
}

/// Body of a join-by-invite request.
pub struct JoinByTokenReq {
    pub token: String,
}

/// Body of a message sent over HTTP.
pub struct SendMsgReq {
    pub content: String,
}

/// A message as the HTTP API returns it.
pub struct MessageResponse {
    pub id: String,
    pub author_id: String,
    pub author_username: String,
    pub content: String,
    pub created_at: i64,
    pub sequence_num: Option<i64>,
}

/// A conversation with its messages and members, as one HTTP answer.
pub struct ConversationWithMessages {
    pub conversation: ConversationDto,
    pub messages: Vec<MessageDto>,
    pub members: Vec<ParticipantInfo>,
}

#[derive(Debug, Clone, Copy, PartialEq, Eq, Structural)]
pub enum Page {
    Auth,
    Conversations,
    Chat,
}

#[derive(Debug, Clone, Copy, PartialEq, Eq, Structural)]
pub enum WsStatus {
    Disconnected,
    Connecting,
    Connected,
}

#[derive(Debug, Clone, Copy, PartialEq, Eq, Structural)]
pub enum LoginState {
    Idle,
    LoggingIn,
    Registering,
    LoggedIn,
}

/// A request to fetch a conversation with its members and messages.
pub struct ConversationFetch {
    pub base: String,
    pub token: String,
    pub conversation_id: u128,
}

/// A gap in the user event stream, as the server reports it in a pong.
#[derive(Debug, Clone, Copy, PartialEq, Eq, Structural)]
pub struct GapInfo {
    pub detected: bool,
    pub client_seq: u64,
    pub server_seq: u64,
    pub gap_size: u64,
}

/// The last message carried by a conversation in a user event, field by field as the
/// server sent it (a field is `None` when it was missing or of another type).
pub struct LastMessagePayload {
    pub id: Option<String>,
    pub author_id: Option<String>,
    pub author_username: Option<String>,
    pub content: Option<String>,
    pub created_at: Option<i64>,
    /// `sequence_num` read as a signed integer.
    pub sequence_num_i64: Option<i64>,
    /// `sequence_num` read as an unsigned integer.
    pub sequence_num_u64: Option<u64>,
}

/// A conversation carried by a user event, field by field as the server sent it.
pub struct ConversationPayload {
    pub id: Option<String>,
    pub kind: Option<String>,
    pub owner_id: Option<String>,
    pub created_at: Option<i64>,
    pub display_title: Option<String>,
    pub title: Option<String>,
    pub last_read_sequence: Option<i64>,
    pub last_activity: Option<i64>,
    pub last_msg_seq: Option<i64>,
    pub client_temp_id: Option<String>,
    pub last_message: Option<LastMessagePayload>,
}

/// The data of a user event: the fields of the server's JSON object that the client
/// reads, each `None` when it is missing or of another type.
pub struct NotificationData {
    /// `sequence`, which the data of a buffered event may carry.
    pub sequence: Option<u64>,
    /// `event_type`, likewise.
    pub event_type: Option<String>,
    /// `conversation_id`, likewise, when it is a UUID.
    pub conversation_id: Option<u128>,
    /// `conversation_sequence` of a new message.
    pub conversation_sequence: Option<u64>,
    /// The message of a new message event (the `message` object, or the whole data),
    /// when it reads as a message.
    pub message: Option<MessageDto>,
    /// `members` of a member list update (an empty list when absent), or `None` when it
    /// does not read as a list of participants.
    pub members: Option<Vec<ParticipantInfo>>,
    /// `username`.
    pub username: Option<String>,
    /// `conversation`.
    pub conversation: Option<ConversationPayload>,
}

/// A user event replayed by the server during a resume.
pub struct UserEventData {
    pub sequence: u64,
    pub event_type: String,
    pub event_data: NotificationData,
    pub conversation_id: Option<u128>,
    pub created_at: i64,
}

/// The kinds of failure the client reports to the user.
#[derive(Debug)]
pub enum ErrorType {
    Connection,
    MessageSend,
    MessageDelete,
    ConversationDelete,
    GroupLeave,
    GroupCreate,
    GroupRemoveMember,
    Invite,
    Auth(String),
    DataRecovery,
    Generic(String),
}

/// Requests that the client sends to the server over the WebSocket.
#[allow(inconsistent_fields)]
pub enum Outgoing {
    ChatMessage {
        cid: u128,
        content: String,
        target_username: Option<String>,
        target_usernames: Option<Vec<String>>,
        client_msg_id: Option<String>,
    },
    InviteUser { cid: u128, usernames: Vec<String> },
    CreateGroup { group_name: String },
    CreateGroupWithParticipants {
        group_name: String,
        participant_usernames: Vec<String>,
        client_temp_id: Option<String>,
    },
    Typing { cid: u128, is_typing: bool },
    Ping { user_sequence: Option<u64> },
    RequestUserResume { from_sequence: u64, limit: i64 },
    RequestMessagesResume { conversation_id: u128, from_sequence: u64, limit: i64 },
    SequenceAck { user_sequence: Option<u64>, conversation_sequences: Option<Vec<(u128, u64)>> },
    DeleteConversation { cid: u128 },
    MarkRead { conversation_id: u128, sequence_num: u64 },
    LeaveGroup { cid: u128 },
    DeleteMessage { mid: u128 },
    CheckUser { username: String, request_id: String },
    DeleteUser,
}

/// Events that reach the application state, from the network tasks or from the user.
#[allow(inconsistent_fields)]
pub enum UiEvent {
    Info(String),
    Error(ErrorType),
    LoginStarted,
    RegisterStarted,
    Logged(String, u128, u64),
    LoggedOut,
    LoadingError,
    DeleteAccountStart,
    DeleteAccountConfirm,
    DeleteAccountCancel,
    WsConnected,
    WsDisconnected,
    WsControlReady,
    WsError(String),
    WsIncoming(MessageDto),
    Opened(u128),
    Closed(u128),
    ConversationCreated(u128),
    DmStubCreated(u128, String),
    UserCheckResult { username: String, exists: bool, user_id: Option<u128>, request_id: String },
    ConversationDeleted(u128),
    ConversationsLoaded(Vec<ConversationDto>),
    ConversationsAppended(PaginatedConversationsResponse),
    ConversationSummaryFetched(ConversationSummary),
    ConversationFetchFailed(u128),
    AllMessagesLoaded(HashMap<u128, Vec<MessageDto>>),
    RefreshedMsgs(Vec<MessageDto>),
    SingleConversationLoaded(ConversationDto),
    InitialLoadComplete,
    LoadingProgress(String),
    MessageSendFailed(u128),
    MessageConfirmation { client_msg_id: String, server_msg_id: u128, sequence: Option<u64>, status: String },
    MessageDeleted { message_id: u128, conversation_id: u128 },
    InviteCreated(String),
    MembersLoaded(u128, Vec<ParticipantInfo>),
    TriggerConversationFetch(u128, String),
    ConversationCompleteFetched(ConversationDto, Vec<MessageDto>),
    ConversationListUpdated,
    SendPing,
    PongReceived { current_user_sequence: u64, gaps_detected: bool, user_events_gap: Option<GapInfo> },
    UserEventsResume { events: Vec<UserEventData> },
    MessagesResume { conversation_id: u128, messages: Vec<MessageDto> },
    UserNotification {
        sequence: u64,
        event_type: String,
        event_data: NotificationData,
        conversation_id: Option<u128>,
        recovery: bool,
    },
    InitialStateReceived {
        conversations: Vec<ConversationDto>,
        user_sequence: u64,
        members_by_conversation: Option<Vec<(u128, Vec<ParticipantInfo>)>>,
    },
    LastMessageUpdate { conversation_id: u128, message: MessageDto },
    ConversationMessagesReceived { conversation_id: u128, messages: Vec<MessageDto>, has_more: bool },
    OlderMessagesLoaded(Vec<MessageDto>),
    ConversationConfirmed { conversation: ConversationDto, messages: Vec<MessageDto>, client_temp_id: Option<String> },
}

} // verus!
