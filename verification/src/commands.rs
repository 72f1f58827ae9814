//! Actions the user starts: DM and group creation, deletions, messages to the server.
use vstd::prelude::*;
use crate::external::{new_uuid, now_millis, now_secs, uuid_text, uuid_to_string};
use crate::stubs::with_dm_stub;
use crate::text::{lowercase, to_lowercase, trim, trimmed};
use crate::model::{ConversationDto, ErrorType, Outgoing, Page, ParticipantInfo, UiEvent, WsStatus};
use crate::state::{AppState, PendingDeletion, OUTGOING_CAPACITY};
use crate::view::{AppView, ChatModel, DataModel, PendingModel, StubsModel, UiModel};

verus! {

/// The error reported when request `o` cannot be queued; requests without one (pings,
/// typing notices, acknowledgements, read receipts) are not sent by `send_via_websocket`.
pub open spec fn error_for(o: Outgoing) -> Option<ErrorType> {
    match o {
        Outgoing::ChatMessage { .. } => Some(ErrorType::MessageSend),
        Outgoing::DeleteConversation { .. } => Some(ErrorType::ConversationDelete),
        Outgoing::InviteUser { .. } => Some(ErrorType::Invite),
        Outgoing::LeaveGroup { .. } => Some(ErrorType::GroupLeave),
        Outgoing::DeleteMessage { .. } => Some(ErrorType::MessageDelete),
        Outgoing::CreateGroup { .. } => Some(ErrorType::GroupCreate),
        Outgoing::CreateGroupWithParticipants { .. } => Some(ErrorType::GroupCreate),
        Outgoing::RequestUserResume { .. } => Some(ErrorType::DataRecovery),
        Outgoing::RequestMessagesResume { .. } => Some(ErrorType::DataRecovery),
        Outgoing::CheckUser { .. } => Some(ErrorType::Connection),
        _ => None,
    }
}

/// The state with event `e` sent to itself.
pub open spec fn event_app(a: AppView, e: UiEvent) -> AppView {
    AppView { ui_events: a.ui_events.push(e), ..a }
}

/// The state after request `o` is handed to `send_via_websocket`: queued when the queue
/// has room, its error reported otherwise; a request without an error kind is dropped.
pub open spec fn ws_send_app(a: AppView, o: Outgoing) -> AppView {
    match error_for(o) {
        None => a,
        Some(e) => if a.outgoing.len() < OUTGOING_CAPACITY {
            AppView { outgoing: a.outgoing.push(o), ..a }
        } else {
            event_app(a, UiEvent::Error(e))
        },
    }
}

/// `e` reports a generic error with text `text`.
pub open spec fn generic_error(e: UiEvent, text: Seq<char>) -> bool {
    e matches UiEvent::Error(ErrorType::Generic(t)) && t@ == text
}

/// `e` reports information with text `text`.
pub open spec fn info_is(e: UiEvent, text: Seq<char>) -> bool {
    e matches UiEvent::Info(t) && t@ == text
}

/// `b` is `a` with one more event sent to itself, the last one.
pub open spec fn plus_event(a: AppView, b: AppView) -> bool {
    b == event_app(a, b.ui_events.last())
}

/// The state without the conversation `cid` in the list, the cache and the view.
pub open spec fn forget_local_app(a: AppView, cid: u128) -> AppView {
    let a1 = AppView {
        data: DataModel {
            conversations: match a.data.conversations {
                Some(l) => Some(crate::convlist::remove_conv(l, cid)),
                None => None,
            },
            conversation_messages: a.data.conversation_messages.remove(cid),
            ..a.data
        },
        stubs: StubsModel { dm_stubs: a.stubs.dm_stubs.remove(cid), ..a.stubs },
        ..a
    };
    if a.view.cid == Some(cid) {
        AppView {
            view: ChatModel { cid: None, conv_title: Seq::empty(), messages: Seq::empty(), page: Page::Conversations, ..a1.view },
            ..a1
        }
    } else {
        a1
    }
}

/// Whether the logged-in user `user_id` owns conversation `c`.
pub open spec fn owns(user_id: Option<u128>, c: ConversationDto) -> bool {
    match user_id {
        Some(u) => u == c.owner_id,
        None => false,
    }
}

/// Whether the list holds a DM whose title, lowercased, is `lower_name`.
pub open spec fn dm_with(convs: Option<Seq<ConversationDto>>, lower_name: Seq<char>) -> bool {
    match convs {
        Some(l) => has_dm_lower(l, lower_name),
        None => false,
    }
}

/// Whether `l` holds a DM whose title, lowercased, is `lower_name`.
pub open spec fn has_dm_lower(l: Seq<ConversationDto>, lower_name: Seq<char>) -> bool {
    exists|i: int| 0 <= i < l.len() && (#[trigger] l[i]).kind@ == "dm"@ && lowercase(l[i].title@) == lower_name
}

/// The state after a check that user `name` exists was started, as request `rid`, at
/// time `t`.
pub open spec fn user_check_app(a: AppView, name: String, rid: String, t: i64) -> AppView {
    let a1 = AppView {
        pending: PendingModel {
            pending_user_check: Some(name),
            user_check_request_id: Some(rid),
            user_check_timestamp: Some(t),
            ..a.pending
        },
        ..a
    };
    ws_send_app(a1, Outgoing::CheckUser { username: name, request_id: rid })
}

/// `c` is the stub of group `name` with id `stub_id`, owned by `owner`, created at `now`.
pub open spec fn group_stub_conv(c: ConversationDto, stub_id: u128, name: String, owner: u128, now: i64) -> bool {
    &&& c.id == stub_id
    &&& c.kind@ == "group"@
    &&& c.title == name
    &&& c.owner_id == owner
    &&& c.created_at == now
    &&& c.last_read_sequence == 0
    &&& c.last_activity == now
    &&& c.last_msg_seq == 0
}

/// `ms` lists the members of a new group: the user as owner, when logged in, then each
/// participant as a member whose id the server will fill in.
pub open spec fn stub_members(ms: Seq<ParticipantInfo>, user_id: Option<u128>, username: String, participants: Seq<String>) -> bool {
    let k: int = if user_id is Some { 1 } else { 0 };
    &&& ms.len() == k + participants.len()
    &&& user_id is Some ==> ms[0].user_id == user_id.unwrap() && ms[0].username == username && ms[0].role@ == "owner"@
    &&& forall|j: int| 0 <= j < participants.len() ==> {
        &&& (#[trigger] ms[k + j]).user_id == 0
        &&& ms[k + j].username == participants[j]
        &&& ms[k + j].role@ == "member"@
    }
}

/// The state after the group stub `c` with members `ms` was opened, its id given to the
/// server as `tid`, at time `now_ms`: when the request is queued the form is emptied;
/// otherwise the stub is dropped again and the failure reported.
pub open spec fn group_stub_app(a: AppView, c: ConversationDto, ms: Seq<ParticipantInfo>, participants: Vec<String>, tid: String, now_ms: i64) -> AppView {
    let a1 = AppView {
        data: DataModel {
            conversations: match a.data.conversations {
                Some(l) => Some(l.insert(0, c)),
                None => None,
            },
            members_list: a.data.members_list.insert(c.id, ms),
            ..a.data
        },
        stubs: StubsModel { group_stubs: a.stubs.group_stubs.insert(c.id, (c.title, now_ms)), ..a.stubs },
        view: ChatModel { cid: Some(c.id), page: Page::Chat, conv_title: c.title@, ..a.view },
        ..a
    };
    if a1.outgoing.len() < OUTGOING_CAPACITY {
        AppView {
            outgoing: a1.outgoing.push(Outgoing::CreateGroupWithParticipants {
                group_name: c.title,
                participant_usernames: participants,
                client_temp_id: Some(tid),
            }),
            ui: UiModel { create_group_popup: crate::state::CreateGroupPopupState::new_model(), ..a1.ui },
            ..a1
        }
    } else {
        AppView {
            data: DataModel {
                conversations: match a1.data.conversations {
                    Some(l) => Some(crate::convlist::remove_conv(l, c.id)),
                    None => None,
                },
                conversation_messages: a1.data.conversation_messages.remove(c.id),
                members_list: a1.data.members_list.remove(c.id),
                ..a1.data
            },
            stubs: StubsModel { group_stubs: a1.stubs.group_stubs.remove(c.id), ..a1.stubs },
            view: ChatModel { cid: None, page: Page::Conversations, messages: Seq::empty(), ..a1.view },
            ui_events: a1.ui_events.push(UiEvent::Error(ErrorType::GroupCreate)),
            ..a1
        }
    }
}

/// What loading older messages of the open conversation asks the server for.
pub struct OlderMessagesRequest {
    pub base: String,
    pub token: String,
    pub conversation_id: u128,
    /// The sequence of the oldest message shown, when it has one.
    pub before_seq: Option<i64>,
}

/// `b` is `a` after the user asks to open a DM with `target`: the user must exist, so a
/// check is sent first; the name must not be empty, nor the user's own, nor one with a
/// DM already; one check at a time.
pub open spec fn dm_request_rel(a: AppView, b: AppView, target: Seq<char>) -> bool {
    let u = trim(target);
    if a.ws.ws_status != WsStatus::Connected {
        b == event_app(a, UiEvent::Error(ErrorType::Connection))
    } else if u.len() == 0 {
        plus_event(a, b) && generic_error(b.ui_events.last(), "Username non può essere vuoto"@)
    } else if lowercase(u) == lowercase(a.session.username@) {
        plus_event(a, b) && generic_error(b.ui_events.last(), "Non puoi chattare con te stesso"@)
    } else if dm_with(a.data.conversations, lowercase(u)) {
        plus_event(a, b) && generic_error(b.ui_events.last(), "Esiste già una chat con questo utente"@)
    } else if a.pending.pending_user_check is Some {
        b == a
    } else {
        exists|name: String, rid: String, t: i64|
            name@ == u && (exists|id: u128| rid@ == #[trigger] uuid_text(id))
                && b == #[trigger] user_check_app(a, name, rid, t)
    }
}

impl AppState {
    /// Hands a request to the network task; when the queue is full the user is told
    /// which operation failed. Requests without an error kind are not sent.
    pub fn send_via_websocket(&mut self, outgoing: Outgoing)
        ensures
            final(self)@ == ws_send_app(old(self)@, outgoing),
    {
        let error_type = match &outgoing {
            Outgoing::ChatMessage { .. } => ErrorType::MessageSend,
            Outgoing::DeleteConversation { .. } => ErrorType::ConversationDelete,
            Outgoing::InviteUser { .. } => ErrorType::Invite,
            Outgoing::LeaveGroup { .. } => ErrorType::GroupLeave,
            Outgoing::DeleteMessage { .. } => ErrorType::MessageDelete,
            Outgoing::CreateGroup { .. } => ErrorType::GroupCreate,
            Outgoing::CreateGroupWithParticipants { .. } => ErrorType::GroupCreate,
            Outgoing::RequestUserResume { .. } => ErrorType::DataRecovery,
            Outgoing::RequestMessagesResume { .. } => ErrorType::DataRecovery,
            Outgoing::CheckUser { .. } => ErrorType::Connection,
            _ => return,
        };
        if !self.try_send_outgoing(outgoing) {
            self.send_ui_event(UiEvent::Error(error_type));
        }
    }

    /// Sends `content` to the open conversation; a DM stub names its target user.
    pub fn send_chat_message_ws(&mut self, content: String, client_msg_id: Option<String>)
        ensures
            final(self)@ == (match old(self)@.view.cid {
                Some(cid) => ws_send_app(old(self)@, Outgoing::ChatMessage {
                    cid,
                    content,
                    target_username: if old(self)@.stubs.dm_stubs.contains_key(cid) {
                        Some(old(self)@.stubs.dm_stubs[cid].0)
                    } else {
                        None
                    },
                    target_usernames: None,
                    client_msg_id,
                }),
                None => old(self)@,
            }),
    {
        if let Some(cid) = self.view.cid {
            let target_username = match self.stubs.dm_stubs.get(&cid) {
                Some(entry) => Some(entry.0.clone()),
                None => None,
            };
            self.send_via_websocket(Outgoing::ChatMessage {
                cid,
                content,
                target_username,
                target_usernames: None,
                client_msg_id,
            });
        }
    }

    /// Invites `usernames` into conversation `cid`.
    pub fn send_invite_users(&mut self, cid: u128, usernames: Vec<String>)
        ensures
            final(self)@ == ws_send_app(old(self)@, Outgoing::InviteUser { cid, usernames }),
    {
        self.send_via_websocket(Outgoing::InviteUser { cid, usernames });
    }

    /// Asks the server to delete message `message_id`, when connected.
    pub fn delete_message(&mut self, message_id: u128)
        ensures
            old(self)@.ws.ws_status == WsStatus::Connected ==> final(self)@ == ws_send_app(
                old(self)@,
                Outgoing::DeleteMessage { mid: message_id },
            ),
            old(self)@.ws.ws_status != WsStatus::Connected ==> final(self)@ == event_app(
                old(self)@,
                UiEvent::Error(ErrorType::Connection),
            ),
    {
        if self.ws.ws_status == WsStatus::Connected {
            self.send_via_websocket(Outgoing::DeleteMessage { mid: message_id });
        } else {
            self.send_ui_event(UiEvent::Error(ErrorType::Connection));
        }
    }

    /// Asks for confirmation before deleting `conversation`.
    pub fn request_delete_confirmation(&mut self, conversation: &ConversationDto)
        ensures
            final(self)@ == (AppView {
                ui: UiModel { pending_deletion: Some(PendingDeletion { conversation: *conversation }), ..old(self)@.ui },
                ..old(self)@
            }),
    {
        self.ui.pending_deletion = Some(PendingDeletion { conversation: conversation.duplicate() });
    }

    /// Drops the deletion waiting for confirmation.
    pub fn cancel_delete_confirmation(&mut self)
        ensures
            final(self)@ == (AppView { ui: UiModel { pending_deletion: None, ..old(self)@.ui }, ..old(self)@ }),
    {
        self.ui.pending_deletion = None;
    }

    /// Forgets conversation `cid` locally: list, cache, stub and view.
    fn forget_locally(&mut self, cid: u128)
        ensures
            final(self)@ == forget_local_app(old(self)@, cid),
    {
        let _ = self.stubs.dm_stubs.remove(&cid);
        if let Some(l) = self.data.conversations.take() {
            self.data.conversations = Some(crate::convlist::without_conversation(l, cid));
        }
        let _ = self.data.conversation_messages.remove(&cid);
        proof {
            assert(self@.data.conversation_messages =~= old(self)@.data.conversation_messages.remove(cid));
        }
        if self.view.cid == Some(cid) {
            self.view.cid = None;
            self.view.conv_title = String::new();
            self.view.messages = Vec::new();
            self.view.page = Page::Conversations;
        }
    }

    /// Carries out the deletion the user confirmed: a DM stub is only forgotten locally;
    /// otherwise a member leaves a group, and an owner deletes it (or a DM is deleted),
    /// which needs the connection.
    pub fn execute_pending_deletion(&mut self)
        ensures
            ({
                let a = old(self)@;
                let b = final(self)@;
                let a0 = AppView { ui: UiModel { pending_deletion: None, ..a.ui }, ..a };
                match a.ui.pending_deletion {
                    None => b == a,
                    Some(p) => {
                        let c = p.conversation;
                        if a.stubs.dm_stubs.contains_key(c.id) {
                            plus_event(forget_local_app(a0, c.id), b)
                                && info_is(b.ui_events.last(), "Chat privata rimossa (locale)"@)
                        } else if a.ws.ws_status != WsStatus::Connected {
                            b == event_app(a0, UiEvent::Error(ErrorType::Connection))
                        } else if c.kind@ == "group"@ && !owns(a.session.user_id, c) {
                            plus_event(ws_send_app(a0, Outgoing::LeaveGroup { cid: c.id }), b)
                                && info_is(b.ui_events.last(), "Uscita dal gruppo..."@)
                        } else {
                            plus_event(ws_send_app(a0, Outgoing::DeleteConversation { cid: c.id }), b)
                                && info_is(b.ui_events.last(), if c.kind@ == "group"@ {
                                    "Gruppo eliminato"@
                                } else {
                                    "Conversazione eliminata"@
                                })
                        }
                    },
                }
            }),
    {
        let pending = match self.ui.pending_deletion.take() {
            Some(p) => p,
            None => return,
        };
        let conversation = pending.conversation;
        let cid = conversation.id;
        if self.stubs.dm_stubs.contains_key(&cid) {
            self.forget_locally(cid);
            self.send_ui_event(UiEvent::Info(String::from_str("Chat privata rimossa (locale)")));
        } else if self.ws.ws_status == WsStatus::Connected {
            let is_owner = match self.session.user_id {
                Some(uid) => uid == conversation.owner_id,
                None => false,
            };
            let group = String::from_str("group");
            let is_group = conversation.kind == group;
            if is_group && !is_owner {
                self.send_via_websocket(Outgoing::LeaveGroup { cid });
                self.send_ui_event(UiEvent::Info(String::from_str("Uscita dal gruppo...")));
            } else {
                self.send_via_websocket(Outgoing::DeleteConversation { cid });
                if is_group {
                    self.send_ui_event(UiEvent::Info(String::from_str("Gruppo eliminato")));
                } else {
                    self.send_ui_event(UiEvent::Info(String::from_str("Conversazione eliminata")));
                }
            }
        } else {
            self.send_ui_event(UiEvent::Error(ErrorType::Connection));
        }
    }
    /// Starts a check that user `username` exists, as request `request_id`, at `now`.
    pub fn start_user_check(&mut self, username: String, request_id: String, now: i64)
        ensures
            final(self)@ == user_check_app(old(self)@, username, request_id, now),
    {
        self.pending.pending_user_check = Some(username.clone());
        self.pending.user_check_request_id = Some(request_id.clone());
        self.pending.user_check_timestamp = Some(now);
        self.send_via_websocket(Outgoing::CheckUser { username, request_id });
    }

    /// Whether the list holds a DM whose lowercased title is `lower_name`.
    fn has_dm_with(&self, lower_name: &String) -> (r: bool)
        ensures
            r == dm_with(self@.data.conversations, lower_name@),
    {
        match &self.data.conversations {
            Some(l) => {
                let dm = String::from_str("dm");
                let mut i: usize = 0;
                while i < l.len()
                    invariant
                        i <= l.len(),
                        dm@ == "dm"@,
                        self@.data.conversations == Some(l@),
                        forall|j: int| 0 <= j < i ==> !((#[trigger] l@[j]).kind@ == "dm"@ && lowercase(l@[j].title@) == lower_name@),
                    decreases l.len() - i,
                {
                    if l[i].kind == dm && to_lowercase(l[i].title.as_str()) == *lower_name {
                        assert(self@.data.conversations == Some(l@));
                        assert(l@[i as int].kind@ == "dm"@ && lowercase(l@[i as int].title@) == lower_name@);
                        assert(has_dm_lower(l@, lower_name@));
                        return true;
                    }
                    i = i + 1;
                }
                false
            },
            None => false,
        }
    }

    /// Asks to open a DM with `target_username`: the user must exist, so a check is
    /// sent first; the name must not be empty, nor the user's own, nor one with a DM
    /// already; one check at a time.
    pub fn request_dm_creation(&mut self, target_username: String)
        ensures
            dm_request_rel(old(self)@, final(self)@, target_username@),
    {
        if self.ws.ws_status != WsStatus::Connected {
            self.send_ui_event(UiEvent::Error(ErrorType::Connection));
            return;
        }
        let username = trimmed(target_username.as_str());
        if username.as_str().is_empty() {
            self.send_ui_event(UiEvent::Error(ErrorType::Generic(String::from_str("Username non può essere vuoto"))));
            return;
        }
        let lower = to_lowercase(username.as_str());
        if lower == to_lowercase(self.session.username.as_str()) {
            self.send_ui_event(UiEvent::Error(ErrorType::Generic(String::from_str("Non puoi chattare con te stesso"))));
            return;
        }
        if self.has_dm_with(&lower) {
            self.send_ui_event(UiEvent::Error(ErrorType::Generic(String::from_str("Esiste già una chat con questo utente"))));
            return;
        }
        if self.pending.pending_user_check.is_some() {
            return;
        }
        let id = new_uuid();
        let request_id = uuid_to_string(id);
        let now = now_millis();
        let ghost name = username;
        let ghost rid = request_id;
        self.start_user_check(username, request_id, now);
        assert(rid@ == uuid_text(id));
        assert(self@ == user_check_app(old(self)@, name, rid, now));
    }

    /// Puts the group stub in the list, the stubs and the member lists, and opens it;
    /// returns the stub conversation and its members.
    fn insert_group_stub(
        &mut self,
        stub_id: u128,
        group_name: &String,
        participants: &Vec<String>,
        now: i64,
        now_ms: i64,
    ) -> (r: (Ghost<ConversationDto>, Ghost<Seq<ParticipantInfo>>))
        ensures
            group_stub_conv(r.0@, stub_id, *group_name, crate::incoming::id_or_nil(old(self)@.session.user_id), now),
            stub_members(r.1@, old(self)@.session.user_id, old(self)@.session.username, participants@),
            final(self)@ == (AppView {
                data: DataModel {
                    conversations: match old(self)@.data.conversations {
                        Some(l) => Some(l.insert(0, r.0@)),
                        None => None,
                    },
                    members_list: old(self)@.data.members_list.insert(stub_id, r.1@),
                    ..old(self)@.data
                },
                stubs: StubsModel { group_stubs: old(self)@.stubs.group_stubs.insert(stub_id, (*group_name, now_ms)), ..old(self)@.stubs },
                view: ChatModel { cid: Some(stub_id), page: Page::Chat, conv_title: group_name@, ..old(self)@.view },
                ..old(self)@
            }),
    {
        let group_name = group_name.clone();
        let owner = match self.session.user_id {
            Some(u) => u,
            None => 0,
        };
        let stub = ConversationDto {
            id: stub_id,
            kind: String::from_str("group"),
            title: group_name.clone(),
            owner_id: owner,
            created_at: now,
            last_read_sequence: 0,
            last_activity: now,
            last_msg_seq: 0,
        };
        let ghost c = stub;
        if let Some(mut l) = self.data.conversations.take() {
            l.insert(0, stub);
            self.data.conversations = Some(l);
        }
        self.stubs.group_stubs.insert(stub_id, (group_name.clone(), now_ms));
        let mut members: Vec<ParticipantInfo> = Vec::new();
        if let Some(uid) = self.session.user_id {
            members.push(ParticipantInfo { user_id: uid, username: self.session.username.clone(), role: String::from_str("owner") });
        }
        let k: usize = members.len();
        let mut j: usize = 0;
        while j < participants.len()
            invariant
                k == (if self.session.user_id is Some { 1int } else { 0int }),
                j <= participants.len(),
                members@.len() == k + j,
                self.session.user_id is Some ==> members@[0].user_id == self.session.user_id.unwrap()
                    && members@[0].username == self.session.username && members@[0].role@ == "owner"@,
                forall|i: int| 0 <= i < j ==> {
                    &&& (#[trigger] members@[k + i]).user_id == 0
                    &&& members@[k + i].username == participants@[i]
                    &&& members@[k + i].role@ == "member"@
                },
            decreases participants.len() - j,
        {
            members.push(ParticipantInfo { user_id: 0, username: participants[j].clone(), role: String::from_str("member") });
            j = j + 1;
        }
        let ghost ms = members@;
        self.data.members_list.insert(stub_id, members);
        proof {
            assert(self@.data.members_list =~= old(self)@.data.members_list.insert(stub_id, ms));
        }
        self.view.cid = Some(stub_id);
        self.view.page = Page::Chat;
        self.view.conv_title = group_name.clone();
        (Ghost(c), Ghost(ms))
    }

    /// Opens the group stub `stub_id` named `group_name`, created at `now` (seconds) and
    /// tracked from `now_ms`, and asks the server to create the group with `participants`,
    /// naming the stub `temp_id`.
    pub fn open_group_stub(
        &mut self,
        stub_id: u128,
        group_name: String,
        participants: Vec<String>,
        now: i64,
        now_ms: i64,
        temp_id: String,
    )
        ensures
            exists|c: ConversationDto, ms: Seq<ParticipantInfo>|
                group_stub_conv(c, stub_id, group_name, crate::incoming::id_or_nil(old(self)@.session.user_id), now)
                    && stub_members(ms, old(self)@.session.user_id, old(self)@.session.username, participants@)
                    && final(self)@ == #[trigger] group_stub_app(old(self)@, c, ms, participants, temp_id, now_ms),
    {
        let (gc, gms) = self.insert_group_stub(stub_id, &group_name, &participants, now, now_ms);
        let ghost c = gc@;
        let ghost ms = gms@;
        let ghost a1 = self@;
        let ghost ps = participants;
        let request = Outgoing::CreateGroupWithParticipants {
            group_name,
            participant_usernames: participants,
            client_temp_id: Some(temp_id),
        };
        if !self.try_send_outgoing(request) {
            if let Some(l) = self.data.conversations.take() {
                self.data.conversations = Some(crate::convlist::without_conversation(l, stub_id));
            }
            let _ = self.stubs.group_stubs.remove(&stub_id);
            let _ = self.data.conversation_messages.remove(&stub_id);
            let _ = self.data.members_list.remove(&stub_id);
            self.view.messages = Vec::new();
            self.view.cid = None;
            self.view.page = Page::Conversations;
            self.send_ui_event(UiEvent::Error(ErrorType::GroupCreate));
            proof {
                assert(self@.data.conversation_messages =~= a1.data.conversation_messages.remove(stub_id));
                assert(self@.data.members_list =~= a1.data.members_list.remove(stub_id));
            }
            assert(self@ == group_stub_app(old(self)@, c, ms, ps, temp_id, now_ms));
            return;
        }
        self.ui.create_group_popup.reset();
        assert(self@ == group_stub_app(old(self)@, c, ms, ps, temp_id, now_ms));
    }

    /// Creates the group described in the "create group" form, when connected.
    pub fn create_group_with_participants(&mut self)
        ensures
            old(self)@.ws.ws_status != WsStatus::Connected ==> final(self)@ == event_app(
                old(self)@,
                UiEvent::Error(ErrorType::Connection),
            ),
            old(self)@.ws.ws_status == WsStatus::Connected ==> exists|c: ConversationDto, ms: Seq<ParticipantInfo>, ps: Vec<String>, tid: String, now_ms: i64| {
                &&& c.title@ == trim(old(self)@.ui.create_group_popup.group_name)
                &&& tid@ == uuid_text(c.id)
                &&& ps@ == old(self)@.ui.create_group_popup.selected_participants
                &&& group_stub_conv(c, c.id, c.title, crate::incoming::id_or_nil(old(self)@.session.user_id), c.created_at)
                &&& stub_members(ms, old(self)@.session.user_id, old(self)@.session.username, ps@)
                &&& final(self)@ == #[trigger] group_stub_app(old(self)@, c, ms, ps, tid, now_ms)
            },
    {
        if self.ws.ws_status != WsStatus::Connected {
            self.send_ui_event(UiEvent::Error(ErrorType::Connection));
            return;
        }
        let group_name = trimmed(self.ui.create_group_popup.group_name.as_str());
        let mut participants: Vec<String> = Vec::new();
        let mut i: usize = 0;
        while i < self.ui.create_group_popup.selected_participants.len()
            invariant
                i <= self.ui.create_group_popup.selected_participants.len(),
                participants@ == self.ui.create_group_popup.selected_participants@.take(i as int),
            decreases self.ui.create_group_popup.selected_participants.len() - i,
        {
            participants.push(self.ui.create_group_popup.selected_participants[i].clone());
            proof {
                assert(participants@ =~= self.ui.create_group_popup.selected_participants@.take(i + 1));
            }
            i = i + 1;
        }
        proof {
            assert(participants@ =~= self.ui.create_group_popup.selected_participants@);
        }
        let stub_id = new_uuid();
        let now = now_secs();
        let now_ms = now_millis();
        let temp_id = uuid_to_string(stub_id);
        self.open_group_stub(stub_id, group_name, participants, now, now_ms, temp_id);
    }

    /// Creates a DM stub towards `target_username`, when connected, and returns its id.
    pub fn create_dm_stub(&mut self, target_username: String) -> (r: Option<u128>)
        ensures
            old(self)@.ws.ws_status != WsStatus::Connected ==> r is None && final(self)@ == event_app(
                old(self)@,
                UiEvent::Error(ErrorType::Connection),
            ),
            old(self)@.ws.ws_status == WsStatus::Connected ==> r is Some && exists|t: i64|
                final(self)@ == #[trigger] with_dm_stub(old(self)@, r.unwrap(), target_username, t),
    {
        if self.ws.ws_status != WsStatus::Connected {
            self.send_ui_event(UiEvent::Error(ErrorType::Connection));
            return None;
        }
        let stub_id = new_uuid();
        let ghost target = target_username;
        self.add_dm_stub(stub_id, target_username);
        let ghost t = choose|t: i64| self@ == with_dm_stub(old(self)@, stub_id, target, t);
        let r = Some(stub_id);
        assert(self@ == with_dm_stub(old(self)@, r.unwrap(), target, t));
        r
    }

    /// Decides whether older messages of the open conversation should be loaded, and
    /// from where: not while a page is loading, nor once the beginning is reached.
    pub fn load_older_messages(&mut self) -> (r: Option<OlderMessagesRequest>)
        ensures
            ({
                let a = old(self)@;
                let b = final(self)@;
                match (a.view.cid, a.session.token) {
                    (Some(cid), Some(token)) => {
                        let before = if a.view.messages.len() > 0 {
                            match a.view.messages[0].sequence_num {
                                Some(s) => Some(s as i64),
                                None => None,
                            }
                        } else {
                            None
                        };
                        if a.view.is_loading_more || a.view.has_more_messages.get(cid) == Some(false) {
                            r is None && b == a
                        } else if before is Some && before.unwrap() <= 1 {
                            r is None && b == (AppView {
                                view: ChatModel { has_more_messages: a.view.has_more_messages.insert(cid, false), ..a.view },
                                ..a
                            })
                        } else {
                            r == Some(OlderMessagesRequest { base: a.session.base, token, conversation_id: cid, before_seq: before })
                                && b == (AppView { view: ChatModel { is_loading_more: true, ..a.view }, ..a })
                        }
                    },
                    _ => r is None && b == a,
                }
            }),
    {
        let cid = match self.view.cid {
            Some(c) => c,
            None => return None,
        };
        let token = match &self.session.token {
            Some(t) => t.clone(),
            None => return None,
        };
        if self.view.is_loading_more {
            return None;
        }
        if let Some(more) = self.view.has_more_messages.get(&cid) {
            if !*more {
                return None;
            }
        }
        let before_seq: Option<i64> = if self.view.messages.len() > 0 {
            match self.view.messages[0].sequence_num {
                Some(s) => Some(s as i64),
                None => None,
            }
        } else {
            None
        };
        if let Some(s) = before_seq {
            if s <= 1 {
                self.view.has_more_messages.insert(cid, false);
                return None;
            }
        }
        self.view.is_loading_more = true;
        Some(OlderMessagesRequest { base: self.session.base.clone(), token, conversation_id: cid, before_seq })
    }
}

} // verus!
