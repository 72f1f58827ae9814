//! The dispatcher: every event that reaches the application state goes to its handler.
use std::collections::HashMap;
use vstd::prelude::*;
use crate::auth::{cancel_rel, confirm_rel, logged_app, logged_out_app, AuthHandler};
use crate::buffer::{mbuf, run, set_buf, without_run, BufferHandler};
use crate::cache::{cache_of, take_cache};
use crate::checks::{confirmations_expired_app, user_check_cleanup, user_check_result_rel};
use crate::external::{now_millis, now_secs};
use crate::conversations::{
    all_loaded_app, complete_fetched_app, confirmed_app, confirmed_text, deleted_conversation_app, initial_state_app,
    last_message_app, messages_received_rel, older_loaded_app, opened_app, realised_stubs, stub_created_app,
    stub_of, stub_ready_text, synced_text, upsert_conv_opt, ConversationHandler,
};
use crate::convlist::{contains_conversation, has_conv};
use crate::helpers::{is_system_msg, move_conversation_to_top, push_system_app};
use crate::incoming::{conv_listed, conv_seq_app, deliver_all, deliver_all_app, incoming_rel, handle_incoming_message, WebSocketHandler};
use crate::messages::{confirmation_app, deleted_app, send_failed_app, MessageHandler};
use crate::model::{
    ConversationDto, ConversationFetch, ConversationSummary, ErrorType, MessageDto, Outgoing, Page,
    PaginatedConversationsResponse, ParticipantInfo, UiEvent,
};
use crate::notifications::{move_top_app, user_notification_rel, UserNotificationHandler};
use crate::resume::{messages_resume_app, user_events_resume_app};
use crate::sequence::{reset_app, user_resume_step, SequenceHandler};
use crate::state::{inc32, seq_or_zero, AppState, SequenceStats, Session, WsState};
use crate::ui::notice_rel;
use crate::view::{seq_map_view, AppView, BuffersModel, ChatModel, DataModel, PendingModel, SeqModel, StubsModel, UiModel};

verus! {

/// What the caller of the dispatcher must do outside the state.
pub enum DispatchAction {
    Nothing,
    /// Fetch the summary of conversation `conversation_id`, which a message arrived for.
    FetchSummary { base: String, token: Option<String>, conversation_id: u128 },
    /// Fetch a conversation with its members and messages.
    FetchComplete(ConversationFetch),
    /// Shut the WebSocket connection down.
    ShutdownConnection,
    /// Send this ping straight on the WebSocket.
    SendPing(Outgoing),
}

/// The text shown for an error.
pub open spec fn error_text(e: ErrorType) -> Seq<char> {
    match e {
        ErrorType::Connection => "Problema di connessione. Verifica la rete."@,
        ErrorType::MessageSend => "Impossibile inviare il messaggio. Riprova."@,
        ErrorType::MessageDelete => "Impossibile eliminare il messaggio. Riprova."@,
        ErrorType::ConversationDelete => "Impossibile eliminare la conversazione. Riprova."@,
        ErrorType::GroupLeave => "Impossibile uscire dal gruppo. Riprova."@,
        ErrorType::GroupCreate => "Impossibile creare il gruppo. Riprova."@,
        ErrorType::Invite => "Impossibile inviare l'invito. Riprova."@,
        ErrorType::GroupRemoveMember => "Impossibile rimuovere il membro dal gruppo. Riprova."@,
        ErrorType::Auth(d) => d@,
        ErrorType::DataRecovery => "Errore durante il recupero dati. Riprova."@,
        ErrorType::Generic(m) => m@,
    }
}

/// The text shown for an error.
pub fn error_message(e: ErrorType) -> (r: String)
    ensures
        r@ == error_text(e),
{
    match e {
        ErrorType::Connection => String::from_str("Problema di connessione. Verifica la rete."),
        ErrorType::MessageSend => String::from_str("Impossibile inviare il messaggio. Riprova."),
        ErrorType::MessageDelete => String::from_str("Impossibile eliminare il messaggio. Riprova."),
        ErrorType::ConversationDelete => String::from_str("Impossibile eliminare la conversazione. Riprova."),
        ErrorType::GroupLeave => String::from_str("Impossibile uscire dal gruppo. Riprova."),
        ErrorType::GroupCreate => String::from_str("Impossibile creare il gruppo. Riprova."),
        ErrorType::Invite => String::from_str("Impossibile inviare l'invito. Riprova."),
        ErrorType::GroupRemoveMember => String::from_str("Impossibile rimuovere il membro dal gruppo. Riprova."),
        ErrorType::Auth(d) => d,
        ErrorType::DataRecovery => String::from_str("Errore durante il recupero dati. Riprova."),
        ErrorType::Generic(m) => m,
    }
}


/// The caches after the last message of each conversation of `sums` that has one is
/// appended to its cache, in order.
pub open spec fn append_lasts(cache: Map<u128, Seq<MessageDto>>, sums: Seq<ConversationSummary>) -> Map<u128, Seq<MessageDto>>
    decreases sums.len(),
{
    if sums.len() == 0 {
        cache
    } else {
        let c = append_lasts(cache, sums.drop_last());
        match sums.last().last_message {
            Some(m) => c.insert(sums.last().conversation.id, cache_of(c, sums.last().conversation.id).push(m)),
            None => c,
        }
    }
}

/// The conversations of the summaries `sums`, in order.
pub open spec fn summary_convs(sums: Seq<ConversationSummary>) -> Seq<ConversationDto> {
    sums.map_values(|x: ConversationSummary| x.conversation)
}

/// The state after a page of the conversation list was appended.
pub open spec fn appended_app(a: AppView, r: PaginatedConversationsResponse) -> AppView {
    let convs = summary_convs(r.conversations@);
    AppView {
        data: DataModel {
            conversation_messages: append_lasts(a.data.conversation_messages, r.conversations@),
            conversations: Some(match a.data.conversations {
                Some(e) => e + convs,
                None => convs,
            }),
            has_more_conversations: r.has_more,
            next_cursor: r.next_cursor,
            is_loading_more_conversations: false,
            ..a.data
        },
        ..a
    }
}

/// The state after the summary of a conversation a message arrived for was fetched: it
/// is no longer fetched, its sequence is recorded, its last message cached, it goes to
/// the top of the list unless listed, and the messages buffered for it that now come in
/// order are taken out of the buffer and delivered: recorded, cached and displayed.
pub open spec fn summary_fetched_app(a: AppView, s: ConversationSummary) -> AppView {
    let id = s.conversation.id;
    let a4 = summary_listed_app(a, s);
    let b = mbuf(a4.buffers.messages, id);
    let start = seq_or_zero(a4.seq.conversation_sequences_confirmed, id) + 1;
    let a5 = AppView { buffers: BuffersModel { messages: set_buf(a4.buffers.messages, id, without_run(b, start)), ..a4.buffers }, ..a4 };
    deliver_all_app(a5, id, run(b, start))
}

/// The state after the summary `s` is recorded and its conversation listed, before the
/// buffered messages are delivered.
pub open spec fn summary_listed_app(a: AppView, s: ConversationSummary) -> AppView {
    let c = s.conversation;
    let id = c.id;
    let a1 = AppView { data: DataModel { fetching_conversations: a.data.fetching_conversations.remove(id), ..a.data }, ..a };
    let a2 = if c.last_msg_seq > 0 { conv_seq_app(a1, id, c.last_msg_seq as u64) } else { a1 };
    let a3 = match s.last_message {
        Some(m) => AppView {
            data: DataModel {
                conversation_messages: a2.data.conversation_messages.insert(id, cache_of(a2.data.conversation_messages, id).push(m)),
                ..a2.data
            },
            ..a2
        },
        None => a2,
    };
    let a4 = AppView {
        data: DataModel {
            conversations: match a3.data.conversations {
                Some(l) => Some(if has_conv(l, id) { l } else { l.insert(0, c) }),
                None => Some(seq![c]),
            },
            ..a3.data
        },
        ..a3
    };
    a4
}

/// The member lists after those of `list` are stored, in order.
pub open spec fn insert_members(m: Map<u128, Seq<ParticipantInfo>>, list: Seq<(u128, Vec<ParticipantInfo>)>) -> Map<u128, Seq<ParticipantInfo>>
    decreases list.len(),
{
    if list.len() == 0 {
        m
    } else {
        insert_members(m, list.drop_last()).insert(list.last().0, list.last().1@)
    }
}

/// The state with the member lists of `members`, when given, stored.
pub open spec fn with_members_app(a: AppView, members: Option<Vec<(u128, Vec<ParticipantInfo>)>>) -> AppView {
    match members {
        Some(l) => AppView { data: DataModel { members_list: insert_members(a.data.members_list, l@), ..a.data }, ..a },
        None => a,
    }
}

/// Whether a fetch of conversation `cid`, which a message arrived for, is started: it is
/// neither listed nor already being fetched.
pub open spec fn fetch_needed(a: AppView, cid: u128) -> bool {
    !conv_listed(a, cid) && !a.data.fetching_conversations.contains(cid)
}

/// The state with conversation `cid` marked as being fetched, when a fetch is needed.
pub open spec fn fetch_mark_app(a: AppView, cid: u128) -> AppView {
    if fetch_needed(a, cid) {
        AppView { data: DataModel { fetching_conversations: a.data.fetching_conversations.insert(cid), ..a.data }, ..a }
    } else {
        a
    }
}

/// `b` and `act` are what the dispatcher makes of event `event` in state `a`.
pub open spec fn dispatch_rel(a: AppView, b: AppView, event: UiEvent, act: DispatchAction) -> bool {
    match event {
        UiEvent::LoggedOut => {
            &&& act == (if a.ws.has_ws_control { DispatchAction::ShutdownConnection } else { DispatchAction::Nothing })
            &&& exists|now: i64| now >= 0 && b == #[trigger] logged_out_app(a, now)
        },
        UiEvent::WsIncoming(msg) => {
            let cid = msg.conversation_id;
            &&& act == (if fetch_needed(a, cid) {
                DispatchAction::FetchSummary { base: a.session.base, token: a.session.token, conversation_id: cid }
            } else {
                DispatchAction::Nothing
            })
            &&& exists|mid: AppView| #[trigger] incoming_rel(fetch_mark_app(a, cid), mid, msg) && b == move_top_app(mid, cid)
        },
        UiEvent::TriggerConversationFetch(cid, reason) => {
            &&& b == a
            &&& act == (match a.session.token {
                Some(token) => DispatchAction::FetchComplete(ConversationFetch { base: a.session.base, token, conversation_id: cid }),
                None => DispatchAction::Nothing,
            })
        },
        UiEvent::SendPing => {
            &&& b == (AppView {
                seq: SeqModel { stats: SequenceStats { ping_count: inc32(a.seq.stats.ping_count), ..a.seq.stats }, ..a.seq },
                ..a
            })
            &&& act == (if a.ws.has_ws_control {
                DispatchAction::SendPing(Outgoing::Ping { user_sequence: Some(a.seq.user_sequence_confirmed) })
            } else {
                DispatchAction::Nothing
            })
        },
        _ => act == DispatchAction::Nothing && state_dispatch_rel(a, b, event),
    }
}

/// The group of an event: 0 for those that need something done outside the state, then
/// the account, the streams, one conversation, and the conversation list.
pub open spec fn event_group(e: UiEvent) -> int {
    match e {
        UiEvent::LoggedOut | UiEvent::WsIncoming(_) | UiEvent::TriggerConversationFetch(..) | UiEvent::SendPing => 0,
        UiEvent::LoginStarted | UiEvent::RegisterStarted | UiEvent::Logged(..) | UiEvent::DeleteAccountStart | UiEvent::DeleteAccountCancel | UiEvent::DeleteAccountConfirm | UiEvent::Info(..) | UiEvent::Error(..) | UiEvent::InviteCreated(..) | UiEvent::UserCheckResult { .. } | UiEvent::MessageSendFailed(..) | UiEvent::MessageConfirmation { .. } | UiEvent::MessageDeleted { .. } => 1,
        UiEvent::WsControlReady | UiEvent::WsConnected | UiEvent::WsDisconnected | UiEvent::WsError(..) | UiEvent::PongReceived { .. } | UiEvent::UserEventsResume { .. } | UiEvent::MessagesResume { .. } | UiEvent::UserNotification { .. } | UiEvent::InitialStateReceived { .. } | UiEvent::LastMessageUpdate { .. } => 2,
        UiEvent::ConversationMessagesReceived { .. } | UiEvent::ConversationConfirmed { .. } | UiEvent::OlderMessagesLoaded(..) | UiEvent::LoadingError | UiEvent::Opened(..) | UiEvent::Closed(..) | UiEvent::ConversationDeleted(..) | UiEvent::ConversationCreated(..) | UiEvent::DmStubCreated(..) => 3,
        _ => 4,
    }
}

/// `b` is what the dispatcher makes of event `event` in state `a`, for the events that
/// need nothing done outside the state.
pub open spec fn state_dispatch_rel(a: AppView, b: AppView, event: UiEvent) -> bool {
    if event_group(event) == 1 {
        account_dispatch_rel(a, b, event)
    } else if event_group(event) == 2 {
        stream_dispatch_rel(a, b, event)
    } else if event_group(event) == 3 {
        conversation_dispatch_rel(a, b, event)
    } else {
        list_dispatch_rel(a, b, event)
    }
}

/// `b` is what the dispatcher makes of an event about the account, notices and message outcomes in state `a`.
pub open spec fn account_dispatch_rel(a: AppView, b: AppView, event: UiEvent) -> bool {
    match event {
        UiEvent::LoginStarted => b == (AppView {
            session: Session { login_state: crate::model::LoginState::LoggingIn, ..a.session },
            ..a
        }),
        UiEvent::RegisterStarted => b == (AppView {
            session: Session { login_state: crate::model::LoginState::Registering, ..a.session },
            ..a
        }),
        UiEvent::Logged(token, user_id, last) => exists|sid: u128| b == #[trigger] logged_app(a, token, user_id, last, sid),
        UiEvent::DeleteAccountStart => b == (AppView { ui: UiModel { confirm_delete_account: true, ..a.ui }, ..a }),
        UiEvent::DeleteAccountCancel => cancel_rel(a, b),
        UiEvent::DeleteAccountConfirm => confirm_rel(a, b),
        UiEvent::MessageSendFailed(id) => b == send_failed_app(a, id),
        UiEvent::MessageConfirmation { client_msg_id, server_msg_id, sequence, status } =>
            b == confirmation_app(a, client_msg_id@, server_msg_id, sequence),
        UiEvent::MessageDeleted { message_id, conversation_id } => b == deleted_app(a, message_id, conversation_id),
        UiEvent::UserCheckResult { username, exists, user_id, request_id } =>
            user_check_result_rel(a, b, username, exists, request_id),
        UiEvent::Info(msg) => notice_rel(a, b, msg, false),
        UiEvent::Error(e) => exists|msg: String| msg@ == error_text(e) && #[trigger] notice_rel(a, b, msg, true),
        UiEvent::InviteCreated(token) => b == (AppView { ui: UiModel { last_created_invite: Some(token), ..a.ui }, ..a }),
        _ => true,
    }
}

/// `b` is what the dispatcher makes of an event about the connection and the event streams in state `a`.
pub open spec fn stream_dispatch_rel(a: AppView, b: AppView, event: UiEvent) -> bool {
    match event {
        UiEvent::WsControlReady => b == (AppView { ws: WsState { has_ws_control: true, ..a.ws }, ..a }),
        UiEvent::WsConnected => b == reset_app(AppView { ws: WsState { ws_status: crate::model::WsStatus::Connected, ..a.ws }, ..a }),
        UiEvent::WsDisconnected => b == reset_app(AppView { ws: WsState { ws_status: crate::model::WsStatus::Disconnected, ..a.ws }, ..a }),
        UiEvent::WsError(_) => b == a,
        UiEvent::PongReceived { current_user_sequence, gaps_detected, user_events_gap } => {
            let m1 = SeqModel {
                stats: SequenceStats { pong_count: inc32(a.seq.stats.pong_count), ..a.seq.stats },
                missed_pings: 0,
                ..a.seq
            };
            &&& b == (AppView { seq: b.seq, outgoing: b.outgoing, ..a })
            &&& match user_events_gap {
                Some(g) if g.detected => {
                    let m2 = SeqModel { stats: SequenceStats { gaps_detected: inc32(m1.stats.gaps_detected), ..m1.stats }, ..m1 };
                    (b.seq, b.outgoing) == user_resume_step(m2, a.outgoing, g.client_seq)
                },
                _ => b.seq == m1 && b.outgoing == a.outgoing,
            }
        },
        UiEvent::UserEventsResume { events } => b == user_events_resume_app(a, events@),
        UiEvent::MessagesResume { conversation_id, messages } => b == messages_resume_app(a, conversation_id, messages@),
        UiEvent::InitialStateReceived { conversations, user_sequence, members_by_conversation } => exists|sys: MessageDto|
            is_system_msg(sys, synced_text(conversations@.len()), 0)
                && b == #[trigger] with_members_app(initial_state_app(a, conversations@, user_sequence, sys), members_by_conversation),
        UiEvent::LastMessageUpdate { conversation_id, message } => b == last_message_app(a, conversation_id, message),
        UiEvent::UserNotification { sequence, event_type, event_data, conversation_id, recovery } =>
            user_notification_rel(a, b, sequence, event_type@, event_data, conversation_id, recovery),
        _ => true,
    }
}

/// `b` is what the dispatcher makes of an event about one conversation in state `a`.
pub open spec fn conversation_dispatch_rel(a: AppView, b: AppView, event: UiEvent) -> bool {
    match event {
        UiEvent::ConversationMessagesReceived { conversation_id, messages, has_more } =>
            messages_received_rel(a, b, conversation_id, messages@, has_more),
        UiEvent::ConversationConfirmed { conversation, messages, client_temp_id } => exists|sys: MessageDto|
            is_system_msg(sys, confirmed_text(conversation.title@), 0)
                && b == #[trigger] push_system_app(confirmed_app(a, conversation, messages@, stub_of(client_temp_id)), sys),
        UiEvent::OlderMessagesLoaded(msgs) => b == older_loaded_app(a, msgs@),
        UiEvent::LoadingError => b == (AppView { view: ChatModel { is_loading_more: false, ..a.view }, ..a }),
        UiEvent::Opened(cid) => b == opened_app(a, cid),
        UiEvent::Closed(cid) => b == (if a.view.cid == Some(cid) {
            AppView { view: ChatModel { cid: None, page: Page::Conversations, messages: Seq::empty(), ..a.view }, ..a }
        } else {
            a
        }),
        UiEvent::ConversationDeleted(cid) => b == deleted_conversation_app(a, cid),
        UiEvent::ConversationCreated(cid) => b == (AppView {
            view: ChatModel { cid: Some(cid), page: Page::Chat, messages: Seq::empty(), ..a.view },
            data: DataModel { request_conversations_refresh: true, ..a.data },
            ..a
        }),
        UiEvent::DmStubCreated(stub_id, target) => exists|t: i64, sys: MessageDto|
            is_system_msg(sys, stub_ready_text(target@), 0) && b == #[trigger] stub_created_app(a, stub_id, target, t, sys),
        _ => true,
    }
}

/// `b` is what the dispatcher makes of an event about the conversation list and its loading in state `a`.
pub open spec fn list_dispatch_rel(a: AppView, b: AppView, event: UiEvent) -> bool {
    match event {
        UiEvent::ConversationsLoaded(convs) => b == (AppView {
            stubs: StubsModel { dm_stubs: a.stubs.dm_stubs.remove_keys(realised_stubs(a.stubs.dm_stubs, convs@)), ..a.stubs },
            data: DataModel { conversations: Some(convs@), ..a.data },
            ..a
        }),
        UiEvent::ConversationsAppended(r) => b == appended_app(a, r),
        UiEvent::ConversationSummaryFetched(s) => b == summary_fetched_app(a, s),
        UiEvent::ConversationFetchFailed(cid) => b == (AppView {
            data: DataModel { fetching_conversations: a.data.fetching_conversations.remove(cid), ..a.data },
            ..a
        }),
        UiEvent::AllMessagesLoaded(all) => b == all_loaded_app(a, seq_map_view(all@)),
        UiEvent::RefreshedMsgs(messages) => b == (match a.view.cid {
            Some(cid) => {
                let a1 = AppView {
                    view: ChatModel { messages: messages@, ..a.view },
                    data: DataModel { conversation_messages: a.data.conversation_messages.insert(cid, messages@), ..a.data },
                    ..a
                };
                match crate::resume::max_seq(messages@) {
                    Some(m) => conv_seq_app(a1, cid, m),
                    None => a1,
                }
            },
            None => AppView { view: ChatModel { messages: messages@, ..a.view }, ..a },
        }),
        UiEvent::SingleConversationLoaded(c) => b == (AppView {
            data: DataModel { conversations: upsert_conv_opt(a.data.conversations, c), ..a.data },
            ..a
        }),
        UiEvent::InitialLoadComplete => b == (AppView {
            data: DataModel { is_initial_load_complete: true, is_loading: false, ..a.data },
            ..a
        }),
        UiEvent::LoadingProgress(_) => b == a,
        UiEvent::MembersLoaded(cid, members) => b == (AppView {
            data: DataModel {
                members_list: a.data.members_list.insert(cid, members@),
                is_loading_members: false,
                ..a.data
            },
            ..a
        }),
        UiEvent::ConversationCompleteFetched(c, msgs) => b == complete_fetched_app(a, c, msgs@),
        UiEvent::ConversationListUpdated => b == (AppView {
            data: DataModel { request_conversations_refresh: true, ..a.data },
            ..a
        }),
        _ => true,
    }
}


/// Marks conversation `cid` as being fetched when a fetch is needed; says whether it is.
fn mark_fetch(state: &mut AppState, cid: u128) -> (needed: bool)
    ensures
        needed == fetch_needed(old(state)@, cid),
        final(state)@ == fetch_mark_app(old(state)@, cid),
{
    let listed = match &state.data.conversations {
        Some(l) => contains_conversation(l, cid),
        None => false,
    };
    if !listed && !state.data.fetching_conversations.contains(&cid) {
        state.data.fetching_conversations.insert(cid);
        true
    } else {
        false
    }
}

/// Appends a page of the conversation list.
fn append_page(state: &mut AppState, r: PaginatedConversationsResponse)
    ensures
        final(state)@ == appended_app(old(state)@, r),
{
    let ghost sums = r.conversations@;
    let mut convs: Vec<ConversationDto> = Vec::new();
    let mut i: usize = 0;
    while i < r.conversations.len()
        invariant
            i <= r.conversations.len(),
            sums == r.conversations@,
            convs@ == summary_convs(sums.take(i as int)),
            state@.data.conversation_messages == append_lasts(old(state)@.data.conversation_messages, sums.take(i as int)),
            state@ == (AppView {
                data: DataModel { conversation_messages: state@.data.conversation_messages, ..old(state)@.data },
                ..old(state)@
            }),
        decreases r.conversations.len() - i,
    {
        proof {
            assert(sums.take(i + 1).drop_last() =~= sums.take(i as int));
            assert(sums.take(i + 1).last() == sums[i as int]);
        }
        let id = r.conversations[i].conversation.id;
        convs.push(r.conversations[i].conversation.duplicate());
        proof {
            assert(convs@ =~= summary_convs(sums.take(i + 1)));
        }
        if let Some(m) = &r.conversations[i].last_message {
            let ghost before = state@.data.conversation_messages;
            let mut cache = take_cache(&mut state.data.conversation_messages, id);
            cache.push(m.duplicate());
            state.data.conversation_messages.insert(id, cache);
            proof {
                assert(state@.data.conversation_messages =~= before.insert(id, cache_of(before, id).push(*m)));
            }
        }
        i = i + 1;
    }
    proof {
        assert(sums.take(r.conversations.len() as int) =~= sums);
    }
    match state.data.conversations.take() {
        Some(mut e) => {
            e.append(&mut convs);
            state.data.conversations = Some(e);
        },
        None => {
            state.data.conversations = Some(convs);
        },
    }
    state.data.has_more_conversations = r.has_more;
    state.data.next_cursor = r.next_cursor;
    state.data.is_loading_more_conversations = false;
}

/// The state after the summary of conversation `c` with last message `last` is noted:
/// no longer fetched, its sequence recorded, its last message cached.
pub open spec fn summary_noted_app(a: AppView, c: ConversationDto, last: Option<MessageDto>) -> AppView {
    let id = c.id;
    let a1 = AppView { data: DataModel { fetching_conversations: a.data.fetching_conversations.remove(id), ..a.data }, ..a };
    let a2 = if c.last_msg_seq > 0 { conv_seq_app(a1, id, c.last_msg_seq as u64) } else { a1 };
    match last {
        Some(m) => AppView {
            data: DataModel {
                conversation_messages: a2.data.conversation_messages.insert(id, cache_of(a2.data.conversation_messages, id).push(m)),
                ..a2.data
            },
            ..a2
        },
        None => a2,
    }
}

fn note_summary(state: &mut AppState, c: &ConversationDto, last: Option<MessageDto>)
    ensures
        final(state)@ == summary_noted_app(old(state)@, *c, last),
{
    let id = c.id;
    state.data.fetching_conversations.remove(&id);
    if c.last_msg_seq > 0 {
        SequenceHandler::update_conversation_sequence(state, id, c.last_msg_seq as u64);
    }
    if let Some(m) = last {
        let ghost before = state@.data.conversation_messages;
        let ghost gm = m;
        let mut cache = take_cache(&mut state.data.conversation_messages, id);
        cache.push(m);
        state.data.conversation_messages.insert(id, cache);
        proof {
            assert(state@.data.conversation_messages =~= before.insert(id, cache_of(before, id).push(gm)));
        }
    }
}

fn list_summary_conv(state: &mut AppState, c: ConversationDto)
    ensures
        final(state)@ == (AppView {
            data: DataModel {
                conversations: match old(state)@.data.conversations {
                    Some(l) => Some(if has_conv(l, c.id) { l } else { l.insert(0, c) }),
                    None => Some(seq![c]),
                },
                ..old(state)@.data
            },
            ..old(state)@
        }),
{
    match state.data.conversations.take() {
        Some(mut l) => {
            if !contains_conversation(&l, c.id) {
                l.insert(0, c);
            }
            state.data.conversations = Some(l);
        },
        None => {
            let mut v = Vec::new();
            v.push(c);
            state.data.conversations = Some(v);
        },
    }
}

/// Takes in the summary of a conversation a message arrived for.
fn take_summary(state: &mut AppState, s: ConversationSummary)
    ensures
        final(state)@ == summary_fetched_app(old(state)@, s),
{
    let id = s.conversation.id;
    list_summary(state, s);
    let delivered = BufferHandler::try_deliver_buffered_messages(state, id);
    deliver_all(state, id, delivered);
}

/// Records the summary `s` and lists its conversation.
fn list_summary(state: &mut AppState, s: ConversationSummary)
    ensures
        final(state)@ == summary_listed_app(old(state)@, s),
{
    note_summary(state, &s.conversation, s.last_message);
    list_summary_conv(state, s.conversation);
}

/// Stores the member lists of `list`, in order.
fn store_members(state: &mut AppState, list: Vec<(u128, Vec<ParticipantInfo>)>)
    ensures
        final(state)@ == (AppView {
            data: DataModel { members_list: insert_members(old(state)@.data.members_list, list@), ..old(state)@.data },
            ..old(state)@
        }),
{
    let ghost l = list@;
    let mut rest = list;
    let ghost mut k: int = 0;
    while rest.len() > 0
        invariant
            0 <= k <= l.len(),
            rest@ == l.skip(k),
            state@ == (AppView {
                data: DataModel { members_list: insert_members(old(state)@.data.members_list, l.take(k)), ..old(state)@.data },
                ..old(state)@
            }),
        decreases rest.len(),
    {
        let entry = rest.remove(0);
        proof {
            assert(entry == l[k]);
            assert(l.take(k + 1).drop_last() =~= l.take(k));
            assert(l.take(k + 1).last() == l[k]);
        }
        let ghost before = state@.data.members_list;
        let ghost ge = entry;
        state.data.members_list.insert(entry.0, entry.1);
        proof {
            assert(state@.data.members_list =~= before.insert(ge.0, ge.1@));
            k = k + 1;
            assert(rest@ =~= l.skip(k));
        }
    }
    proof {
        assert(l.take(k) =~= l);
    }
}

/// Dispatching of events to their handlers.
pub struct EventDispatcher;

fn dispatch_account(state: &mut AppState, event: UiEvent)
    requires
        event_group(event) == 1,
    ensures
        account_dispatch_rel(old(state)@, final(state)@, event),
{
    match event {
        UiEvent::LoginStarted => {
            AuthHandler::handle_login_started(state);
        },
        UiEvent::RegisterStarted => {
            AuthHandler::handle_register_started(state);
        },
        UiEvent::Logged(token, user_id, last_sequence) => {
            AuthHandler::handle_logged(state, token, user_id, last_sequence);
        },
        UiEvent::DeleteAccountStart => {
            AuthHandler::handle_delete_account_start(state);
        },
        UiEvent::DeleteAccountCancel => {
            AuthHandler::handle_delete_account_cancel(state);
        },
        UiEvent::DeleteAccountConfirm => {
            AuthHandler::handle_delete_account_confirm(state);
        },
        UiEvent::MessageSendFailed(msg_id) => {
            MessageHandler::handle_message_send_failed(state, msg_id);
        },
        UiEvent::MessageConfirmation { client_msg_id, server_msg_id, sequence, status } => {
            MessageHandler::handle_message_confirmation(state, client_msg_id, server_msg_id, sequence, status);
        },
        UiEvent::MessageDeleted { message_id, conversation_id } => {
            MessageHandler::handle_message_deleted(state, message_id, conversation_id);
        },
        UiEvent::UserCheckResult { username, exists, user_id, request_id } => {
            state.handle_user_check_result(username, exists, user_id, request_id);
        },
        UiEvent::Info(msg) => {
            state.set_message_info(msg);
        },
        UiEvent::Error(error_type) => {
            let msg = error_message(error_type);
            let ghost gm = msg;
            state.set_message_error(msg);
            assert(notice_rel(old(state)@, state@, gm, true));
        },
        UiEvent::InviteCreated(token) => {
            state.ui.last_created_invite = Some(token);
        },
        _ => {},
    }
}

fn dispatch_stream(state: &mut AppState, event: UiEvent)
    requires
        event_group(event) == 2,
    ensures
        stream_dispatch_rel(old(state)@, final(state)@, event),
{
    match event {
        UiEvent::WsControlReady => {
            WebSocketHandler::handle(state, UiEvent::WsControlReady);
        },
        UiEvent::WsConnected => {
            WebSocketHandler::handle(state, UiEvent::WsConnected);
        },
        UiEvent::WsDisconnected => {
            WebSocketHandler::handle(state, UiEvent::WsDisconnected);
        },
        UiEvent::WsError(e) => {
            WebSocketHandler::handle(state, UiEvent::WsError(e));
        },
        UiEvent::PongReceived { current_user_sequence, gaps_detected, user_events_gap } => {
            SequenceHandler::handle_pong(state, current_user_sequence, gaps_detected, user_events_gap);
        },
        UiEvent::UserEventsResume { events } => {
            SequenceHandler::handle_user_events_resume(state, events);
        },
        UiEvent::MessagesResume { conversation_id, messages } => {
            SequenceHandler::handle_messages_resume(state, conversation_id, messages);
        },
        UiEvent::InitialStateReceived { conversations, user_sequence, members_by_conversation } => {
            let ghost convs = conversations@;
            ConversationHandler::handle_initial_state_received(state, conversations, user_sequence);
            let ghost mid = state@;
            let ghost members = members_by_conversation;
            if let Some(list) = members_by_conversation {
                store_members(state, list);
            }
            assert(state@ == with_members_app(mid, members));
        },
        UiEvent::LastMessageUpdate { conversation_id, message } => {
            ConversationHandler::handle_last_message_update(state, conversation_id, message);
        },
        UiEvent::UserNotification { sequence, event_type, event_data, conversation_id, recovery } => {
            UserNotificationHandler::handle_user_notification(state, sequence, event_type, event_data, conversation_id, recovery);
        },
        _ => {},
    }
}

fn dispatch_conversation(state: &mut AppState, event: UiEvent)
    requires
        event_group(event) == 3,
    ensures
        conversation_dispatch_rel(old(state)@, final(state)@, event),
{
    match event {
        UiEvent::ConversationMessagesReceived { conversation_id, messages, has_more } => {
            ConversationHandler::handle_conversation_messages_received(state, conversation_id, messages, has_more);
        },
        UiEvent::ConversationConfirmed { conversation, messages, client_temp_id } => {
            ConversationHandler::handle_conversation_confirmed(state, conversation, messages, client_temp_id);
        },
        UiEvent::OlderMessagesLoaded(new_messages) => {
            ConversationHandler::handle_older_messages_loaded(state, new_messages);
        },
        UiEvent::LoadingError => {
            ConversationHandler::handle_loading_error(state);
        },
        UiEvent::Opened(cid) => {
            ConversationHandler::handle_opened(state, cid);
        },
        UiEvent::Closed(cid) => {
            ConversationHandler::handle_closed(state, cid);
        },
        UiEvent::ConversationDeleted(cid) => {
            ConversationHandler::handle_conversation_deleted(state, cid);
        },
        UiEvent::ConversationCreated(cid) => {
            ConversationHandler::handle_conversation_created(state, cid);
        },
        UiEvent::DmStubCreated(stub_id, target_username) => {
            ConversationHandler::handle_dm_stub_created(state, stub_id, target_username);
        },
        _ => {},
    }
}

fn dispatch_list(state: &mut AppState, event: UiEvent)
    requires
        event_group(event) == 4,
    ensures
        list_dispatch_rel(old(state)@, final(state)@, event),
{
    match event {
        UiEvent::ConversationsLoaded(conversations) => {
            ConversationHandler::handle_conversations_loaded(state, conversations);
        },
        UiEvent::ConversationsAppended(response) => {
            append_page(state, response);
        },
        UiEvent::ConversationSummaryFetched(summary) => {
            take_summary(state, summary);
        },
        UiEvent::ConversationFetchFailed(cid) => {
            state.data.fetching_conversations.remove(&cid);
        },
        UiEvent::AllMessagesLoaded(all_messages) => {
            ConversationHandler::handle_all_messages_loaded(state, all_messages);
        },
        UiEvent::RefreshedMsgs(messages) => {
            ConversationHandler::handle_refreshed_msgs(state, messages);
        },
        UiEvent::SingleConversationLoaded(conv) => {
            ConversationHandler::handle_single_conversation_loaded(state, conv);
        },
        UiEvent::InitialLoadComplete => {
            ConversationHandler::handle_initial_load_complete(state);
        },
        UiEvent::LoadingProgress(msg) => {
            ConversationHandler::handle_loading_progress(msg);
        },
        UiEvent::MembersLoaded(conversation_id, members) => {
            ConversationHandler::handle_members_loaded(state, conversation_id, members);
        },
        UiEvent::ConversationCompleteFetched(conv, messages) => {
            ConversationHandler::handle_conversation_complete_fetched(state, conv, messages);
        },
        UiEvent::ConversationListUpdated => {
            ConversationHandler::handle_conversation_list_updated(state);
        },
        _ => {},
    }
}

impl EventDispatcher {
    /// Hands `event` to its handler; returns what must be done outside the state.
    pub fn handle_event(state: &mut AppState, event: UiEvent) -> (act: DispatchAction)
        ensures
            dispatch_rel(old(state)@, final(state)@, event, act),
    {
        match event {
            UiEvent::LoggedOut => {
                if AuthHandler::handle_logged_out(state) {
                    DispatchAction::ShutdownConnection
                } else {
                    DispatchAction::Nothing
                }
            },
            UiEvent::WsIncoming(msg) => {
                let cid = msg.conversation_id;
                let needed = mark_fetch(state, cid);
                let act = if needed {
                    DispatchAction::FetchSummary {
                        base: state.session.base.clone(),
                        token: crate::model::clone_opt_string(&state.session.token),
                        conversation_id: cid,
                    }
                } else {
                    DispatchAction::Nothing
                };
                let ghost a1 = state@;
                handle_incoming_message(state, msg);
                let ghost mid = state@;
                move_conversation_to_top(state, cid);
                assert(incoming_rel(fetch_mark_app(old(state)@, cid), mid, msg));
                act
            },
            UiEvent::TriggerConversationFetch(cid, reason) => {
                match ConversationHandler::handle_trigger_conversation_fetch(state, cid, reason) {
                    Some(f) => DispatchAction::FetchComplete(f),
                    None => DispatchAction::Nothing,
                }
            },
            UiEvent::SendPing => {
                match SequenceHandler::send_ping(state) {
                    Some(p) => DispatchAction::SendPing(p),
                    None => DispatchAction::Nothing,
                }
            },
            _ => {
                let g = group_of(&event);
                if g == 1 {
                    dispatch_account(state, event);
                } else if g == 2 {
                    dispatch_stream(state, event);
                } else if g == 3 {
                    dispatch_conversation(state, event);
                } else {
                    dispatch_list(state, event);
                }
                DispatchAction::Nothing
            },
        }
    }
}

/// The group of an event.
fn group_of(e: &UiEvent) -> (g: u8)
    ensures
        g == event_group(*e),
{
    match e {
        UiEvent::LoggedOut | UiEvent::WsIncoming(_) | UiEvent::TriggerConversationFetch(..) | UiEvent::SendPing => 0,
        UiEvent::LoginStarted | UiEvent::RegisterStarted | UiEvent::Logged(..) | UiEvent::DeleteAccountStart | UiEvent::DeleteAccountCancel | UiEvent::DeleteAccountConfirm | UiEvent::Info(..) | UiEvent::Error(..) | UiEvent::InviteCreated(..) | UiEvent::UserCheckResult { .. } | UiEvent::MessageSendFailed(..) | UiEvent::MessageConfirmation { .. } | UiEvent::MessageDeleted { .. } => 1,
        UiEvent::WsControlReady | UiEvent::WsConnected | UiEvent::WsDisconnected | UiEvent::WsError(..) | UiEvent::PongReceived { .. } | UiEvent::UserEventsResume { .. } | UiEvent::MessagesResume { .. } | UiEvent::UserNotification { .. } | UiEvent::InitialStateReceived { .. } | UiEvent::LastMessageUpdate { .. } => 2,
        UiEvent::ConversationMessagesReceived { .. } | UiEvent::ConversationConfirmed { .. } | UiEvent::OlderMessagesLoaded(..) | UiEvent::LoadingError | UiEvent::Opened(..) | UiEvent::Closed(..) | UiEvent::ConversationDeleted(..) | UiEvent::ConversationCreated(..) | UiEvent::DmStubCreated(..) => 3,
        _ => 4,
    }
}

/// How often, in milliseconds, the requests waiting too long are given up.
pub const CLEANUP_INTERVAL_MS: i64 = 5000;

/// `states` goes through the dispatching of each event of `evs`, in order, with the
/// actions `acts`.
pub open spec fn drain_trace(states: Seq<AppView>, evs: Seq<UiEvent>, acts: Seq<DispatchAction>) -> bool {
    &&& states.len() == evs.len() + 1
    &&& acts.len() == evs.len()
    &&& forall|i: int| 0 <= i < evs.len() ==> #[trigger] dispatch_rel(states[i], states[i + 1], evs[i], acts[i])
}

/// `b` is `a` after the periodic clean-up at `now_ms` (milliseconds) and `now_s` (seconds):
/// when the last one is more than `CLEANUP_INTERVAL_MS` old, the confirmations and the
/// user check that waited too long are given up.
pub open spec fn periodic_cleanup(a: AppView, b: AppView, now_ms: i64, now_s: i64) -> bool {
    if now_ms - a.pending.last_confirmation_cleanup > CLEANUP_INTERVAL_MS {
        exists|mid: AppView|
            #[trigger] user_check_cleanup(confirmations_expired_app(a, now_s), mid, now_ms)
                && b == (AppView { pending: PendingModel { last_confirmation_cleanup: now_ms, ..mid.pending }, ..mid })
    } else {
        b == a
    }
}

/// `b` and `acts` are what draining the events of `a` gives: each queued event is
/// dispatched in order (events sent meanwhile stay queued), then the periodic clean-up.
pub open spec fn drain_rel(a: AppView, b: AppView, acts: Seq<DispatchAction>, now_ms: i64, now_s: i64) -> bool {
    exists|states: Seq<AppView>| {
        &&& #[trigger] drain_trace(states, a.ui_events, acts)
        &&& states[0] == (AppView { ui_events: Seq::empty(), ..a })
        &&& periodic_cleanup(states.last(), b, now_ms, now_s)
    }
}

impl AppState {
    /// Handles the events queued for the state at `now_ms` (milliseconds) and `now_s`
    /// (seconds) of wall-clock time, and returns what must be done outside the state.
    pub fn drain_events_at(&mut self, now_ms: i64, now_s: i64) -> (acts: Vec<DispatchAction>)
        ensures
            drain_rel(old(self)@, final(self)@, acts@, now_ms, now_s),
    {
        let events = crate::cache::take_vec(&mut self.ui_events);
        let ghost evs = events@;
        let mut acts: Vec<DispatchAction> = Vec::new();
        let mut rest = events;
        let ghost mut k: int = 0;
        let ghost mut states: Seq<AppView> = seq![self@];
        while rest.len() > 0
            invariant
                0 <= k <= evs.len(),
                rest@ == evs.skip(k),
                drain_trace(states, evs.take(k), acts@),
                states[0] == (AppView { ui_events: Seq::empty(), ..old(self)@ }),
                states.last() == self@,
            decreases rest.len(),
        {
            let ev = rest.remove(0);
            let ghost before = self@;
            proof {
                assert(ev == evs[k]);
            }
            let act = EventDispatcher::handle_event(self, ev);
            let ghost ga = act;
            acts.push(act);
            proof {
                let ns = states.push(self@);
                assert forall|i: int| 0 <= i < k + 1 implies #[trigger] dispatch_rel(ns[i], ns[i + 1], evs.take(k + 1)[i], acts@[i]) by {
                    if i < k {
                        assert(ns[i] == states[i]);
                        assert(ns[i + 1] == states[i + 1]);
                        assert(evs.take(k + 1)[i] == evs.take(k)[i]);
                    } else {
                        assert(ns[i] == before);
                    }
                }
                states = ns;
                k = k + 1;
                assert(rest@ =~= evs.skip(k));
            }
        }
        proof {
            assert(evs.take(k) =~= evs);
        }
        let ghost last = self@;
        if (now_ms as i128) - (self.pending.last_confirmation_cleanup as i128) > CLEANUP_INTERVAL_MS as i128 {
            self.cleanup_pending_confirmations_at(now_s);
            self.cleanup_pending_user_check_at(now_ms);
            let ghost mid = self@;
            self.pending.last_confirmation_cleanup = now_ms;
            assert(user_check_cleanup(confirmations_expired_app(last, now_s), mid, now_ms));
        }
        proof {
            assert(evs == old(self)@.ui_events);
            assert(drain_trace(states, old(self)@.ui_events, acts@));
            assert(periodic_cleanup(states.last(), self@, now_ms, now_s));
        }
        acts
    }

    /// Handles the events queued for the state, and returns what must be done outside it.
    pub fn drain_events(&mut self) -> (acts: Vec<DispatchAction>)
        ensures
            exists|now_ms: i64, now_s: i64| now_ms >= 0 && now_s >= 0 && #[trigger] drain_rel(old(self)@, final(self)@, acts@, now_ms, now_s),
    {
        let now_ms = now_millis();
        let now_s = now_secs();
        self.drain_events_at(now_ms, now_s)
    }
}

} // verus!
