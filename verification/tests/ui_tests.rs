use ruggine::auth::AuthHandler;
use ruggine::dispatcher::{error_message, DispatchAction, EventDispatcher};
use ruggine::model::{ConversationDto, ErrorType, LoginState, MessageDto, Outgoing, Page, UiEvent, WsStatus};
use ruggine::panels::ConversationsSidebar;
use ruggine::state::{AppState, ToastKind};

fn state() -> AppState {
    AppState::new("http://localhost:3000".to_string(), "alice".to_string(), "pw".to_string(), 0)
}

fn logged_in() -> AppState {
    let mut s = state();
    s.session.token = Some("tok".to_string());
    s.view.page = Page::Conversations;
    s
}

fn conv(id: u128, kind: &str, title: &str) -> ConversationDto {
    ConversationDto {
        id,
        kind: kind.to_string(),
        title: title.to_string(),
        owner_id: 1,
        created_at: 0,
        last_read_sequence: 0,
        last_activity: 0,
        last_msg_seq: 0,
    }
}

#[test]
fn at_most_five_toasts_newest_last() {
    let mut s = logged_in();
    for i in 0..7 {
        s.push_toast(ToastKind::Info, format!("t{}", i));
    }
    assert_eq!(s.ui.toasts.len(), 5);
    assert_eq!(s.ui.toasts[4].message, "t6");
    assert_eq!(s.ui.toasts[0].message, "t2");
}

#[test]
fn no_toast_while_logged_out() {
    let mut s = state();
    s.push_toast(ToastKind::Error, "x".to_string());
    assert!(s.ui.toasts.is_empty());
    s.set_message_error("bad".to_string());
    assert_eq!(s.ui.auth_message.as_deref(), Some("bad"));
    assert!(s.ui.auth_message_is_error);
}

#[test]
fn old_toasts_are_pruned() {
    let mut s = logged_in();
    s.push_toast(ToastKind::Info, "a".to_string());
    let created = s.ui.toasts[0].created;
    s.prune_toasts_at(created + 10, 5);
    assert!(s.ui.toasts.is_empty());
}

#[test]
fn error_texts() {
    assert_eq!(error_message(ErrorType::Connection), "Problema di connessione. Verifica la rete.");
    assert_eq!(error_message(ErrorType::Generic("boom".to_string())), "boom");
    assert_eq!(error_message(ErrorType::GroupCreate), "Impossibile creare il gruppo. Riprova.");
}

#[test]
fn error_event_becomes_a_toast_when_logged_in() {
    let mut s = logged_in();
    let act = EventDispatcher::handle_event(&mut s, UiEvent::Error(ErrorType::MessageSend));
    assert!(matches!(act, DispatchAction::Nothing));
    assert_eq!(s.ui.toasts.len(), 1);
    assert_eq!(s.ui.toasts[0].message, "Impossibile inviare il messaggio. Riprova.");
    assert_eq!(s.ui.toasts[0].kind, ToastKind::Error);
}

#[test]
fn message_for_an_unknown_conversation_asks_for_its_summary() {
    let mut s = logged_in();
    let m = MessageDto {
        id: 1,
        author_id: 9,
        conversation_id: 77,
        author_username: "bob".to_string(),
        content: "hi".to_string(),
        created_at: 1,
        sequence_num: Some(1),
        client_msg_id: None,
        is_confirmed: None,
    };
    let act = EventDispatcher::handle_event(&mut s, UiEvent::WsIncoming(m));
    match act {
        DispatchAction::FetchSummary { conversation_id, token, .. } => {
            assert_eq!(conversation_id, 77);
            assert_eq!(token.as_deref(), Some("tok"));
        }
        _ => panic!("expected a fetch"),
    }
    assert!(s.data.fetching_conversations.len() == 1 && s.data.fetching_conversations.contains(&77));
}

#[test]
fn logout_clears_the_session_and_asks_to_shut_the_connection() {
    let mut s = logged_in();
    s.ws.has_ws_control = true;
    s.ws.ws_status = WsStatus::Connected;
    s.data.conversations = Some(vec![conv(1, "dm", "bob")]);
    let act = EventDispatcher::handle_event(&mut s, UiEvent::LoggedOut);
    assert!(matches!(act, DispatchAction::ShutdownConnection));
    assert!(s.session.token.is_none());
    assert_eq!(s.session.login_state, LoginState::Idle);
    assert_eq!(s.session.username, "alice");
    assert!(s.data.conversations.is_none());
    assert_eq!(s.view.page, Page::Auth);
}

#[test]
fn login_sets_a_fresh_session() {
    let mut s = state();
    AuthHandler::handle_logged(&mut s, "tok".to_string(), 5, 40);
    assert_eq!(s.session.user_id, Some(5));
    assert_eq!(s.seq.user_sequence_confirmed, 40);
    assert!(s.session.current_session_id.is_some());
    assert!(s.ws.request_ws_reconnect);
    assert_eq!(s.view.page, Page::Conversations);
}

#[test]
fn account_deletion_needs_the_connection() {
    let mut s = logged_in();
    AuthHandler::handle_delete_account_confirm(&mut s);
    assert!(matches!(&s.ui_events[0], UiEvent::Error(ErrorType::Auth(t)) if t == "WebSocket non connesso"));
    s.ws.has_ws_control = true;
    AuthHandler::handle_delete_account_confirm(&mut s);
    assert!(matches!(s.outgoing[0], Outgoing::DeleteUser));
}

#[test]
fn search_matches_titles_and_kinds_ignoring_case() {
    let mut side = ConversationsSidebar::new();
    let list = vec![conv(1, "dm", "Bob"), conv(2, "group", "Team"), conv(3, "dm", "Eve")];
    assert_eq!(side.filter_conversations(&list).len(), 3);
    side.search_query = "BO".to_string();
    let ids: Vec<u128> = side.filter_conversations(&list).iter().map(|c| c.id).collect();
    assert_eq!(ids, vec![1]);
    side.search_query = "grup".to_string();
    let ids: Vec<u128> = side.filter_conversations(&list).iter().map(|c| c.id).collect();
    assert_eq!(ids, vec![2]);
    side.search_query = "priv".to_string();
    let ids: Vec<u128> = side.filter_conversations(&list).iter().map(|c| c.id).collect();
    assert_eq!(ids, vec![1, 3]);
}

#[test]
fn drained_events_are_dispatched_in_order() {
    let mut s = state();
    s.send_ui_event(UiEvent::LoginStarted);
    s.send_ui_event(UiEvent::InviteCreated("abc".to_string()));
    let acts = s.drain_events_at(1000, 1);
    assert_eq!(acts.len(), 2);
    assert_eq!(s.session.login_state, LoginState::LoggingIn);
    assert_eq!(s.ui.last_created_invite.as_deref(), Some("abc"));
    assert!(s.ui_events.is_empty());
}
