use ruggine::cache::insert_sorted;
use ruggine::connection::ConnectionAction;
use ruggine::convlist::{dedup_conversations, sort_most_recent_first};
use ruggine::helpers::move_conversation_to_top;
use ruggine::model::{ConversationDto, ErrorType, MessageDto, Outgoing, WsStatus};
use ruggine::outgoing::{RateLimiter, WebSocketManager};
use ruggine::panels::ConversationsSidebar;
use ruggine::server::server_error;
use ruggine::state::AppState;

fn state() -> AppState {
    AppState::new("http://localhost:3000".to_string(), "alice".to_string(), "pw".to_string(), 0)
}

fn conv(id: u128, title: &str, created: i64, activity: i64) -> ConversationDto {
    ConversationDto {
        id,
        kind: "group".to_string(),
        title: title.to_string(),
        owner_id: 1,
        created_at: created,
        last_read_sequence: 0,
        last_activity: activity,
        last_msg_seq: 0,
    }
}

fn msg(id: u128, seq: u64) -> MessageDto {
    MessageDto {
        id,
        author_id: 7,
        conversation_id: 3,
        author_username: "bob".to_string(),
        content: format!("m{}", id),
        created_at: 100,
        sequence_num: Some(seq),
        client_msg_id: None,
        is_confirmed: None,
    }
}

#[test]
fn server_error_codes_map_to_failures() {
    match server_error("invalid_token", "scaduto") {
        ErrorType::Auth(m) => assert_eq!(m, "scaduto"),
        other => panic!("unexpected {:?}", other),
    }
    assert!(matches!(server_error("auth_failed", "x"), ErrorType::Auth(_)));
    assert!(matches!(server_error("token_expired", "x"), ErrorType::Auth(_)));
    assert!(matches!(server_error("message_send_failed", "x"), ErrorType::MessageSend));
    assert!(matches!(server_error("message_delete_failed", "x"), ErrorType::MessageDelete));
    assert!(matches!(server_error("conversation_delete_failed", "x"), ErrorType::ConversationDelete));
    assert!(matches!(server_error("group_leave_failed", "x"), ErrorType::GroupLeave));
    assert!(matches!(server_error("group_create_failed", "x"), ErrorType::GroupCreate));
    assert!(matches!(server_error("invite_failed", "x"), ErrorType::Invite));
    assert!(matches!(server_error("connection_error", "x"), ErrorType::Connection));
    assert!(matches!(server_error("websocket_error", "x"), ErrorType::Connection));
    match server_error("quota", "troppi messaggi") {
        ErrorType::Generic(m) => assert_eq!(m, "Errore server: troppi messaggi"),
        other => panic!("unexpected {:?}", other),
    }
}

#[test]
fn conversations_sort_by_activity_most_recent_first_stably() {
    let v = vec![conv(1, "a", 5, 10), conv(2, "b", 1, 30), conv(3, "c", 9, 10), conv(4, "d", 2, 20)];
    let ids: Vec<u128> = sort_most_recent_first(v).iter().map(|c| c.id).collect();
    assert_eq!(ids, vec![2, 4, 1, 3]);
}

#[test]
fn inserting_a_message_keeps_the_sequence_order() {
    let mut v = vec![msg(1, 1), msg(2, 3), msg(3, 7)];
    insert_sorted(&mut v, msg(4, 5));
    let seqs: Vec<u64> = v.iter().map(|m| m.sequence_num.unwrap()).collect();
    assert_eq!(seqs, vec![1, 3, 5, 7]);
    insert_sorted(&mut v, msg(5, 9));
    assert_eq!(v.last().unwrap().id, 5);
}

#[test]
fn moving_to_top_keeps_every_conversation() {
    let mut s = state();
    s.data.conversations = Some(vec![conv(1, "a", 1, 1), conv(2, "b", 2, 2), conv(3, "c", 3, 3)]);
    move_conversation_to_top(&mut s, 3);
    let ids: Vec<u128> = s.data.conversations.as_ref().unwrap().iter().map(|c| c.id).collect();
    assert_eq!(ids, vec![3, 1, 2]);
    move_conversation_to_top(&mut s, 9);
    let ids: Vec<u128> = s.data.conversations.as_ref().unwrap().iter().map(|c| c.id).collect();
    assert_eq!(ids, vec![3, 1, 2]);
}

#[test]
fn dedup_leaves_each_id_once() {
    let v = vec![conv(1, "a", 1, 1), conv(2, "b", 2, 2), conv(1, "a2", 3, 3), conv(2, "b2", 4, 4)];
    let d = dedup_conversations(v);
    let ids: Vec<u128> = d.iter().map(|c| c.id).collect();
    assert_eq!(ids, vec![1, 2]);
    assert_eq!(d[0].title, "a");
}

#[test]
fn search_results_all_answer_the_query() {
    let mut side = ConversationsSidebar::new();
    side.search_query = "Te".to_string();
    let v = vec![conv(1, "Team", 1, 1), conv(2, "casa", 2, 2), conv(3, "tetto", 3, 3)];
    let r = side.filter_conversations(&v);
    let ids: Vec<u128> = r.iter().map(|c| c.id).collect();
    assert_eq!(ids, vec![1, 3]);
}

#[test]
fn lifecycle_sends_the_queue_then_connects() {
    let mut m = WebSocketManager::new();
    m.rate_limiter = RateLimiter::new_at(0);
    m.health_monitor.last_health_check = 0;
    let mut s = state();
    s.session.token = Some("tok".to_string());
    s.ws.has_ws_control = true;
    s.outgoing.push(Outgoing::Typing { cid: 4, is_typing: true });
    let (out, acts) = m.ensure_ws_lifecycle_at(&mut s, 70_000);
    assert_eq!(out.len(), 1);
    assert!(matches!(out[0], Outgoing::Typing { cid: 4, is_typing: true }));
    assert!(s.outgoing.is_empty());
    assert_eq!(acts.len(), 1);
    assert!(matches!(acts[0], ConnectionAction::Connect { .. }));
    assert_eq!(s.ws.ws_status, WsStatus::Connecting);
    assert_eq!(m.health_monitor.last_health_check, 70_000);
    assert_eq!(m.rate_limiter.messages_sent, 1);
}

#[test]
fn current_conversation_getters() {
    let mut s = state();
    assert!(!s.has_current_conversation());
    assert_eq!(s.current_conversation_title(), "Conversazione sconosciuta");
    assert!(s.current_conversation_kind().is_none());
    assert!(s.current_conversation_id_string().is_none());
    s.data.conversations = Some(vec![conv(1, "a", 1, 1), conv(0x2a, "Team", 2, 2)]);
    s.view.cid = Some(0x2a);
    assert!(s.has_current_conversation());
    assert_eq!(s.current_conversation_title(), "Team");
    assert_eq!(s.current_conversation_kind().as_deref(), Some("group"));
    assert_eq!(s.current_conversation_info().unwrap().id, 0x2a);
    assert_eq!(s.current_conversation_id_string().as_deref(), Some("00000000-0000-0000-0000-00000000002a"));
    s.view.cid = Some(7);
    assert!(s.current_conversation_info().is_none());
}

#[test]
fn cached_messages_are_counted_over_all_conversations() {
    let mut s = state();
    assert_eq!(s.get_total_cached_messages(), 0);
    s.data.conversation_messages.insert(1, vec![msg(1, 1), msg(2, 2)]);
    s.data.conversation_messages.insert(2, vec![msg(3, 1)]);
    s.data.conversation_messages.insert(3, vec![]);
    assert_eq!(s.get_total_cached_messages(), 3);
    s.data.conversations = Some(vec![conv(1, "a", 1, 1)]);
    s.stubs.dm_stubs.insert(5, ("bob".to_string(), 0));
    let info = s.get_debug_info();
    let pairs: Vec<(&str, &str)> = info.iter().map(|(k, v)| (k.as_str(), v.as_str())).collect();
    assert_eq!(
        pairs,
        vec![
            ("conversations", "1"),
            ("cached_messages", "3"),
            ("dm_stubs", "1"),
            ("group_stubs", "0"),
            ("pending_user_check", "false"),
        ]
    );
}
