use ruggine::connection::{ConnectionAction, ConnectionManager};
use ruggine::model::{Outgoing, UiEvent, WsStatus};
use ruggine::outgoing::{prepare_outgoing, MessageProcessor, RateLimiter};
use ruggine::state::AppState;

fn state() -> AppState {
    AppState::new("http://localhost:3000".to_string(), "alice".to_string(), "pw".to_string(), 0)
}

#[test]
fn backoff_schedule_and_logout_after_six_failures() {
    let mut m = ConnectionManager::new();
    for k in 1..6u32 {
        assert!(!m.increment_backoff());
        assert_eq!(m.get_retry_info_at(0), Some((k, 0)));
    }
    assert!(m.increment_backoff());
    assert_eq!(m.get_retry_info_at(0).unwrap().0, 6);
}

#[test]
fn success_clears_the_backoff() {
    let mut m = ConnectionManager::new();
    m.handle_disconnected();
    m.handle_disconnected();
    m.reset_backoff_at(1000);
    assert!(m.get_retry_info_at(2000).is_none());
    assert_eq!(m.get_stats().successful_connections(), 1);
    assert_eq!(m.get_stats().current_uptime_at(4500), Some(3500));
}

#[test]
fn retry_info_counts_the_time_left() {
    let mut m = ConnectionManager::new();
    let mut s = state();
    s.session.token = Some("tok".to_string());
    m.manage_connection_at(&mut s, 10_000);
    assert_eq!(s.ws.ws_status, WsStatus::Connecting);
    m.manage_connection_at(&mut s, 10_050);
    s.ws.ws_status = WsStatus::Disconnected;
    m.manage_connection_at(&mut s, 10_100);
    let info = m.get_retry_info_at(10_400).unwrap();
    assert_eq!(info.0, 1);
    assert_eq!(info.1, 600);
}

#[test]
fn connects_when_logged_in_and_waits_between_attempts() {
    let mut m = ConnectionManager::new();
    let mut s = state();
    s.session.token = Some("tok".to_string());
    let acts = m.manage_connection_at(&mut s, 0);
    assert_eq!(acts.len(), 1);
    match &acts[0] {
        ConnectionAction::Connect { token, .. } => assert_eq!(token, "tok"),
        _ => panic!("expected a connection"),
    }
    assert_eq!(s.ws.ws_status, WsStatus::Connecting);
    assert!(m.manage_connection_at(&mut s, 100).is_empty());
    s.ws.ws_status = WsStatus::Disconnected;
    let acts = m.manage_connection_at(&mut s, 500);
    assert!(acts.is_empty());
    let acts = m.manage_connection_at(&mut s, 1200);
    assert_eq!(acts.len(), 1);
}

#[test]
fn blank_token_is_refused() {
    let mut m = ConnectionManager::new();
    let mut s = state();
    s.session.token = Some("   ".to_string());
    let acts = m.manage_connection_at(&mut s, 0);
    assert!(acts.is_empty());
    assert!(matches!(&s.ui_events[0], UiEvent::WsError(t) if t == "Token non valido"));
}

#[test]
fn logged_out_state_disconnects() {
    let mut m = ConnectionManager::new();
    let mut s = state();
    s.ws.ws_status = WsStatus::Connected;
    s.ws.has_ws_control = true;
    let acts = m.manage_connection_at(&mut s, 0);
    assert!(matches!(acts[..], [ConnectionAction::Shutdown]));
    assert_eq!(s.ws.ws_status, WsStatus::Disconnected);
    assert!(!s.ws.has_ws_control);
}

#[test]
fn connecting_too_long_is_abandoned() {
    let mut m = ConnectionManager::new();
    let mut s = state();
    s.session.token = Some("tok".to_string());
    m.manage_connection_at(&mut s, 0);
    let acts = m.manage_connection_at(&mut s, 30_001);
    assert!(acts.is_empty());
    assert_eq!(s.ws.ws_status, WsStatus::Disconnected);
    assert!(matches!(s.ui_events.last(), Some(UiEvent::WsDisconnected)));
}

#[test]
fn rate_limiter_allows_a_hundred_per_window() {
    let mut r = RateLimiter::new_at(0);
    for _ in 0..100 {
        assert!(r.check_rate_limit_at(10));
        r.increment_sent();
    }
    assert!(!r.check_rate_limit_at(20));
    assert!(r.check_rate_limit_at(60_001));
    assert_eq!(r.messages_sent, 0);
}

#[test]
fn blank_chat_message_is_refused_and_long_one_cut() {
    let blank = Outgoing::ChatMessage {
        cid: 1,
        content: "  \n".to_string(),
        target_username: None,
        target_usernames: None,
        client_msg_id: None,
    };
    assert!(prepare_outgoing(blank).is_none());
    let long = Outgoing::ChatMessage {
        cid: 1,
        content: "x".repeat(10_005),
        target_username: None,
        target_usernames: None,
        client_msg_id: None,
    };
    match prepare_outgoing(long) {
        Some(Outgoing::ChatMessage { content, .. }) => assert_eq!(content.chars().count(), 10_000),
        _ => panic!("expected a message"),
    }
    assert!(matches!(prepare_outgoing(Outgoing::DeleteUser), Some(Outgoing::DeleteUser)));
}

#[test]
fn processor_sends_queued_requests_in_order() {
    let mut s = state();
    let mut r = RateLimiter::new_at(0);
    s.ws.has_ws_control = true;
    s.outgoing.push(Outgoing::LeaveGroup { cid: 1 });
    s.outgoing.push(Outgoing::DeleteMessage { mid: 2 });
    let out = MessageProcessor::new().process_outgoing_messages_at(&mut s, &mut r, 1);
    assert_eq!(out.len(), 2);
    assert!(matches!(out[0], Outgoing::LeaveGroup { cid: 1 }));
    assert!(s.outgoing.is_empty());
    assert_eq!(r.messages_sent, 2);
}

#[test]
fn processor_without_connection_requeues_the_first() {
    let mut s = state();
    let mut r = RateLimiter::new_at(0);
    s.outgoing.push(Outgoing::LeaveGroup { cid: 1 });
    s.outgoing.push(Outgoing::DeleteMessage { mid: 2 });
    let out = MessageProcessor::new().process_outgoing_messages_at(&mut s, &mut r, 1);
    assert!(out.is_empty());
    assert!(matches!(s.outgoing[1], Outgoing::LeaveGroup { cid: 1 }));
}
