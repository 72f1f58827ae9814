use ruggine::buffer::BufferHandler;
use ruggine::connection::ConnectionManager;
use ruggine::dispatcher::EventDispatcher;
use ruggine::frames::{out_frame, OutFrame};
use ruggine::link::{link_new, link_step, LinkAction, LinkEvent, SendKind};
use ruggine::model::{ConversationDto, ConversationSummary, MessageDto, Outgoing, UiEvent};
use ruggine::outgoing::{prepare_outgoing, MessageProcessor, RateLimiter};
use ruggine::state::AppState;

fn state() -> AppState {
    AppState::new("http://localhost:3000".to_string(), "alice".to_string(), "pw".to_string(), 0)
}

fn msg(id: u128, cid: u128, seq: u64) -> MessageDto {
    MessageDto {
        id,
        author_id: 7,
        conversation_id: cid,
        author_username: "bob".to_string(),
        content: format!("m{}", id),
        created_at: 10,
        sequence_num: Some(seq),
        client_msg_id: None,
        is_confirmed: None,
    }
}

#[test]
fn five_failed_sends_close_the_link() {
    let mut l = link_new(0);
    for k in 1..5u32 {
        let (n, acts) = link_step(l, LinkEvent::Sent { kind: SendKind::Frame, ok: false });
        assert_eq!(n.consecutive_failures, k);
        assert!(acts.is_empty());
        l = n;
    }
    let (n, acts) = link_step(l, LinkEvent::Sent { kind: SendKind::Ping, ok: false });
    assert!(n.closed);
    assert!(matches!(acts[0], LinkAction::NotifyDisconnected));
    let (n, acts) = link_step(n, LinkEvent::Pong { now_ms: 5 });
    assert!(n.closed && acts.is_empty());
}

#[test]
fn success_resets_failures_and_large_frames_are_dropped() {
    let l = link_new(0);
    let (l, _) = link_step(l, LinkEvent::Sent { kind: SendKind::Frame, ok: false });
    let (l, _) = link_step(l, LinkEvent::Sent { kind: SendKind::Frame, ok: true });
    assert_eq!(l.consecutive_failures, 0);
    let (l, acts) = link_step(l, LinkEvent::Outgoing("x".repeat(100_001)));
    assert!(acts.is_empty());
    let (l, acts) = link_step(l, LinkEvent::Outgoing("ciao".to_string()));
    assert!(matches!(&acts[0], LinkAction::Send(t) if t == "ciao"));
    let (_, acts) = link_step(l, LinkEvent::Text("y".repeat(1_000_001)));
    assert!(acts.is_empty());
}

#[test]
fn keepalive_times_out_without_pongs() {
    let l = link_new(0);
    let (l, acts) = link_step(l, LinkEvent::Tick { now_ms: 60_000 });
    assert!(matches!(acts[0], LinkAction::SendPing));
    let (l, _) = link_step(l, LinkEvent::Pong { now_ms: 70_000 });
    let (l, acts) = link_step(l, LinkEvent::Tick { now_ms: 180_000 });
    assert!(!l.closed && matches!(acts[0], LinkAction::SendPing));
    let (l, acts) = link_step(l, LinkEvent::Tick { now_ms: 190_001 });
    assert!(l.closed && matches!(acts[0], LinkAction::NotifyDisconnected));
}

#[test]
fn receive_errors_pause_or_close() {
    let l = link_new(0);
    let (l, acts) = link_step(l, LinkEvent::ReceiveError("timeout".to_string()));
    assert!(matches!(acts[0], LinkAction::Pause(100)));
    let (l, acts) = link_step(l, LinkEvent::ReceiveError("IO error: Broken pipe".to_string()));
    assert!(l.closed && matches!(acts[0], LinkAction::NotifyDisconnected));
    let (_, acts) = link_step(link_new(0), LinkEvent::CloseReceived);
    assert!(matches!(acts[0], LinkAction::SendClose { app_exit: false }));
    let (l, acts) = link_step(link_new(0), LinkEvent::Shutdown);
    assert!(l.closed && acts.len() == 1 && matches!(acts[0], LinkAction::SendClose { app_exit: true }));
}

#[test]
fn chat_frames_to_a_stub_carry_the_temporary_id() {
    let mut s = state();
    s.stubs.dm_stubs.insert(5, ("bob".to_string(), 0));
    let o = Outgoing::ChatMessage {
        cid: 5,
        content: "hi".to_string(),
        target_username: Some("bob".to_string()),
        target_usernames: None,
        client_msg_id: None,
    };
    match out_frame(&s, o) {
        OutFrame::Chat { conversation_id, client_temp_id, .. } => {
            assert_eq!(conversation_id, None);
            assert_eq!(client_temp_id, Some(5));
        }
        _ => panic!("expected a chat frame"),
    }
    let o = Outgoing::ChatMessage { cid: 6, content: "hi".to_string(), target_username: None, target_usernames: None, client_msg_id: None };
    match out_frame(&s, o) {
        OutFrame::Chat { conversation_id, client_temp_id, .. } => {
            assert_eq!(conversation_id, Some(6));
            assert_eq!(client_temp_id, None);
        }
        _ => panic!("expected a chat frame"),
    }
}

#[test]
fn invitations_are_trimmed_or_refused() {
    let r = prepare_outgoing(Outgoing::InviteUser { cid: 1, usernames: vec![" bob ".to_string(), "eve".to_string()] });
    match r {
        Some(Outgoing::InviteUser { usernames, .. }) => assert_eq!(usernames, vec!["bob".to_string(), "eve".to_string()]),
        _ => panic!("expected an invitation"),
    }
    assert!(prepare_outgoing(Outgoing::InviteUser { cid: 1, usernames: vec!["bob".to_string(), "  ".to_string()] }).is_none());
    assert!(prepare_outgoing(Outgoing::InviteUser { cid: 1, usernames: vec![] }).is_none());
}

#[test]
fn a_long_queue_keeps_what_a_round_does_not_send() {
    let mut s = state();
    let mut r = RateLimiter::new_at(0);
    r.max_messages_per_window = 1000;
    s.ws.has_ws_control = true;
    for i in 0..205u128 {
        s.outgoing.push(Outgoing::LeaveGroup { cid: i });
    }
    let out = MessageProcessor::new().process_outgoing_messages_at(&mut s, &mut r, 1);
    assert_eq!(out.len(), 200);
    assert_eq!(s.outgoing.len(), 5);
    assert!(matches!(s.outgoing[0], Outgoing::LeaveGroup { cid: 200 }));
}

#[test]
fn connected_at_matches_reset_backoff_at() {
    let mut a = ConnectionManager::new();
    let mut b = ConnectionManager::new();
    a.handle_disconnected();
    b.handle_disconnected();
    a.handle_connected_at(500);
    b.reset_backoff_at(500);
    assert_eq!(a.get_retry_info_at(600), b.get_retry_info_at(600));
    assert_eq!(a.get_stats().current_uptime_at(900), Some(400));
    assert_eq!(b.get_stats().current_uptime_at(900), Some(400));
}

#[test]
fn buffered_messages_are_delivered_after_a_summary() {
    let mut s = state();
    s.view.cid = Some(9);
    let mut b = std::collections::BTreeMap::new();
    b.insert(1u64, msg(1, 9, 1));
    b.insert(2u64, msg(2, 9, 2));
    b.insert(4u64, msg(4, 9, 4));
    s.buffers.message_reorder_buffer.insert(9, b);
    BufferHandler::buffer_message_for_reorder(&mut s, msg(5, 9, 5));
    let conv = ConversationDto {
        id: 9,
        kind: "dm".to_string(),
        title: "bob".to_string(),
        owner_id: 1,
        created_at: 0,
        last_read_sequence: 0,
        last_activity: 0,
        last_msg_seq: 0,
    };
    EventDispatcher::handle_event(&mut s, UiEvent::ConversationSummaryFetched(ConversationSummary { conversation: conv, last_message: None }));
    let cached: Vec<u128> = s.data.conversation_messages.get(&9).unwrap().iter().map(|m| m.id).collect();
    assert_eq!(cached, vec![1, 2]);
    let shown: Vec<u128> = s.view.messages.iter().map(|m| m.id).collect();
    assert_eq!(shown, vec![1, 2]);
    assert_eq!(s.seq.conversation_sequences_confirmed.get(&9), Some(&2));
    assert!(s.buffers.message_reorder_buffer.get(&9).map_or(false, |b| b.contains_key(&4) && b.contains_key(&5)));
}
