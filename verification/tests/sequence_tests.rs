use ruggine::buffer::BufferHandler;
use ruggine::model::{MessageDto, NotificationData, Outgoing};
use ruggine::notifications::UserNotificationHandler;
use ruggine::sequence::SequenceHandler;
use ruggine::state::AppState;

fn state() -> AppState {
    AppState::new("http://localhost:3000".to_string(), "alice".to_string(), "pw".to_string(), 0)
}

fn msg(id: u128, cid: u128, seq: Option<u64>, created: i64) -> MessageDto {
    MessageDto {
        id,
        author_id: 7,
        conversation_id: cid,
        author_username: "bob".to_string(),
        content: format!("m{}", id),
        created_at: created,
        sequence_num: seq,
        client_msg_id: None,
        is_confirmed: None,
    }
}

fn empty_data() -> NotificationData {
    NotificationData {
        sequence: None,
        event_type: None,
        conversation_id: None,
        conversation_sequence: None,
        message: None,
        members: None,
        username: None,
        conversation: None,
    }
}

#[test]
fn user_sequence_in_order_advances_both_marks() {
    let mut s = state();
    SequenceHandler::update_user_sequence(&mut s, 1);
    assert_eq!(s.seq.user_sequence_received, 1);
    assert_eq!(s.seq.user_sequence_confirmed, 1);
    assert_eq!(s.seq.sequence_stats.total_events_received, 1);
}

#[test]
fn user_sequence_gap_keeps_confirmed_and_counts_gap() {
    let mut s = state();
    SequenceHandler::update_user_sequence(&mut s, 3);
    assert_eq!(s.seq.user_sequence_received, 3);
    assert_eq!(s.seq.user_sequence_confirmed, 0);
    assert_eq!(s.seq.sequence_stats.gaps_detected, 1);
    assert!(s.outgoing.is_empty());
}

#[test]
fn large_user_gap_requests_a_resume_once() {
    let mut s = state();
    SequenceHandler::update_user_sequence(&mut s, 10);
    assert!(s.seq.is_recovering_user_events);
    assert_eq!(s.outgoing.len(), 1);
    match &s.outgoing[0] {
        Outgoing::RequestUserResume { from_sequence, limit } => {
            assert_eq!(*from_sequence, 0);
            assert_eq!(*limit, 100);
        }
        _ => panic!("expected a resume request"),
    }
    SequenceHandler::update_user_sequence(&mut s, 20);
    assert_eq!(s.outgoing.len(), 1);
}

#[test]
fn conversation_gap_of_five_requests_messages_resume() {
    let mut s = state();
    SequenceHandler::update_conversation_sequence(&mut s, 9, 7);
    assert_eq!(s.seq.conversation_sequences.get(&9), Some(&7));
    assert_eq!(s.seq.conversation_sequences_confirmed.get(&9), None);
    assert_eq!(s.outgoing.len(), 1);
    match &s.outgoing[0] {
        Outgoing::RequestMessagesResume { conversation_id, from_sequence, .. } => {
            assert_eq!(*conversation_id, 9);
            assert_eq!(*from_sequence, 0);
        }
        _ => panic!("expected a messages resume"),
    }
}

#[test]
fn conversation_sequence_in_order_confirms() {
    let mut s = state();
    SequenceHandler::update_conversation_sequence(&mut s, 9, 1);
    SequenceHandler::update_conversation_sequence(&mut s, 9, 2);
    assert_eq!(s.seq.conversation_sequences_confirmed.get(&9), Some(&2));
    assert!(s.outgoing.is_empty());
}

#[test]
fn message_buffer_delivers_only_the_consecutive_run() {
    let mut s = state();
    BufferHandler::buffer_message_for_reorder(&mut s, msg(1, 5, Some(3), 10));
    BufferHandler::buffer_message_for_reorder(&mut s, msg(2, 5, Some(2), 11));
    BufferHandler::buffer_message_for_reorder(&mut s, msg(3, 5, Some(5), 12));
    BufferHandler::buffer_message_for_reorder(&mut s, msg(4, 5, Some(1), 13));
    assert_eq!(s.buffers.message_reorder_buffer.get(&5).map(|b| b.len()), Some(3));
    s.seq.conversation_sequences_confirmed.insert(5, 1);
    let delivered = BufferHandler::try_deliver_buffered_messages(&mut s, 5);
    let seqs: Vec<u64> = delivered.iter().map(|m| m.sequence_num.unwrap()).collect();
    assert_eq!(seqs, vec![2, 3]);
    let left = BufferHandler::try_deliver_buffered_messages(&mut s, 5);
    assert!(left.is_empty());
}

#[test]
fn early_user_event_is_buffered_then_skipped_as_seen() {
    let mut s = state();
    UserNotificationHandler::handle_user_notification(&mut s, 3, "user_left_group".to_string(), empty_data(), None, false);
    assert_eq!(s.buffers.user_event_reorder_buffer.len(), 1);
    assert_eq!(s.seq.user_sequence_confirmed, 0);
    s.seq.user_sequence_confirmed = 5;
    let before = s.ui_events.len();
    UserNotificationHandler::handle_user_notification(&mut s, 4, "user_left_group".to_string(), empty_data(), None, false);
    assert_eq!(s.ui_events.len(), before);
}

#[test]
fn in_order_user_event_is_processed() {
    let mut s = state();
    UserNotificationHandler::handle_user_notification(&mut s, 1, "user_left_group".to_string(), empty_data(), None, true);
    assert_eq!(s.seq.user_sequence_confirmed, 1);
    assert_eq!(s.seq.sequence_stats.events_recovered, 1);
    assert_eq!(s.ui_events.len(), 1);
    assert!(matches!(s.ui_events[0], ruggine::model::UiEvent::ConversationListUpdated));
}

#[test]
fn buffered_user_event_with_its_sequence_is_delivered_after_the_gap_closes() {
    let mut s = state();
    let mut data = empty_data();
    data.sequence = Some(2);
    data.event_type = Some("user_left_group".to_string());
    UserNotificationHandler::handle_user_notification(&mut s, 2, "user_left_group".to_string(), data, None, false);
    assert!(s.ui_events.is_empty());
    UserNotificationHandler::handle_user_notification(&mut s, 1, "user_left_group".to_string(), empty_data(), None, false);
    assert_eq!(s.seq.user_sequence_confirmed, 2);
    assert_eq!(s.ui_events.len(), 2);
    assert!(s.buffers.user_event_reorder_buffer.is_empty());
}

#[test]
fn ping_needs_a_connection() {
    let mut s = state();
    assert!(SequenceHandler::send_ping(&mut s).is_none());
    assert_eq!(s.seq.sequence_stats.ping_count, 1);
    s.ws.has_ws_control = true;
    s.seq.user_sequence_confirmed = 4;
    match SequenceHandler::send_ping(&mut s) {
        Some(Outgoing::Ping { user_sequence }) => assert_eq!(user_sequence, Some(4)),
        _ => panic!("expected a ping"),
    }
}
