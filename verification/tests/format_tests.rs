use ruggine::incoming::handle_incoming_message;
use ruggine::model::{ConversationDto, MessageDto, MessageResponse, Outgoing};
use ruggine::outgoing::MessageProcessor;
use ruggine::rest::{connect_refusal, messages_from_responses};
use ruggine::state::AppState;

fn state() -> AppState {
    AppState::new("http://localhost:3000".to_string(), "alice".to_string(), "pw".to_string(), 0)
}

fn msg(id: u128, cid: u128, seq: u64) -> MessageDto {
    MessageDto {
        id,
        author_id: 7,
        conversation_id: cid,
        author_username: "bob".to_string(),
        content: format!("m{}", id),
        created_at: 10,
        sequence_num: Some(seq),
        client_msg_id: None,
        is_confirmed: None,
    }
}

fn chat(content: &str) -> Outgoing {
    Outgoing::ChatMessage {
        cid: 0,
        content: content.to_string(),
        target_username: None,
        target_usernames: None,
        client_msg_id: None,
    }
}

#[test]
fn blank_chat_message_is_refused_by_the_formatter() {
    let s = state();
    let r = MessageProcessor::new().format_outgoing_message(chat("   "), &s);
    assert_eq!(r, Err("Empty message content".to_string()));
}

#[test]
fn long_chat_message_goes_out_cut() {
    let s = state();
    let long = "é".repeat(12_000);
    let t = MessageProcessor::new().format_outgoing_message(chat(&long), &s).expect("frame");
    let v: serde_json::Value = serde_json::from_str(&t).expect("json");
    let content = v["content"].as_str().expect("content");
    assert_eq!(content.chars().count(), 10_000);
    assert_eq!(content, long.chars().take(10_000).collect::<String>());
}

#[test]
fn invitations_with_blank_names_are_refused_and_others_trimmed() {
    let s = state();
    let bad = Outgoing::InviteUser { cid: 1, usernames: vec!["bob".to_string(), "  ".to_string()] };
    assert_eq!(MessageProcessor::new().format_outgoing_message(bad, &s), Err("Empty username".to_string()));
    let none = Outgoing::InviteUser { cid: 1, usernames: vec![] };
    assert_eq!(MessageProcessor::new().format_outgoing_message(none, &s), Err("Empty username".to_string()));
    let ok = Outgoing::InviteUser { cid: 1, usernames: vec![" bob ".to_string()] };
    let t = MessageProcessor::new().format_outgoing_message(ok, &s).expect("frame");
    let v: serde_json::Value = serde_json::from_str(&t).expect("json");
    assert_eq!(v["usernames"][0], "bob");
    assert_eq!(v["type"], "invite_user");
}

#[test]
fn an_in_order_message_drains_the_whole_following_run() {
    let mut s = state();
    s.view.cid = Some(9);
    s.data.conversations = Some(vec![ConversationDto {
        id: 9,
        kind: "dm".to_string(),
        title: "bob".to_string(),
        owner_id: 7,
        created_at: 0,
        last_read_sequence: 0,
        last_activity: 0,
        last_msg_seq: 0,
    }]);
    let mut b = std::collections::BTreeMap::new();
    b.insert(2u64, msg(2, 9, 2));
    b.insert(3u64, msg(3, 9, 3));
    b.insert(5u64, msg(5, 9, 5));
    s.buffers.message_reorder_buffer.insert(9, b);
    handle_incoming_message(&mut s, msg(1, 9, 1));
    let cached: Vec<u128> = s.data.conversation_messages.get(&9).unwrap().iter().map(|m| m.id).collect();
    assert_eq!(cached, vec![1, 2, 3]);
    let shown: Vec<u128> = s.view.messages.iter().map(|m| m.id).collect();
    assert_eq!(shown, vec![1, 2, 3]);
    assert_eq!(s.seq.conversation_sequences_confirmed.get(&9), Some(&3));
    let left: Vec<u64> = s.buffers.message_reorder_buffer.get(&9).unwrap().keys().copied().collect();
    assert_eq!(left, vec![5]);
}

#[test]
fn pages_leave_out_messages_with_bad_ids() {
    let raw = vec![
        MessageResponse {
            id: "00000000-0000-0000-0000-00000000000a".to_string(),
            author_id: "00000000-0000-0000-0000-00000000000b".to_string(),
            author_username: "bob".to_string(),
            content: "hi".to_string(),
            created_at: 4,
            sequence_num: Some(2),
        },
        MessageResponse {
            id: "nope".to_string(),
            author_id: "00000000-0000-0000-0000-00000000000b".to_string(),
            author_username: "bob".to_string(),
            content: "lost".to_string(),
            created_at: 5,
            sequence_num: None,
        },
    ];
    let out = messages_from_responses(12, raw);
    assert_eq!(out.len(), 1);
    assert_eq!((out[0].id, out[0].author_id, out[0].conversation_id), (10, 11, 12));
    assert_eq!(out[0].sequence_num, Some(2));
    assert_eq!(out[0].is_confirmed, Some(true));
}

#[test]
fn a_blank_token_is_refused_before_connecting() {
    assert_eq!(connect_refusal("  "), Some("Token di autenticazione vuoto".to_string()));
    assert_eq!(connect_refusal("abc"), None);
}

#[test]
fn ticking_a_name_twice_keeps_it_once() {
    let mut s = state();
    s.set_invitee_selected("bob".to_string(), true);
    s.set_invitee_selected("bob".to_string(), true);
    s.set_participant_selected("carol".to_string(), true);
    s.set_participant_selected("carol".to_string(), true);
    assert_eq!(s.ui.invite_popup.selected_users, vec!["bob".to_string()]);
    assert_eq!(s.ui.create_group_popup.selected_participants, vec!["carol".to_string()]);
    s.set_invitee_selected("bob".to_string(), false);
    assert!(s.ui.invite_popup.selected_users.is_empty());
}
