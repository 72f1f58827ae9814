use ruggine::inbound::{decode_at, handle_websocket_message, MAX_FRAME_BYTES};
use ruggine::frames::OutFrame;
use ruggine::model::{ErrorType, Outgoing, UiEvent};
use ruggine::outbound::frame_text;

const A: &str = "00000000-0000-0000-0000-00000000000a";
const B: &str = "00000000-0000-0000-0000-00000000000b";
const C: &str = "00000000-0000-0000-0000-00000000000c";

#[test]
fn chat_message_reads_cid_and_defaults() {
    let frame = format!(
        r#"{{"type":"chat_message","id":"{A}","author_id":"{B}","cid":"{C}","content":"hi","sequence":7}}"#
    );
    let out = decode_at(&frame, 1234);
    assert_eq!(out.len(), 1);
    match &out[0] {
        UiEvent::WsIncoming(m) => {
            assert_eq!(m.id, 10);
            assert_eq!(m.author_id, 11);
            assert_eq!(m.conversation_id, 12);
            assert_eq!(m.author_username, "unknown");
            assert_eq!(m.content, "hi");
            assert_eq!(m.created_at, 1234);
            assert_eq!(m.sequence_num, Some(7));
            assert_eq!(m.is_confirmed, Some(true));
        },
        _ => panic!("expected a chat message"),
    }
}

#[test]
fn blank_chat_message_is_dropped() {
    let frame = format!(
        r#"{{"type":"chat_message","id":"{A}","author_id":"{B}","conversation_id":"{C}","content":"  \n "}}"#
    );
    assert!(decode_at(&frame, 0).is_empty());
}

#[test]
fn frames_that_are_not_json_or_too_long_give_nothing() {
    assert!(decode_at("not json", 0).is_empty());
    assert!(decode_at(r#"{"no_type":1}"#, 0).is_empty());
    assert!(decode_at(r#"{"type":"something_else"}"#, 0).is_empty());
    let padding = "x".repeat(MAX_FRAME_BYTES);
    let big = format!(r#"{{"type":"account_deleted_confirm","pad":"{padding}"}}"#);
    assert!(decode_at(&big, 0).is_empty());
    let small = r#"{"type":"account_deleted_confirm"}"#;
    assert!(matches!(decode_at(small, 0).as_slice(), [UiEvent::LoggedOut]));
}

#[test]
fn resume_messages_fall_back_to_sequence() {
    let frame = format!(
        r#"{{"type":"messages_resume","conversation_id":"{C}","messages":[
            {{"id":"{A}","author_id":"{B}","author_username":"bob","content":"one","created_at":5,"sequence":3}},
            {{"id":"bad","author_id":"{B}","author_username":"bob","content":"two","created_at":6}},
            {{"id":"{B}","author_id":"{B}","author_username":"bob","content":"three","created_at":7,"sequence_num":4,"sequence":9}}
        ]}}"#
    );
    let out = decode_at(&frame, 0);
    assert_eq!(out.len(), 1);
    match &out[0] {
        UiEvent::MessagesResume { conversation_id, messages } => {
            assert_eq!(*conversation_id, 12);
            assert_eq!(messages.len(), 2);
            assert_eq!(messages[0].sequence_num, Some(3));
            assert_eq!(messages[1].sequence_num, Some(4));
            assert_eq!(messages[1].content, "three");
            assert_eq!(messages[0].conversation_id, 12);
        },
        _ => panic!("expected a resume"),
    }
}

#[test]
fn server_errors_and_warnings_become_messages() {
    let out = decode_at(r#"{"type":"error","error_code":"auth_failed","message":"no"}"#, 0);
    assert!(matches!(out.as_slice(), [UiEvent::Error(ErrorType::Auth(m))] if m == "no"));
    let out = decode_at(r#"{"type":"warning"}"#, 0);
    assert!(matches!(out.as_slice(), [UiEvent::Info(m)] if m == "Attenzione: Warning dal server"));
    let out = decode_at(r#"{"type":"user_resume_complete","events_count":0}"#, 0);
    assert!(matches!(out.as_slice(), [UiEvent::Info(m)] if m == "No user to resume"));
    let out = decode_at(r#"{"type":"messages_resume_complete","messages_count":3}"#, 0);
    assert!(out.is_empty());
}

#[test]
fn member_added_gives_a_notification_and_a_notice() {
    let frame = format!(r#"{{"type":"member_added","conversation_id":"{C}","username":"carol","sequence":4}}"#);
    let out = decode_at(&frame, 0);
    assert_eq!(out.len(), 2);
    match &out[0] {
        UiEvent::UserNotification { sequence, event_type, event_data, conversation_id, recovery } => {
            assert_eq!(*sequence, 4);
            assert_eq!(event_type, "member_added");
            assert_eq!(event_data.username.as_deref(), Some("carol"));
            assert_eq!(*conversation_id, Some(12));
            assert!(!recovery);
            assert_eq!(event_data.members.as_ref().map(|m| m.len()), Some(0));
        },
        _ => panic!("expected a notification"),
    }
    assert!(matches!(&out[1], UiEvent::Info(m) if m == "carol è stato aggiunto al gruppo"));
}

#[test]
fn notification_message_is_read_strictly() {
    let frame = format!(
        r#"{{"type":"new_message","conversation_id":"{C}","sequence":2,"message":{{"id":"{A}","author_id":"{B}","conversation_id":"{C}","author_username":"bob","content":"yo","created_at":9,"sequence_num":1}}}}"#
    );
    let out = decode_at(&frame, 0);
    match out.as_slice() {
        [UiEvent::UserNotification { sequence, event_data, .. }] => {
            assert_eq!(*sequence, 2);
            let m = event_data.message.as_ref().expect("message");
            assert_eq!(m.id, 10);
            assert_eq!(m.sequence_num, Some(1));
            assert_eq!(m.client_msg_id, None);
        },
        _ => panic!("expected a notification"),
    }
    let frame = format!(
        r#"{{"type":"new_message","message":{{"id":"{A}","author_id":"{B}","conversation_id":"{C}","author_username":"bob","content":"yo","created_at":9,"sequence_num":"one"}}}}"#
    );
    match decode_at(&frame, 0).as_slice() {
        [UiEvent::UserNotification { sequence, event_data, .. }] => {
            assert_eq!(*sequence, 0);
            assert!(event_data.message.is_none());
        },
        _ => panic!("expected a notification"),
    }
}

#[test]
fn initial_state_sorts_and_updates_last_messages() {
    let frame = format!(
        r#"{{"type":"initial_state","user_sequence":5,"conversations":[
            {{"id":"{A}","kind":"dm","title":"a","owner_id":"{B}","created_at":10}},
            {{"id":"{B}","kind":"group","owner_id":"{B}","created_at":5,"last_message":{{"created_at":50,"sequence_num":3,"content":"x"}}}},
            {{"id":"{C}","kind":"dm"}}
        ],"members_by_conversation":{{"{A}":[{{"user_id":"{B}","username":"bob","role":"member"}},{{"user_id":"x"}}],"nope":[]}}}}"#
    );
    let out = decode_at(&frame, 0);
    assert_eq!(out.len(), 2);
    match &out[0] {
        UiEvent::InitialStateReceived { conversations, user_sequence, members_by_conversation } => {
            assert_eq!(*user_sequence, 5);
            let ids: Vec<u128> = conversations.iter().map(|c| c.id).collect();
            assert_eq!(ids, vec![11, 10]);
            assert_eq!(conversations[0].last_activity, 50);
            assert_eq!(conversations[0].last_msg_seq, 3);
            assert_eq!(conversations[0].title, "");
            let members = members_by_conversation.as_ref().expect("members");
            assert_eq!(members.len(), 1);
            assert_eq!(members[0].0, 10);
            assert_eq!(members[0].1.len(), 1);
            assert_eq!(members[0].1[0].username, "bob");
        },
        _ => panic!("expected the initial state"),
    }
    match &out[1] {
        UiEvent::LastMessageUpdate { conversation_id, message } => {
            assert_eq!(*conversation_id, 11);
            assert_eq!(message.author_username, "unknown");
            assert_eq!(message.content, "x");
            assert_eq!(message.sequence_num, Some(3));
            assert_eq!(message.created_at, 50);
        },
        _ => panic!("expected a last message update"),
    }
}

#[test]
fn pong_and_deletions() {
    let out = decode_at(
        r#"{"type":"pong","current_user_sequence":8,"gaps_detected":true,"user_events_gap":{"detected":true,"client_seq":1,"server_seq":4,"gap_size":3}}"#,
        0,
    );
    match out.as_slice() {
        [UiEvent::PongReceived { current_user_sequence, gaps_detected, user_events_gap }] => {
            assert_eq!(*current_user_sequence, 8);
            assert!(*gaps_detected);
            let g = user_events_gap.expect("gap");
            assert_eq!((g.client_seq, g.server_seq, g.gap_size), (1, 4, 3));
        },
        _ => panic!("expected a pong"),
    }
    let frame = format!(r#"{{"type":"conversation_deleted","conversation_id":"{C}"}}"#);
    assert!(matches!(decode_at(&frame, 0).as_slice(), [UiEvent::ConversationDeleted(12)]));
    let frame = format!(r#"{{"type":"conversation_deleted","conversation_id":"{C}","sequence":6}}"#);
    let out = decode_at(&frame, 0);
    assert_eq!(out.len(), 2);
    assert!(matches!(&out[0], UiEvent::UserNotification { sequence: 6, .. }));
    assert!(matches!(&out[1], UiEvent::ConversationDeleted(12)));
    let frame = format!(r#"{{"type":"fetch_conversation_messages","cid":"{C}"}}"#);
    assert!(matches!(decode_at(&frame, 0).as_slice(), [UiEvent::TriggerConversationFetch(12, r)] if r == "fetch_event_unknown"));
}

#[test]
fn handle_websocket_message_reads_at_the_current_time() {
    assert!(matches!(handle_websocket_message(r#"{"type":"account_deleted_confirm"}"#).as_slice(), [UiEvent::LoggedOut]));
    assert!(handle_websocket_message("{").is_empty());
}

#[test]
fn uuid_text_is_hyphenated_lower_case_hex() {
    assert_eq!(ruggine::external::uuid_to_string(0xab), "00000000-0000-0000-0000-0000000000ab");
}

fn parsed(t: &str) -> serde_json::Value {
    serde_json::from_str(t).expect("json")
}

#[test]
fn requests_are_written_with_their_fields() {
    let t = frame_text(OutFrame::Plain(Outgoing::Typing { cid: 10, is_typing: true }), 5).expect("text");
    let v = parsed(&t);
    assert_eq!(v["type"], "typing");
    assert_eq!(v["cid"], A);
    assert_eq!(v["is_typing"], true);
    assert_eq!(v.as_object().map(|o| o.len()), Some(3));

    let t = frame_text(
        OutFrame::Plain(Outgoing::SequenceAck { user_sequence: Some(4), conversation_sequences: Some(vec![(12, 9)]) }),
        77,
    )
    .expect("text");
    let v = parsed(&t);
    assert_eq!(v["type"], "sequence_ack");
    assert_eq!(v["timestamp"], 77);
    assert_eq!(v["user_sequence"], 4);
    assert_eq!(v["conversation_sequences"][C], 9);

    let t = frame_text(
        OutFrame::Chat {
            content: "hello".to_string(),
            conversation_id: None,
            target_username: Some("bob".to_string()),
            client_temp_id: Some(11),
            target_usernames: None,
            client_msg_id: Some("k1".to_string()),
        },
        3,
    )
    .expect("text");
    let v = parsed(&t);
    assert_eq!(v["type"], "chat_message");
    assert_eq!(v["content"], "hello");
    assert_eq!(v["client_timestamp"], 3);
    assert_eq!(v["target_username"], "bob");
    assert_eq!(v["client_temp_id"], B);
    assert!(v.get("conversation_id").is_none());
    assert_eq!(v["client_msg_id"], "k1");

    let chat = Outgoing::ChatMessage {
        cid: 1,
        content: "x".to_string(),
        target_username: None,
        target_usernames: None,
        client_msg_id: None,
    };
    assert!(frame_text(OutFrame::Plain(chat), 0).is_none());
}
