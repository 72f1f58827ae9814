use ruggine::cache::{dedup_messages, sort_messages};
use ruggine::conversations::ConversationHandler;
use ruggine::convlist::sort_newest_first;
use ruggine::model::{ConversationDto, MessageDto, Outgoing, Page};
use ruggine::state::AppState;
use std::collections::HashMap;

fn state() -> AppState {
    AppState::new("http://localhost:3000".to_string(), "alice".to_string(), "pw".to_string(), 0)
}

fn msg(id: u128, cid: u128, seq: Option<u64>, created: i64) -> MessageDto {
    MessageDto {
        id,
        author_id: 7,
        conversation_id: cid,
        author_username: "bob".to_string(),
        content: format!("m{}", id),
        created_at: created,
        sequence_num: seq,
        client_msg_id: None,
        is_confirmed: None,
    }
}

fn conv(id: u128, kind: &str, title: &str, created: i64) -> ConversationDto {
    ConversationDto {
        id,
        kind: kind.to_string(),
        title: title.to_string(),
        owner_id: 1,
        created_at: created,
        last_read_sequence: 0,
        last_activity: created,
        last_msg_seq: 0,
    }
}

#[test]
fn messages_sort_by_sequence_and_keep_ties_in_order() {
    let v = vec![msg(1, 1, Some(3), 5), msg(2, 1, Some(1), 9), msg(3, 1, Some(2), 1)];
    let ids: Vec<u128> = sort_messages(v).iter().map(|m| m.id).collect();
    assert_eq!(ids, vec![2, 3, 1]);
    let w = vec![msg(1, 1, None, 5), msg(2, 1, None, 5), msg(3, 1, None, 1)];
    let ids: Vec<u128> = sort_messages(w).iter().map(|m| m.id).collect();
    assert_eq!(ids, vec![3, 1, 2]);
}

#[test]
fn dedup_keeps_the_first_of_each_id() {
    let v = vec![msg(1, 1, Some(1), 1), msg(2, 1, Some(2), 2), msg(1, 1, Some(9), 3)];
    let d = dedup_messages(v);
    assert_eq!(d.len(), 2);
    assert_eq!(d[0].sequence_num, Some(1));
}

#[test]
fn conversations_sort_newest_first_stably() {
    let v = vec![conv(1, "dm", "a", 10), conv(2, "dm", "b", 30), conv(3, "dm", "c", 10)];
    let ids: Vec<u128> = sort_newest_first(v).iter().map(|c| c.id).collect();
    assert_eq!(ids, vec![2, 1, 3]);
}

#[test]
fn initial_state_seeds_sequences_unread_and_announces() {
    let mut s = state();
    let mut c1 = conv(1, "dm", "bob", 1);
    c1.last_msg_seq = 4;
    c1.last_read_sequence = 1;
    s.data.conversation_messages.insert(1, vec![msg(10, 1, Some(4), 1)]);
    s.stubs.dm_stubs.insert(1, ("bob".to_string(), 0));
    ConversationHandler::handle_initial_state_received(&mut s, vec![c1], 12);
    assert_eq!(s.seq.user_sequence_confirmed, 12);
    assert_eq!(s.seq.conversation_sequences.get(&1), Some(&4));
    assert_eq!(s.data.conversation_unread_counts.get(&1), Some(&3));
    assert!(s.stubs.dm_stubs.is_empty());
    assert_eq!(s.view.messages.last().unwrap().content, "Sincronizzate 1 conversazioni");
}

#[test]
fn messages_received_sorts_caches_and_shows_the_open_conversation() {
    let mut s = state();
    s.view.cid = Some(3);
    s.data.conversations = Some(vec![conv(3, "group", "team", 1)]);
    ConversationHandler::handle_conversation_messages_received(
        &mut s,
        3,
        vec![msg(2, 3, Some(2), 2), msg(1, 3, Some(1), 1)],
        true,
    );
    let cached: Vec<u128> = s.data.conversation_messages[&3].iter().map(|m| m.id).collect();
    assert_eq!(cached[..2], [1, 2]);
    assert_eq!(s.view.conv_title, "team");
    assert_eq!(s.seq.conversation_sequences.get(&3), Some(&2));
    assert_eq!(s.view.messages.last().unwrap().content, "Caricati messaggi recenti (altri disponibili)");
}

#[test]
fn older_messages_merge_dedup_and_stop_after_a_short_page() {
    let mut s = state();
    s.view.cid = Some(3);
    s.view.is_loading_more = true;
    s.view.messages = vec![msg(5, 3, Some(5), 5), msg(6, 3, Some(6), 6)];
    ConversationHandler::handle_older_messages_loaded(&mut s, vec![msg(4, 3, Some(4), 4), msg(5, 3, Some(5), 5)]);
    let ids: Vec<u128> = s.view.messages.iter().map(|m| m.id).collect();
    assert_eq!(ids, vec![4, 5, 6]);
    assert!(!s.view.is_loading_more);
    assert_eq!(s.view.has_more_messages.get(&3), Some(&false));
    assert_eq!(s.data.conversation_messages[&3].len(), 3);
}

#[test]
fn opening_shows_the_cache_and_sends_a_read_receipt() {
    let mut s = state();
    s.data.conversations = Some(vec![conv(3, "dm", "bob", 1)]);
    s.data.conversation_messages.insert(3, vec![msg(1, 3, Some(1), 1), msg(2, 3, Some(8), 2)]);
    s.data.conversation_unread_counts.insert(3, 4);
    ConversationHandler::handle_opened(&mut s, 3);
    assert_eq!(s.view.page, Page::Chat);
    assert_eq!(s.view.messages.len(), 2);
    assert_eq!(s.data.conversation_unread_counts.get(&3), Some(&0));
    assert_eq!(s.seq.conversation_sequences_confirmed.get(&3), Some(&8));
    assert!(matches!(s.outgoing[0], Outgoing::MarkRead { conversation_id: 3, sequence_num: 8 }));
    assert_eq!(s.data.conversations.as_ref().unwrap()[0].last_read_sequence, 8);
}

#[test]
fn deleting_the_open_conversation_goes_back_to_the_list() {
    let mut s = state();
    s.view.cid = Some(3);
    s.view.page = Page::Chat;
    s.data.conversations = Some(vec![conv(3, "dm", "bob", 1), conv(4, "dm", "eve", 1)]);
    s.data.conversation_messages.insert(3, vec![msg(1, 3, Some(1), 1)]);
    ConversationHandler::handle_conversation_deleted(&mut s, 3);
    assert_eq!(s.view.cid, None);
    assert_eq!(s.view.page, Page::Conversations);
    assert_eq!(s.data.conversations.as_ref().unwrap().len(), 1);
    assert!(s.data.conversation_messages.get(&3).is_none());
    assert!(s.data.request_conversations_refresh);
}

#[test]
fn confirmation_replaces_the_open_stub() {
    let mut s = state();
    let stub: u128 = 0x6f9619ff_8b86_d011_b42d_00c04fc964ff;
    s.stubs.dm_stubs.insert(stub, ("bob".to_string(), 0));
    s.view.cid = Some(stub);
    s.data.conversations = Some(vec![conv(stub, "dm", "bob", 1), conv(8, "dm", "eve", 5)]);
    let real = conv(9, "dm", "bob", 10);
    ConversationHandler::handle_conversation_confirmed(
        &mut s,
        real,
        vec![msg(1, 9, Some(1), 10)],
        Some("6f9619ff-8b86-d011-b42d-00c04fc964ff".to_string()),
    );
    assert_eq!(s.view.cid, Some(9));
    assert!(s.stubs.dm_stubs.is_empty());
    let ids: Vec<u128> = s.data.conversations.as_ref().unwrap().iter().map(|c| c.id).collect();
    assert_eq!(ids, vec![9, 8]);
    assert_eq!(s.seq.conversation_sequences.get(&9), Some(&1));
    assert_eq!(s.view.messages.last().unwrap().content, "Conversazione 'bob' confermata");
}

#[test]
fn loaded_list_drops_stubs_whose_dm_exists() {
    let mut s = state();
    s.stubs.dm_stubs.insert(1, ("bob".to_string(), 0));
    s.stubs.dm_stubs.insert(2, ("eve".to_string(), 0));
    ConversationHandler::handle_conversations_loaded(&mut s, vec![conv(5, "dm", "bob", 1), conv(6, "group", "eve", 1)]);
    assert!(!s.stubs.dm_stubs.contains_key(&1));
    assert!(s.stubs.dm_stubs.contains_key(&2));
}

#[test]
fn all_messages_set_sequences_and_the_view() {
    let mut s = state();
    s.view.cid = Some(2);
    let mut all = HashMap::new();
    all.insert(1u128, vec![msg(1, 1, Some(3), 1), msg(2, 1, Some(7), 2)]);
    all.insert(2u128, vec![msg(3, 2, None, 1)]);
    ConversationHandler::handle_all_messages_loaded(&mut s, all);
    assert_eq!(s.seq.conversation_sequences.get(&1), Some(&7));
    assert_eq!(s.seq.conversation_sequences.get(&2), None);
    assert_eq!(s.view.messages.len(), 1);
}

#[test]
fn dm_stub_is_opened_with_a_greeting() {
    let mut s = state();
    ConversationHandler::handle_dm_stub_created(&mut s, 42, "bob".to_string());
    assert_eq!(s.view.cid, Some(42));
    assert_eq!(s.stubs.dm_stubs.get(&42).map(|e| e.0.clone()), Some("bob".to_string()));
    assert_eq!(s.view.messages[0].content, "Chat con bob pronta. Invia il primo messaggio per iniziare!");
    assert_eq!(s.data.conversation_messages[&42].len(), 1);
}

#[test]
fn fetch_is_asked_only_when_logged_in() {
    let mut s = state();
    assert!(ConversationHandler::handle_trigger_conversation_fetch(&s, 3, "x".to_string()).is_none());
    s.session.token = Some("tok".to_string());
    let f = ConversationHandler::handle_trigger_conversation_fetch(&s, 3, "x".to_string()).unwrap();
    assert_eq!(f.conversation_id, 3);
    assert_eq!(f.token, "tok");
}

#[test]
fn unread_difference_never_goes_negative() {
    assert_eq!(ruggine::conversations::unread_difference(5, 2), 3);
    assert_eq!(ruggine::conversations::unread_difference(2, 5), 0);
    assert_eq!(ruggine::conversations::unread_difference(i64::MAX, -1), i64::MAX);
}
