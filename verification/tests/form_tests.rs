use ruggine::forms::{deletion_dialog, group_contacts, invite_contacts, str_starts_with, DeletionKind};
use ruggine::model::{ConversationDto, Outgoing, ParticipantInfo, UiEvent, WsStatus};
use ruggine::panels::{unread_badge, ConversationsSidebar};
use ruggine::state::AppState;

fn state() -> AppState {
    AppState::new("http://localhost:3000".to_string(), "alice".to_string(), "pw".to_string(), 0)
}

fn conv(id: u128, kind: &str, title: &str) -> ConversationDto {
    ConversationDto {
        id,
        kind: kind.to_string(),
        title: title.to_string(),
        owner_id: 1,
        created_at: 0,
        last_read_sequence: 0,
        last_activity: 0,
        last_msg_seq: 0,
    }
}

fn member(name: &str) -> ParticipantInfo {
    ParticipantInfo { user_id: 5, username: name.to_string(), role: "member".to_string() }
}

#[test]
fn prefix_test() {
    assert!(str_starts_with("marco", "mar"));
    assert!(str_starts_with("marco", ""));
    assert!(!str_starts_with("ma", "mar"));
    assert!(!str_starts_with("luca", "mar"));
}

#[test]
fn contacts_are_the_dms_starting_with_the_search() {
    let v = vec![conv(1, "dm", "Marco"), conv(2, "group", "Mare"), conv(3, "dm", "luca"), conv(4, "dm", "mario")];
    let ids: Vec<u128> = group_contacts(&v, "  MAR ").iter().map(|c| c.id).collect();
    assert_eq!(ids, vec![1, 4]);
    let all: Vec<u128> = group_contacts(&v, "   ").iter().map(|c| c.id).collect();
    assert_eq!(all, vec![1, 3, 4]);
}

#[test]
fn invitable_contacts_leave_out_members() {
    let v = vec![conv(1, "dm", "marco"), conv(3, "dm", "luca"), conv(4, "dm", "mario")];
    let ids: Vec<u128> = invite_contacts(&v, "", &vec![member("luca")]).iter().map(|c| c.id).collect();
    assert_eq!(ids, vec![1, 4]);
}

#[test]
fn searched_participant_is_checked_then_the_search_clears() {
    let mut s = state();
    s.ws.ws_status = WsStatus::Connected;
    s.data.conversations = Some(vec![conv(1, "dm", "marco")]);
    s.ui.create_group_popup.search_query = "mar".to_string();
    assert!(!s.can_add_searched_participant());
    s.ui.create_group_popup.search_query = " giulia ".to_string();
    assert!(s.can_add_searched_participant());
    s.add_searched_participant();
    assert_eq!(s.ui.create_group_popup.pending_user_verification.as_deref(), Some("giulia"));
    assert_eq!(s.pending.pending_user_check.as_deref(), Some("giulia"));
    assert!(s.ui.create_group_popup.search_query.is_empty());
    assert!(matches!(s.outgoing.last(), Some(Outgoing::CheckUser { username, .. }) if username == "giulia"));
}

#[test]
fn participants_tick_and_untick() {
    let mut s = state();
    s.set_participant_selected("bob".to_string(), true);
    s.set_participant_selected("eve".to_string(), true);
    s.set_participant_selected("bob".to_string(), true);
    assert_eq!(s.ui.create_group_popup.selected_participants, vec!["bob".to_string(), "eve".to_string()]);
    s.set_participant_selected("bob".to_string(), false);
    assert_eq!(s.ui.create_group_popup.selected_participants, vec!["eve".to_string()]);
    s.ui.create_group_popup.group_name = "  ".to_string();
    assert!(!s.can_create_group());
    s.ui.create_group_popup.group_name = "Team".to_string();
    assert!(s.can_create_group());
}

#[test]
fn member_cannot_be_invited_again() {
    let mut s = state();
    s.data.members_list.insert(9, vec![member("luca")]);
    s.ui.invite_popup.search_query = "luca".to_string();
    assert!(!s.can_add_searched_invitee(9));
    assert!(s.can_add_searched_invitee(10));
}

#[test]
fn invites_go_out_and_the_form_empties() {
    let mut s = state();
    s.ws.ws_status = WsStatus::Connected;
    s.send_invites(9);
    assert!(s.outgoing.is_empty());
    s.set_invitee_selected("bob".to_string(), true);
    s.set_invitee_selected("eve".to_string(), true);
    s.send_invites(9);
    match s.outgoing.last() {
        Some(Outgoing::InviteUser { cid, usernames }) => {
            assert_eq!(*cid, 9);
            assert_eq!(usernames, &vec!["bob".to_string(), "eve".to_string()]);
        }
        _ => panic!("expected an invitation"),
    }
    assert!(s.ui.invite_popup.selected_users.is_empty());
}

#[test]
fn dm_form_opens_an_existing_dm_ignoring_case() {
    let mut s = state();
    s.ws.ws_status = WsStatus::Connected;
    s.data.conversations = Some(vec![conv(1, "group", "bob"), conv(2, "dm", "Bob")]);
    s.submit_dm_form(" BOB ".to_string());
    assert!(matches!(s.ui_events.last(), Some(UiEvent::Opened(2))));
    s.submit_dm_form("   ".to_string());
    assert_eq!(s.ui_events.len(), 1);
    s.submit_dm_form("carla".to_string());
    assert!(matches!(s.outgoing.last(), Some(Outgoing::CheckUser { username, .. }) if username == "carla"));
}

#[test]
fn deletion_kinds_and_texts() {
    let mut s = state();
    s.session.user_id = Some(1);
    let g = conv(3, "group", "Team");
    assert_eq!(s.deletion_kind(&g), DeletionKind::DeleteGroup);
    s.session.user_id = Some(2);
    assert_eq!(s.deletion_kind(&g), DeletionKind::LeaveGroup);
    assert_eq!(s.deletion_kind(&conv(4, "dm", "bob")), DeletionKind::DeleteConversation);
    s.stubs.dm_stubs.insert(4, ("bob".to_string(), 0));
    assert_eq!(s.deletion_kind(&conv(4, "dm", "bob")), DeletionKind::LocalStub);
    let (title, question, _, button) = deletion_dialog(DeletionKind::LeaveGroup, "Team");
    assert_eq!(title, "Esci dal gruppo");
    assert_eq!(question, "Uscire dal gruppo \"Team\"?");
    assert_eq!(button, "Esci dal gruppo");
}

#[test]
fn unread_badges() {
    let mut s = state();
    s.data.conversation_unread_counts.insert(1, 0);
    s.data.conversation_unread_counts.insert(2, 7);
    s.data.conversation_unread_counts.insert(3, 120);
    assert_eq!(unread_badge(&s, 1), None);
    assert_eq!(unread_badge(&s, 2).as_deref(), Some("7"));
    assert_eq!(unread_badge(&s, 3).as_deref(), Some("99+"));
    assert_eq!(unread_badge(&s, 4), None);
}

#[test]
fn refresh_is_taken_only_when_logged_in() {
    let side = ConversationsSidebar::new();
    let mut s = state();
    s.data.request_conversations_refresh = true;
    assert!(side.auto_refresh_if_needed(&mut s).is_none());
    assert!(s.data.request_conversations_refresh);
    s.session.token = Some("tok".to_string());
    let r = side.auto_refresh_if_needed(&mut s).unwrap();
    assert_eq!(r.0, "http://localhost:3000");
    assert_eq!(r.1, "tok");
    assert!(!s.data.request_conversations_refresh);
}

#[test]
fn sending_shows_the_message_and_queues_it() {
    let mut s = state();
    s.session.user_id = Some(1);
    s.ws.ws_status = WsStatus::Connected;
    s.view.cid = Some(9);
    s.data.conversation_messages.insert(9, vec![]);
    s.view.input = "  ciao  ".to_string();
    s.send_message(9);
    assert!(s.view.input.is_empty());
    assert_eq!(s.view.messages.len(), 1);
    let m = &s.view.messages[0];
    assert_eq!(m.content, "ciao");
    assert_eq!(m.is_confirmed, Some(false));
    let key = m.client_msg_id.clone().unwrap();
    assert!(uuid::Uuid::parse_str(&key).is_ok());
    assert_eq!(s.pending.pending_confirmations.len(), 1);
    assert_eq!(s.pending.pending_confirmations[0].0, key);
    assert_eq!(s.data.conversation_messages.get(&9).unwrap().len(), 1);
    match s.outgoing.last() {
        Some(Outgoing::ChatMessage { cid, content, client_msg_id, .. }) => {
            assert_eq!(*cid, 9);
            assert_eq!(content, "ciao");
            assert_eq!(client_msg_id.as_deref(), Some(key.as_str()));
        }
        _ => panic!("expected a chat message"),
    }
    s.view.input = "   ".to_string();
    s.send_message(9);
    assert_eq!(s.view.messages.len(), 1);
}

#[test]
fn confirmation_ends_the_wait_of_a_sent_message() {
    let mut s = state();
    s.session.user_id = Some(1);
    s.ws.ws_status = WsStatus::Connected;
    s.view.cid = Some(9);
    s.view.input = "ciao".to_string();
    s.send_message(9);
    let key = s.pending.pending_confirmations[0].0.clone();
    ruggine::messages::MessageHandler::handle_message_confirmation(&mut s, key.clone(), 77, Some(4), "ok".to_string());
    assert!(s.pending.pending_confirmations.iter().all(|(k, _)| *k != key));
    assert_eq!(s.view.messages[0].id, 77);
    assert_eq!(s.view.messages[0].sequence_num, Some(4));
    assert_eq!(s.view.messages[0].is_confirmed, Some(true));
}
