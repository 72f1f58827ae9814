//! Decoding of the server's WebSocket frames into the events that the handlers take.
//! A frame is a JSON object whose `type` field names its kind; each kind is read into
//! zero, one or two events, with the fallbacks and defaults that the server's older
//! frames need (`cid` for `conversation_id`, `sequence` for `sequence_num`).
use crate::convlist::{most_recent_first, sort_most_recent_first};
use crate::external::{new_uuid, now_secs, parse_uuid, parsed_uuid};
use crate::json::{
    bool_at, bool_field, field, get, i64_at, i64_field, i64_of, items_in, items_of, kept, lemma_kept_all,
    lemma_kept_start, lemma_kept_step, opt, parse_json, parsed_json, str_at, text_field, text_is, text_view, u64_at,
    u64_field, u64_in, u64_of, uuid_at, uuid_field, uuid_in, uuid_of, JsonValue,
};
use crate::link::byte_len;
use crate::model::{ConversationDto, GapInfo, MessageDto, ParticipantInfo, UiEvent, UserEventData};
use crate::payload::{notification_data, notification_read};
use crate::server::{is_server_error, server_error};
use crate::text::{blank, is_blank, join2};
use vstd::prelude::*;

verus! {

/// Frames longer than this many bytes are dropped unread.
pub const MAX_FRAME_BYTES: usize = 100_000;

pub open spec fn or_text(o: Option<Seq<char>>, d: Seq<char>) -> Seq<char> {
    match o {
        Some(s) => s,
        None => d,
    }
}

pub open spec fn or_u64(o: Option<u64>, d: u64) -> u64 {
    match o {
        Some(x) => x,
        None => d,
    }
}

pub open spec fn or_i64(o: Option<i64>, d: i64) -> i64 {
    match o {
        Some(x) => x,
        None => d,
    }
}

pub open spec fn or_bool(o: Option<bool>, d: bool) -> bool {
    match o {
        Some(x) => x,
        None => d,
    }
}

/// The field `k` of an optional value.
pub open spec fn get_in(o: Option<JsonValue>, k: Seq<char>) -> Option<JsonValue> {
    match o {
        Some(x) => get(x, k),
        None => None,
    }
}

/// The conversation of a frame: its `conversation_id` field, or its `cid` field where
/// that is missing, read as a UUID.
pub open spec fn cid_at(v: JsonValue) -> Option<u128> {
    match get(v, "conversation_id"@) {
        Some(x) => uuid_of(Some(x)),
        None => uuid_at(v, "cid"@),
    }
}

/// A message value that reads as a message: it has the identifiers, the author, the
/// text and the creation time.
pub open spec fn msg_ok(m: JsonValue) -> bool {
    &&& uuid_at(m, "id"@) is Some
    &&& uuid_at(m, "author_id"@) is Some
    &&& str_at(m, "author_username"@) is Some
    &&& str_at(m, "content"@) is Some
    &&& i64_at(m, "created_at"@) is Some
}

/// The sequence of a message: its `sequence_num` field, or its `sequence` field where
/// that is missing.
pub open spec fn msg_seq(m: JsonValue) -> Option<u64> {
    match get(m, "sequence_num"@) {
        Some(x) => u64_of(Some(x)),
        None => u64_at(m, "sequence"@),
    }
}

/// `d` is the confirmed message of conversation `cid` read from `m`.
pub open spec fn msg_read(m: JsonValue, cid: u128, d: MessageDto) -> bool {
    &&& uuid_at(m, "id"@) == Some(d.id)
    &&& uuid_at(m, "author_id"@) == Some(d.author_id)
    &&& d.conversation_id == cid
    &&& str_at(m, "author_username"@) == Some(d.author_username@)
    &&& str_at(m, "content"@) == Some(d.content@)
    &&& i64_at(m, "created_at"@) == Some(d.created_at)
    &&& d.sequence_num == msg_seq(m)
    &&& text_view(d.client_msg_id) == str_at(m, "client_msg_id"@)
    &&& d.is_confirmed == Some(true)
}

pub open spec fn msg_ok_fn() -> spec_fn(JsonValue) -> bool {
    |m: JsonValue| msg_ok(m)
}

pub open spec fn msg_read_fn(cid: u128) -> spec_fn(JsonValue, MessageDto) -> bool {
    |m: JsonValue, d: MessageDto| msg_read(m, cid, d)
}

/// `out` holds the messages of `cid` read from `ms`, in order, leaving out those that do
/// not read as messages.
pub open spec fn msgs_read(ms: Seq<JsonValue>, cid: u128, out: Seq<MessageDto>) -> bool {
    kept(ms, msg_ok_fn(), msg_read_fn(cid), out)
}

/// A conversation value that reads as a conversation.
pub open spec fn conv_ok(c: JsonValue) -> bool {
    &&& i64_at(c, "created_at"@) is Some
    &&& uuid_at(c, "id"@) is Some
    &&& str_at(c, "kind"@) is Some
    &&& uuid_at(c, "owner_id"@) is Some
}

/// The title of a conversation: `display_title` first where `display_first`, then
/// `title`, else empty.
pub open spec fn conv_title(c: JsonValue, display_first: bool) -> Seq<char> {
    if display_first && str_at(c, "display_title"@) is Some {
        or_text(str_at(c, "display_title"@), Seq::empty())
    } else {
        or_text(str_at(c, "title"@), Seq::empty())
    }
}

/// `d` is the conversation read from `c`: its last activity is the later of its creation
/// and the creation of its last message.
pub open spec fn conv_read(c: JsonValue, display_first: bool, d: ConversationDto) -> bool {
    let lm = get(c, "last_message"@);
    let last_time = or_i64(i64_of(get_in(lm, "created_at"@)), 0);
    &&& uuid_at(c, "id"@) == Some(d.id)
    &&& str_at(c, "kind"@) == Some(d.kind@)
    &&& d.title@ == conv_title(c, display_first)
    &&& uuid_at(c, "owner_id"@) == Some(d.owner_id)
    &&& i64_at(c, "created_at"@) == Some(d.created_at)
    &&& d.last_read_sequence == or_i64(i64_at(c, "last_read_sequence"@), 0)
    &&& d.last_activity == (if d.created_at >= last_time { d.created_at } else { last_time })
    &&& d.last_msg_seq == or_i64(i64_of(get_in(lm, "sequence_num"@)), 0)
}

pub open spec fn conv_ok_fn() -> spec_fn(JsonValue) -> bool {
    |c: JsonValue| conv_ok(c)
}

pub open spec fn conv_read_fn() -> spec_fn(JsonValue, ConversationDto) -> bool {
    |c: JsonValue, d: ConversationDto| conv_read(c, false, d)
}

/// The user event of a notification frame.
pub open spec fn notification_event(e: UiEvent, seq: u64, t: Seq<char>, data: JsonValue, cid: Option<u128>) -> bool {
    e matches UiEvent::UserNotification { sequence, event_type, event_data, conversation_id, recovery }
        && sequence == seq && event_type@ == t && notification_read(data, event_data) && conversation_id == cid
        && !recovery
}

/// A `chat_message` frame that reads as a message: a non-blank text, identifiers and a
/// conversation.
pub open spec fn chat_ok(v: JsonValue) -> bool {
    &&& str_at(v, "content"@) is Some
    &&& !blank(str_at(v, "content"@)->Some_0)
    &&& uuid_at(v, "id"@) is Some
    &&& uuid_at(v, "author_id"@) is Some
    &&& cid_at(v) is Some
}

pub open spec fn chat_read(v: JsonValue, now_secs: i64, m: MessageDto) -> bool {
    &&& uuid_at(v, "id"@) == Some(m.id)
    &&& uuid_at(v, "author_id"@) == Some(m.author_id)
    &&& cid_at(v) == Some(m.conversation_id)
    &&& m.author_username@ == or_text(str_at(v, "author_username"@), "unknown"@)
    &&& str_at(v, "content"@) == Some(m.content@)
    &&& m.created_at == or_i64(i64_at(v, "created_at"@), now_secs)
    &&& m.sequence_num == u64_at(v, "sequence"@)
    &&& m.client_msg_id is None
    &&& m.is_confirmed == Some(true)
}

pub open spec fn chat_events(v: JsonValue, now_secs: i64, out: Seq<UiEvent>) -> bool {
    if chat_ok(v) {
        out[0] matches UiEvent::WsIncoming(m) && chat_read(v, now_secs, m) && out.len() == 1
    } else {
        out.len() == 0
    }
}

pub open spec fn new_message_events(v: JsonValue, out: Seq<UiEvent>) -> bool {
    match get(v, "message"@) {
        Some(m) => out.len() == 1 && notification_event(
            out[0],
            or_u64(u64_at(v, "sequence"@), 0),
            "new_message"@,
            m,
            uuid_at(v, "conversation_id"@),
        ),
        None => out.len() == 0,
    }
}

pub open spec fn conversation_messages_events(v: JsonValue, out: Seq<UiEvent>) -> bool {
    match uuid_at(v, "conversation_id"@) {
        Some(cid) => out[0] matches UiEvent::ConversationMessagesReceived { conversation_id, messages, has_more }
            && conversation_id == cid && msgs_read(items_of(get(v, "messages"@)), cid, messages@)
            && has_more == or_bool(bool_at(v, "has_more"@), false) && out.len() == 1,
        None => out.len() == 0,
    }
}

pub open spec fn messages_resume_events(v: JsonValue, out: Seq<UiEvent>) -> bool {
    match uuid_at(v, "conversation_id"@) {
        Some(cid) => out[0] matches UiEvent::MessagesResume { conversation_id, messages }
            && conversation_id == cid && msgs_read(items_of(get(v, "messages"@)), cid, messages@) && out.len() == 1,
        None => out.len() == 0,
    }
}

/// The messages carried with a completed conversation: its last message, when it reads
/// as one.
pub open spec fn complete_messages(c: JsonValue, cid: u128, ms: Seq<MessageDto>) -> bool {
    match get(c, "last_message"@) {
        Some(m) => if msg_ok(m) { ms.len() == 1 && msg_read(m, cid, ms[0]) } else { ms.len() == 0 },
        None => ms.len() == 0,
    }
}

pub open spec fn created_complete_events(v: JsonValue, out: Seq<UiEvent>) -> bool {
    let c = get(v, "conversation"@);
    if c is Some && conv_ok(c->Some_0) {
        let cv = c->Some_0;
        let seq = or_u64(u64_at(v, "sequence"@), 0);
        out.len() == 1 && if seq > 0 {
            notification_event(out[0], seq, "conversation_created_complete"@, v, uuid_at(cv, "id"@))
        } else {
            out[0] matches UiEvent::ConversationCompleteFetched(d, ms) && conv_read(cv, true, d)
                && complete_messages(cv, d.id, ms@)
        }
    } else {
        out.len() == 0
    }
}

/// The data of a `user_notification` frame: its `event_data` field, or the whole frame.
pub open spec fn event_data_of(v: JsonValue) -> JsonValue {
    match get(v, "event_data"@) {
        Some(d) => d,
        None => v,
    }
}

pub open spec fn user_notification_events(v: JsonValue, out: Seq<UiEvent>) -> bool {
    out.len() == 1 && notification_event(
        out[0],
        or_u64(u64_at(v, "sequence"@), 0),
        or_text(str_at(v, "event_type"@), "unknown"@),
        event_data_of(v),
        uuid_at(v, "conversation_id"@),
    )
}

/// The gap that a pong reports, when all its fields are there.
pub open spec fn gap_of(o: Option<JsonValue>) -> Option<GapInfo> {
    match o {
        Some(g) => if bool_at(g, "detected"@) is Some && u64_at(g, "client_seq"@) is Some && u64_at(g, "server_seq"@) is Some
            && u64_at(g, "gap_size"@) is Some {
            Some(
                GapInfo {
                    detected: bool_at(g, "detected"@)->Some_0,
                    client_seq: u64_at(g, "client_seq"@)->Some_0,
                    server_seq: u64_at(g, "server_seq"@)->Some_0,
                    gap_size: u64_at(g, "gap_size"@)->Some_0,
                },
            )
        } else {
            None
        },
        None => None,
    }
}

pub open spec fn pong_events(v: JsonValue, out: Seq<UiEvent>) -> bool {
    out[0] matches UiEvent::PongReceived { current_user_sequence, gaps_detected, user_events_gap }
        && current_user_sequence == or_u64(u64_at(v, "current_user_sequence"@), 0)
        && gaps_detected == or_bool(bool_at(v, "gaps_detected"@), false)
        && user_events_gap == gap_of(get(v, "user_events_gap"@)) && out.len() == 1
}

pub open spec fn fetch_events(v: JsonValue, out: Seq<UiEvent>) -> bool {
    match cid_at(v) {
        Some(cid) => out[0] matches UiEvent::TriggerConversationFetch(c, r) && c == cid
            && r@ == "fetch_event_"@ + or_text(str_at(v, "reason"@), "unknown"@) && out.len() == 1,
        None => out.len() == 0,
    }
}

/// A replayed user event that has its sequence, type and creation time.
pub open spec fn user_event_ok(e: JsonValue) -> bool {
    &&& u64_at(e, "sequence"@) is Some
    &&& str_at(e, "event_type"@) is Some
    &&& i64_at(e, "created_at"@) is Some
}

pub open spec fn user_event_read(e: JsonValue, d: UserEventData) -> bool {
    &&& u64_at(e, "sequence"@) == Some(d.sequence)
    &&& str_at(e, "event_type"@) == Some(d.event_type@)
    &&& notification_read(
        match get(e, "event_data"@) {
            Some(x) => x,
            None => JsonValue::Null,
        },
        d.event_data,
    )
    &&& d.conversation_id == uuid_at(e, "conversation_id"@)
    &&& i64_at(e, "created_at"@) == Some(d.created_at)
}

pub open spec fn user_event_ok_fn() -> spec_fn(JsonValue) -> bool {
    |e: JsonValue| user_event_ok(e)
}

pub open spec fn user_event_read_fn() -> spec_fn(JsonValue, UserEventData) -> bool {
    |e: JsonValue, d: UserEventData| user_event_read(e, d)
}

pub open spec fn user_events_resume_events(v: JsonValue, out: Seq<UiEvent>) -> bool {
    out[0] matches UiEvent::UserEventsResume { events }
        && kept(items_of(get(v, "events"@)), user_event_ok_fn(), user_event_read_fn(), events@) && out.len() == 1
}

pub open spec fn confirmation_events(v: JsonValue, out: Seq<UiEvent>) -> bool {
    if str_at(v, "client_msg_id"@) is Some && uuid_at(v, "server_msg_id"@) is Some {
        out[0] matches UiEvent::MessageConfirmation { client_msg_id, server_msg_id, sequence, status }
            && str_at(v, "client_msg_id"@) == Some(client_msg_id@) && uuid_at(v, "server_msg_id"@) == Some(server_msg_id)
            && sequence == u64_at(v, "sequence"@) && status@ == or_text(str_at(v, "status"@), "unknown"@)
            && out.len() == 1
    } else {
        out.len() == 0
    }
}

/// The count of a resume-complete frame: `events_count`, or `messages_count` where that
/// is missing.
pub open spec fn resume_count(v: JsonValue) -> u64 {
    or_u64(
        u64_of(
            match get(v, "events_count"@) {
                Some(x) => Some(x),
                None => get(v, "messages_count"@),
            },
        ),
        0,
    )
}

pub open spec fn resume_complete_events(v: JsonValue, user: bool, out: Seq<UiEvent>) -> bool {
    if resume_count(v) == 0 {
        out[0] matches UiEvent::Info(s) && s@ == (if user {
            "No user to resume"@
        } else {
            "No messages to resume"@
        }) && out.len() == 1
    } else {
        out.len() == 0
    }
}

pub open spec fn conversation_created_events(v: JsonValue, out: Seq<UiEvent>) -> bool {
    match cid_at(v) {
        Some(cid) => out.len() == 1 && match u64_at(v, "sequence"@) {
            Some(s) => notification_event(out[0], s, "conversation_created"@, v, Some(cid)),
            None => out[0] matches UiEvent::ConversationCreated(c) && c == cid,
        },
        None => out.len() == 0,
    }
}

pub open spec fn conversation_deleted_events(v: JsonValue, out: Seq<UiEvent>) -> bool {
    match uuid_at(v, "conversation_id"@) {
        Some(cid) => match u64_at(v, "sequence"@) {
            Some(s) => out[1] matches UiEvent::ConversationDeleted(c) && c == cid && out.len() == 2
                && notification_event(out[0], s, "conversation_deleted"@, v, Some(cid)),
            None => out[0] matches UiEvent::ConversationDeleted(c) && c == cid && out.len() == 1,
        },
        None => out.len() == 0,
    }
}

pub open spec fn member_added_events(v: JsonValue, out: Seq<UiEvent>) -> bool {
    match cid_at(v) {
        Some(cid) => out[1] matches UiEvent::Info(s)
            && s@ == or_text(str_at(v, "username"@), "Unknown"@) + " è stato aggiunto al gruppo"@ && out.len() == 2
            && notification_event(out[0], or_u64(u64_at(v, "sequence"@), 0), "member_added"@, v, Some(cid)),
        None => out.len() == 0,
    }
}

pub open spec fn leave_ack_events(v: JsonValue, out: Seq<UiEvent>) -> bool {
    match cid_at(v) {
        Some(cid) => out[0] matches UiEvent::ConversationDeleted(c) && c == cid && out.len() == 1,
        None => out.len() == 0,
    }
}

pub open spec fn error_events(v: JsonValue, out: Seq<UiEvent>) -> bool {
    out[0] matches UiEvent::Error(e) && is_server_error(
        e,
        or_text(str_at(v, "error_code"@), "unknown"@),
        or_text(str_at(v, "message"@), "Errore sconosciuto"@),
    ) && out.len() == 1
}

pub open spec fn warning_events(v: JsonValue, out: Seq<UiEvent>) -> bool {
    out[0] matches UiEvent::Info(s) && s@ == "Attenzione: "@ + or_text(str_at(v, "message"@), "Warning dal server"@)
        && out.len() == 1
}

pub open spec fn message_deleted_events(v: JsonValue, out: Seq<UiEvent>) -> bool {
    if uuid_at(v, "message_id"@) is Some && uuid_at(v, "conversation_id"@) is Some {
        out[0] matches UiEvent::MessageDeleted { message_id, conversation_id } && uuid_at(v, "message_id"@) == Some(message_id)
            && uuid_at(v, "conversation_id"@) == Some(conversation_id) && out.len() == 1
    } else {
        out.len() == 0
    }
}

pub open spec fn check_user_events(v: JsonValue, out: Seq<UiEvent>) -> bool {
    out[0] matches UiEvent::UserCheckResult { username, exists, user_id, request_id }
        && out.len() == 1 && username@ == or_text(str_at(v, "username"@), Seq::empty()) && exists == or_bool(bool_at(v, "exists"@), false)
        && user_id == uuid_at(v, "user_id"@) && request_id@ == or_text(str_at(v, "request_id"@), Seq::empty())
}

/// A member entry of an initial state that reads as a participant.
pub open spec fn member_ok(m: JsonValue) -> bool {
    uuid_at(m, "user_id"@) is Some && str_at(m, "username"@) is Some && str_at(m, "role"@) is Some
}

pub open spec fn member_read(m: JsonValue, q: ParticipantInfo) -> bool {
    uuid_at(m, "user_id"@) == Some(q.user_id) && str_at(m, "username"@) == Some(q.username@) && str_at(m, "role"@)
        == Some(q.role@)
}

pub open spec fn member_ok_fn() -> spec_fn(JsonValue) -> bool {
    |m: JsonValue| member_ok(m)
}

pub open spec fn member_read_fn() -> spec_fn(JsonValue, ParticipantInfo) -> bool {
    |m: JsonValue, q: ParticipantInfo| member_read(m, q)
}

/// An entry of `members_by_conversation`: its key is a UUID and its value a list.
pub open spec fn member_list_ok(en: (String, JsonValue)) -> bool {
    parsed_uuid(en.0@) is Some && en.1 is Array
}

pub open spec fn member_list_read(en: (String, JsonValue), p: (u128, Vec<ParticipantInfo>)) -> bool {
    parsed_uuid(en.0@) == Some(p.0) && kept(items_of(Some(en.1)), member_ok_fn(), member_read_fn(), p.1@)
}

pub open spec fn member_list_ok_fn() -> spec_fn((String, JsonValue)) -> bool {
    |en: (String, JsonValue)| member_list_ok(en)
}

pub open spec fn member_list_read_fn() -> spec_fn((String, JsonValue), (u128, Vec<ParticipantInfo>)) -> bool {
    |en: (String, JsonValue), p: (u128, Vec<ParticipantInfo>)| member_list_read(en, p)
}

/// The member lists of an initial state: present only when `members_by_conversation`
/// is an object.
pub open spec fn member_map_read(o: Option<JsonValue>, r: Option<Vec<(u128, Vec<ParticipantInfo>)>>) -> bool {
    match o {
        Some(JsonValue::Object(es)) => r matches Some(l) && kept(es@, member_list_ok_fn(), member_list_read_fn(), l@),
        _ => r is None,
    }
}

/// A conversation of an initial state that carries a last message.
pub open spec fn last_update_ok(c: JsonValue) -> bool {
    get(c, "last_message"@) is Some && uuid_at(c, "id"@) is Some
}

/// The update of the last message of conversation `c`: each missing field takes its
/// default, and a message without an identifier gets a fresh one.
pub open spec fn last_update_read(c: JsonValue, e: UiEvent) -> bool {
    let m = get(c, "last_message"@)->Some_0;
    e matches UiEvent::LastMessageUpdate { conversation_id, message } && uuid_at(c, "id"@) == Some(conversation_id)
        && (uuid_at(m, "id"@) is Some ==> uuid_at(m, "id"@) == Some(message.id)) && message.author_id == (match uuid_at(
        m,
        "author_id"@,
    ) {
        Some(x) => x,
        None => 0,
    }) && message.conversation_id == conversation_id && message.author_username@ == or_text(
        str_at(m, "author_username"@),
        "unknown"@,
    ) && message.content@ == or_text(str_at(m, "content"@), Seq::empty()) && message.created_at == or_i64(
        i64_at(m, "created_at"@),
        0,
    ) && message.sequence_num == (match i64_at(m, "sequence_num"@) {
        Some(x) => Some(#[verifier::truncate] (x as u64)),
        None => None,
    }) && message.client_msg_id is None && message.is_confirmed == Some(true)
}

pub open spec fn last_update_ok_fn() -> spec_fn(JsonValue) -> bool {
    |c: JsonValue| last_update_ok(c)
}

pub open spec fn last_update_read_fn() -> spec_fn(JsonValue, UiEvent) -> bool {
    |c: JsonValue, e: UiEvent| last_update_read(c, e)
}

/// An initial state: the conversations that read as such, most recent first, the user
/// sequence and the member lists, then one update for each conversation that carries a
/// last message.
pub open spec fn initial_state_events(v: JsonValue, out: Seq<UiEvent>) -> bool {
    let raw = items_of(get(v, "conversations"@));
    &&& out.len() >= 1
    &&& out[0] matches UiEvent::InitialStateReceived { conversations, user_sequence, members_by_conversation }
        && (exists|cs: Seq<ConversationDto>| #[trigger] kept(raw, conv_ok_fn(), conv_read_fn(), cs) && conversations@
        == most_recent_first(cs)) && user_sequence == or_u64(u64_at(v, "user_sequence"@), 0) && member_map_read(
        get(v, "members_by_conversation"@),
        members_by_conversation,
    )
    &&& kept(raw, last_update_ok_fn(), last_update_read_fn(), out.drop_first())
}

/// The events of a frame whose JSON value is `v`, read at `now_secs` (the time given to a
/// chat message without one).
pub open spec fn frame_events_ok(v: JsonValue, now_secs: i64, out: Seq<UiEvent>) -> bool {
    match str_at(v, "type"@) {
        None => out.len() == 0,
        Some(t) => if t == "chat_message"@ {
            chat_events(v, now_secs, out)
        } else if t == "message"@ || t == "new_message"@ {
            new_message_events(v, out)
        } else if t == "initial_state"@ {
            initial_state_events(v, out)
        } else if t == "conversation_messages"@ {
            conversation_messages_events(v, out)
        } else if t == "conversation_created_complete"@ {
            created_complete_events(v, out)
        } else if t == "user_notification"@ || t == "user_event"@ {
            user_notification_events(v, out)
        } else if t == "pong"@ {
            pong_events(v, out)
        } else if t == "fetch_conversation_messages"@ {
            fetch_events(v, out)
        } else if t == "user_events_resume"@ {
            user_events_resume_events(v, out)
        } else if t == "messages_resume"@ {
            messages_resume_events(v, out)
        } else if t == "message_confirmation"@ {
            confirmation_events(v, out)
        } else if t == "user_resume_complete"@ {
            resume_complete_events(v, true, out)
        } else if t == "messages_resume_complete"@ {
            resume_complete_events(v, false, out)
        } else if t == "conversation_created"@ {
            conversation_created_events(v, out)
        } else if t == "conversation_deleted"@ {
            conversation_deleted_events(v, out)
        } else if t == "member_added"@ {
            member_added_events(v, out)
        } else if t == "leave_group_ack"@ {
            leave_ack_events(v, out)
        } else if t == "error"@ {
            error_events(v, out)
        } else if t == "warning"@ {
            warning_events(v, out)
        } else if t == "message_deleted"@ {
            message_deleted_events(v, out)
        } else if t == "check_user_response"@ {
            check_user_events(v, out)
        } else if t == "account_deleted_confirm"@ {
            out.len() == 1 && out[0] is LoggedOut
        } else {
            out.len() == 0
        },
    }
}

fn one(e: UiEvent) -> (r: Vec<UiEvent>)
    ensures
        r@ == seq![e],
{
    let mut v = Vec::new();
    v.push(e);
    v
}

fn two(a: UiEvent, b: UiEvent) -> (r: Vec<UiEvent>)
    ensures
        r@ == seq![a, b],
{
    let mut v = Vec::new();
    v.push(a);
    v.push(b);
    v
}

fn lit(s: &str) -> (r: String)
    ensures
        r@ == s@,
{
    String::from_str(s)
}

fn text_or(o: Option<String>, d: &str) -> (r: String)
    ensures
        r@ == or_text(text_view(o), d@),
{
    match o {
        Some(s) => s,
        None => String::from_str(d),
    }
}

fn text_or_empty(o: Option<String>) -> (r: String)
    ensures
        r@ == or_text(text_view(o), Seq::empty()),
{
    match o {
        Some(s) => s,
        None => String::new(),
    }
}

fn or_zero(o: Option<u64>) -> (r: u64)
    ensures
        r == or_u64(o, 0),
{
    match o {
        Some(x) => x,
        None => 0,
    }
}

fn conversation_of(v: &JsonValue) -> (r: Option<u128>)
    ensures
        r == cid_at(*v),
{
    match field(v, "conversation_id") {
        Some(x) => uuid_in(Some(x)),
        None => uuid_field(v, "cid"),
    }
}

/// Reads the confirmed message of conversation `cid` from `m`.
fn message_in(m: &JsonValue, cid: u128) -> (r: Option<MessageDto>)
    ensures
        r is Some <==> msg_ok(*m),
        r matches Some(d) ==> msg_read(*m, cid, d),
{
    let sequence_num = match field(m, "sequence_num") {
        Some(x) => u64_in(Some(x)),
        None => u64_field(m, "sequence"),
    };
    match (
        uuid_field(m, "id"),
        uuid_field(m, "author_id"),
        text_field(m, "author_username"),
        text_field(m, "content"),
        i64_field(m, "created_at"),
    ) {
        (Some(id), Some(author_id), Some(author_username), Some(content), Some(created_at)) => Some(
            MessageDto {
                id,
                author_id,
                conversation_id: cid,
                author_username,
                content,
                created_at,
                sequence_num,
                client_msg_id: text_field(m, "client_msg_id"),
                is_confirmed: Some(true),
            },
        ),
        _ => None,
    }
}

/// The messages of conversation `cid` in the `messages` list of `v`.
fn messages_of(v: &JsonValue, cid: u128) -> (r: Vec<MessageDto>)
    ensures
        msgs_read(items_of(get(*v, "messages"@)), cid, r@),
{
    let items = items_in(field(v, "messages"));
    let mut out: Vec<MessageDto> = Vec::new();
    let mut i: usize = 0;
    proof {
        lemma_kept_start(items@, msg_ok_fn(), msg_read_fn(cid));
    }
    while i < items.len()
        invariant
            i <= items@.len(),
            kept(items@.take(i as int), msg_ok_fn(), msg_read_fn(cid), out@),
        decreases items.len() - i,
    {
        let r = message_in(&items[i], cid);
        proof {
            lemma_kept_step(items@, msg_ok_fn(), msg_read_fn(cid), out@, i as int, r);
        }
        if let Some(d) = r {
            out.push(d);
        }
        i = i + 1;
    }
    proof {
        lemma_kept_all(items@, msg_ok_fn(), msg_read_fn(cid), out@);
    }
    out
}

/// Reads a conversation; its title is `display_title` first where `display_first`.
fn conversation_in(c: &JsonValue, display_first: bool) -> (r: Option<ConversationDto>)
    ensures
        r is Some <==> conv_ok(*c),
        r matches Some(d) ==> conv_read(*c, display_first, d),
{
    let lm = field(c, "last_message");
    let last_time: i64 = match lm {
        Some(m) => match i64_field(m, "created_at") {
            Some(t) => t,
            None => 0,
        },
        None => 0,
    };
    let last_msg_seq: i64 = match lm {
        Some(m) => match i64_field(m, "sequence_num") {
            Some(t) => t,
            None => 0,
        },
        None => 0,
    };
    let title = if display_first {
        match text_field(c, "display_title") {
            Some(t) => t,
            None => text_or_empty(text_field(c, "title")),
        }
    } else {
        text_or_empty(text_field(c, "title"))
    };
    match (uuid_field(c, "id"), text_field(c, "kind"), uuid_field(c, "owner_id"), i64_field(c, "created_at")) {
        (Some(id), Some(kind), Some(owner_id), Some(created_at)) => Some(
            ConversationDto {
                id,
                kind,
                title,
                owner_id,
                created_at,
                last_read_sequence: match i64_field(c, "last_read_sequence") {
                    Some(x) => x,
                    None => 0,
                },
                last_activity: if created_at >= last_time { created_at } else { last_time },
                last_msg_seq,
            },
        ),
        _ => None,
    }
}

fn gap_in(o: Option<&JsonValue>) -> (r: Option<GapInfo>)
    ensures
        r == gap_of(opt(o)),
{
    match o {
        Some(g) => match (
            bool_field(g, "detected"),
            u64_field(g, "client_seq"),
            u64_field(g, "server_seq"),
            u64_field(g, "gap_size"),
        ) {
            (Some(detected), Some(client_seq), Some(server_seq), Some(gap_size)) => Some(
                GapInfo { detected, client_seq, server_seq, gap_size },
            ),
            _ => None,
        },
        None => None,
    }
}

fn notification(seq: u64, t: String, data: &JsonValue, cid: Option<u128>) -> (r: UiEvent)
    ensures
        notification_event(r, seq, t@, *data, cid),
{
    UiEvent::UserNotification {
        sequence: seq,
        event_type: t,
        event_data: notification_data(data),
        conversation_id: cid,
        recovery: false,
    }
}

fn chat_message(v: &JsonValue, now_secs: i64) -> (r: Vec<UiEvent>)
    ensures
        chat_events(*v, now_secs, r@),
{
    let content = text_field(v, "content");
    let ok_text = match &content {
        Some(c) => !is_blank(c.as_str()),
        None => false,
    };
    if !ok_text {
        return Vec::new();
    }
    match (content, uuid_field(v, "id"), uuid_field(v, "author_id"), conversation_of(v)) {
        (Some(content), Some(id), Some(author_id), Some(cid)) => {
            let m = MessageDto {
                id,
                author_id,
                conversation_id: cid,
                author_username: text_or(text_field(v, "author_username"), "unknown"),
                content,
                created_at: match i64_field(v, "created_at") {
                    Some(t) => t,
                    None => now_secs,
                },
                sequence_num: u64_field(v, "sequence"),
                client_msg_id: None,
                is_confirmed: Some(true),
            };
            one(UiEvent::WsIncoming(m))
        },
        _ => Vec::new(),
    }
}

fn created_complete(v: &JsonValue) -> (r: Vec<UiEvent>)
    ensures
        created_complete_events(*v, r@),
{
    let c = match field(v, "conversation") {
        Some(c) => c,
        None => return Vec::new(),
    };
    let conv = match conversation_in(c, true) {
        Some(d) => d,
        None => return Vec::new(),
    };
    let seq = or_zero(u64_field(v, "sequence"));
    if seq > 0 {
        return one(notification(seq, lit("conversation_created_complete"), v, Some(conv.id)));
    }
    let mut messages: Vec<MessageDto> = Vec::new();
    if let Some(m) = field(c, "last_message") {
        if let Some(msg) = message_in(m, conv.id) {
            messages.push(msg);
        }
    }
    one(UiEvent::ConversationCompleteFetched(conv, messages))
}

fn user_event_in(e: &JsonValue) -> (r: Option<UserEventData>)
    ensures
        r is Some <==> user_event_ok(*e),
        r matches Some(d) ==> user_event_read(*e, d),
{
    let event_data = match field(e, "event_data") {
        Some(x) => notification_data(x),
        None => notification_data(&JsonValue::Null),
    };
    match (u64_field(e, "sequence"), text_field(e, "event_type"), i64_field(e, "created_at")) {
        (Some(sequence), Some(event_type), Some(created_at)) => Some(
            UserEventData { sequence, event_type, event_data, conversation_id: uuid_field(e, "conversation_id"), created_at },
        ),
        _ => None,
    }
}

fn user_events(v: &JsonValue) -> (r: Vec<UserEventData>)
    ensures
        kept(items_of(get(*v, "events"@)), user_event_ok_fn(), user_event_read_fn(), r@),
{
    let items = items_in(field(v, "events"));
    let mut out: Vec<UserEventData> = Vec::new();
    let mut i: usize = 0;
    proof {
        lemma_kept_start(items@, user_event_ok_fn(), user_event_read_fn());
    }
    while i < items.len()
        invariant
            i <= items@.len(),
            kept(items@.take(i as int), user_event_ok_fn(), user_event_read_fn(), out@),
        decreases items.len() - i,
    {
        let r = user_event_in(&items[i]);
        proof {
            lemma_kept_step(items@, user_event_ok_fn(), user_event_read_fn(), out@, i as int, r);
        }
        if let Some(d) = r {
            out.push(d);
        }
        i = i + 1;
    }
    proof {
        lemma_kept_all(items@, user_event_ok_fn(), user_event_read_fn(), out@);
    }
    out
}

fn member_in(m: &JsonValue) -> (r: Option<ParticipantInfo>)
    ensures
        r is Some <==> member_ok(*m),
        r matches Some(q) ==> member_read(*m, q),
{
    match (uuid_field(m, "user_id"), text_field(m, "username"), text_field(m, "role")) {
        (Some(user_id), Some(username), Some(role)) => Some(ParticipantInfo { user_id, username, role }),
        _ => None,
    }
}

fn members_in(a: &Vec<JsonValue>) -> (r: Vec<ParticipantInfo>)
    ensures
        kept(a@, member_ok_fn(), member_read_fn(), r@),
{
    let mut out: Vec<ParticipantInfo> = Vec::new();
    let mut i: usize = 0;
    proof {
        lemma_kept_start(a@, member_ok_fn(), member_read_fn());
    }
    while i < a.len()
        invariant
            i <= a@.len(),
            kept(a@.take(i as int), member_ok_fn(), member_read_fn(), out@),
        decreases a.len() - i,
    {
        let r = member_in(&a[i]);
        proof {
            lemma_kept_step(a@, member_ok_fn(), member_read_fn(), out@, i as int, r);
        }
        if let Some(q) = r {
            out.push(q);
        }
        i = i + 1;
    }
    proof {
        lemma_kept_all(a@, member_ok_fn(), member_read_fn(), out@);
    }
    out
}

fn member_list_in(en: &(String, JsonValue)) -> (r: Option<(u128, Vec<ParticipantInfo>)>)
    ensures
        r is Some <==> member_list_ok(*en),
        r matches Some(p) ==> member_list_read(*en, p),
{
    match (parse_uuid(en.0.as_str()), &en.1) {
        (Some(cid), JsonValue::Array(a)) => Some((cid, members_in(a))),
        _ => None,
    }
}

fn member_lists(es: &Vec<(String, JsonValue)>) -> (r: Vec<(u128, Vec<ParticipantInfo>)>)
    ensures
        kept(es@, member_list_ok_fn(), member_list_read_fn(), r@),
{
    let mut out: Vec<(u128, Vec<ParticipantInfo>)> = Vec::new();
    let mut i: usize = 0;
    proof {
        lemma_kept_start(es@, member_list_ok_fn(), member_list_read_fn());
    }
    while i < es.len()
        invariant
            i <= es@.len(),
            kept(es@.take(i as int), member_list_ok_fn(), member_list_read_fn(), out@),
        decreases es.len() - i,
    {
        let r = member_list_in(&es[i]);
        proof {
            lemma_kept_step(es@, member_list_ok_fn(), member_list_read_fn(), out@, i as int, r);
        }
        if let Some(p) = r {
            out.push(p);
        }
        i = i + 1;
    }
    proof {
        lemma_kept_all(es@, member_list_ok_fn(), member_list_read_fn(), out@);
    }
    out
}

fn member_map(o: Option<&JsonValue>) -> (r: Option<Vec<(u128, Vec<ParticipantInfo>)>>)
    ensures
        member_map_read(opt(o), r),
{
    match o {
        Some(JsonValue::Object(es)) => Some(member_lists(es)),
        _ => None,
    }
}

fn last_update_in(c: &JsonValue) -> (r: Option<UiEvent>)
    ensures
        r is Some <==> last_update_ok(*c),
        r matches Some(e) ==> last_update_read(*c, e),
{
    match (field(c, "last_message"), uuid_field(c, "id")) {
        (Some(m), Some(cid)) => {
            let id = match uuid_field(m, "id") {
                Some(x) => x,
                None => new_uuid(),
            };
            let message = MessageDto {
                id,
                author_id: match uuid_field(m, "author_id") {
                    Some(x) => x,
                    None => 0,
                },
                conversation_id: cid,
                author_username: text_or(text_field(m, "author_username"), "unknown"),
                content: text_or_empty(text_field(m, "content")),
                created_at: match i64_field(m, "created_at") {
                    Some(t) => t,
                    None => 0,
                },
                sequence_num: match i64_field(m, "sequence_num") {
                    Some(x) => Some(#[verifier::truncate] (x as u64)),
                    None => None,
                },
                client_msg_id: None,
                is_confirmed: Some(true),
            };
            Some(UiEvent::LastMessageUpdate { conversation_id: cid, message })
        },
        _ => None,
    }
}

fn initial_state(v: &JsonValue) -> (r: Vec<UiEvent>)
    ensures
        initial_state_events(*v, r@),
{
    let raw = items_in(field(v, "conversations"));
    let mut convs: Vec<ConversationDto> = Vec::new();
    let mut i: usize = 0;
    proof {
        lemma_kept_start(raw@, conv_ok_fn(), conv_read_fn());
    }
    while i < raw.len()
        invariant
            i <= raw@.len(),
            kept(raw@.take(i as int), conv_ok_fn(), conv_read_fn(), convs@),
        decreases raw.len() - i,
    {
        let r = conversation_in(&raw[i], false);
        proof {
            lemma_kept_step(raw@, conv_ok_fn(), conv_read_fn(), convs@, i as int, r);
        }
        if let Some(d) = r {
            convs.push(d);
        }
        i = i + 1;
    }
    proof {
        lemma_kept_all(raw@, conv_ok_fn(), conv_read_fn(), convs@);
    }
    let ghost cs = convs@;
    let conversations = sort_most_recent_first(convs);
    let first = UiEvent::InitialStateReceived {
        conversations,
        user_sequence: or_zero(u64_field(v, "user_sequence")),
        members_by_conversation: member_map(field(v, "members_by_conversation")),
    };
    let ghost first_v = first;
    let mut out = one(first);
    assert(kept(raw@, conv_ok_fn(), conv_read_fn(), cs));
    let mut j: usize = 0;
    proof {
        lemma_kept_start(raw@, last_update_ok_fn(), last_update_read_fn());
        assert(out@.drop_first() =~= Seq::<UiEvent>::empty());
    }
    while j < raw.len()
        invariant
            j <= raw@.len(),
            out@.len() >= 1,
            out@[0] == first_v,
            kept(raw@.take(j as int), last_update_ok_fn(), last_update_read_fn(), out@.drop_first()),
        decreases raw.len() - j,
    {
        let r = last_update_in(&raw[j]);
        proof {
            lemma_kept_step(raw@, last_update_ok_fn(), last_update_read_fn(), out@.drop_first(), j as int, r);
        }
        if let Some(e) = r {
            let ghost before = out@;
            out.push(e);
            proof {
                assert(out@.drop_first() =~= before.drop_first().push(e));
            }
        }
        j = j + 1;
    }
    proof {
        lemma_kept_all(raw@, last_update_ok_fn(), last_update_read_fn(), out@.drop_first());
    }
    out
}


fn new_message(v: &JsonValue) -> (r: Vec<UiEvent>)
    ensures
        new_message_events(*v, r@),
{
    match field(v, "message") {
        Some(m) => one(notification(or_zero(u64_field(v, "sequence")), lit("new_message"), m, uuid_field(v, "conversation_id"))),
        None => Vec::new(),
    }
}

fn conversation_messages(v: &JsonValue) -> (r: Vec<UiEvent>)
    ensures
        conversation_messages_events(*v, r@),
{
    match uuid_field(v, "conversation_id") {
        Some(cid) => one(
            UiEvent::ConversationMessagesReceived {
                conversation_id: cid,
                messages: messages_of(v, cid),
                has_more: match bool_field(v, "has_more") {
                    Some(b) => b,
                    None => false,
                },
            },
        ),
        None => Vec::new(),
    }
}

fn messages_resume(v: &JsonValue) -> (r: Vec<UiEvent>)
    ensures
        messages_resume_events(*v, r@),
{
    match uuid_field(v, "conversation_id") {
        Some(cid) => one(UiEvent::MessagesResume { conversation_id: cid, messages: messages_of(v, cid) }),
        None => Vec::new(),
    }
}

fn user_notification(v: &JsonValue) -> (r: Vec<UiEvent>)
    ensures
        user_notification_events(*v, r@),
{
    let data = match field(v, "event_data") {
        Some(d) => d,
        None => v,
    };
    let t = text_or(text_field(v, "event_type"), "unknown");
    one(notification(or_zero(u64_field(v, "sequence")), t, data, uuid_field(v, "conversation_id")))
}

fn pong(v: &JsonValue) -> (r: Vec<UiEvent>)
    ensures
        pong_events(*v, r@),
{
    one(
        UiEvent::PongReceived {
            current_user_sequence: or_zero(u64_field(v, "current_user_sequence")),
            gaps_detected: match bool_field(v, "gaps_detected") {
                Some(b) => b,
                None => false,
            },
            user_events_gap: gap_in(field(v, "user_events_gap")),
        },
    )
}

fn fetch_request(v: &JsonValue) -> (r: Vec<UiEvent>)
    ensures
        fetch_events(*v, r@),
{
    match conversation_of(v) {
        Some(cid) => {
            let reason = text_or(text_field(v, "reason"), "unknown");
            one(UiEvent::TriggerConversationFetch(cid, join2("fetch_event_", reason.as_str())))
        },
        None => Vec::new(),
    }
}

fn confirmation(v: &JsonValue) -> (r: Vec<UiEvent>)
    ensures
        confirmation_events(*v, r@),
{
    match (text_field(v, "client_msg_id"), uuid_field(v, "server_msg_id")) {
        (Some(c), Some(sid)) => one(
            UiEvent::MessageConfirmation {
                client_msg_id: c,
                server_msg_id: sid,
                sequence: u64_field(v, "sequence"),
                status: text_or(text_field(v, "status"), "unknown"),
            },
        ),
        _ => Vec::new(),
    }
}

fn resume_complete(v: &JsonValue, user: bool) -> (r: Vec<UiEvent>)
    ensures
        resume_complete_events(*v, user, r@),
{
    let c = match field(v, "events_count") {
        Some(x) => Some(x),
        None => field(v, "messages_count"),
    };
    if or_zero(u64_in(c)) == 0 {
        if user {
            one(UiEvent::Info(lit("No user to resume")))
        } else {
            one(UiEvent::Info(lit("No messages to resume")))
        }
    } else {
        Vec::new()
    }
}

fn conversation_created(v: &JsonValue) -> (r: Vec<UiEvent>)
    ensures
        conversation_created_events(*v, r@),
{
    match conversation_of(v) {
        Some(cid) => match u64_field(v, "sequence") {
            Some(seq) => one(notification(seq, lit("conversation_created"), v, Some(cid))),
            None => one(UiEvent::ConversationCreated(cid)),
        },
        None => Vec::new(),
    }
}

fn conversation_deleted(v: &JsonValue) -> (r: Vec<UiEvent>)
    ensures
        conversation_deleted_events(*v, r@),
{
    match uuid_field(v, "conversation_id") {
        Some(cid) => match u64_field(v, "sequence") {
            Some(seq) => two(
                notification(seq, lit("conversation_deleted"), v, Some(cid)),
                UiEvent::ConversationDeleted(cid),
            ),
            None => one(UiEvent::ConversationDeleted(cid)),
        },
        None => Vec::new(),
    }
}

fn member_added(v: &JsonValue) -> (r: Vec<UiEvent>)
    ensures
        member_added_events(*v, r@),
{
    match conversation_of(v) {
        Some(cid) => {
            let name = text_or(text_field(v, "username"), "Unknown");
            two(
                notification(or_zero(u64_field(v, "sequence")), lit("member_added"), v, Some(cid)),
                UiEvent::Info(join2(name.as_str(), " è stato aggiunto al gruppo")),
            )
        },
        None => Vec::new(),
    }
}

fn leave_ack(v: &JsonValue) -> (r: Vec<UiEvent>)
    ensures
        leave_ack_events(*v, r@),
{
    match conversation_of(v) {
        Some(cid) => one(UiEvent::ConversationDeleted(cid)),
        None => Vec::new(),
    }
}

fn server_failure(v: &JsonValue) -> (r: Vec<UiEvent>)
    ensures
        error_events(*v, r@),
{
    let message = text_or(text_field(v, "message"), "Errore sconosciuto");
    let code = text_or(text_field(v, "error_code"), "unknown");
    one(UiEvent::Error(server_error(code.as_str(), message.as_str())))
}

fn warning(v: &JsonValue) -> (r: Vec<UiEvent>)
    ensures
        warning_events(*v, r@),
{
    let message = text_or(text_field(v, "message"), "Warning dal server");
    one(UiEvent::Info(join2("Attenzione: ", message.as_str())))
}

fn message_deleted(v: &JsonValue) -> (r: Vec<UiEvent>)
    ensures
        message_deleted_events(*v, r@),
{
    match (uuid_field(v, "message_id"), uuid_field(v, "conversation_id")) {
        (Some(m), Some(c)) => one(UiEvent::MessageDeleted { message_id: m, conversation_id: c }),
        _ => Vec::new(),
    }
}

fn check_user(v: &JsonValue) -> (r: Vec<UiEvent>)
    ensures
        check_user_events(*v, r@),
{
    one(
        UiEvent::UserCheckResult {
            username: text_or_empty(text_field(v, "username")),
            exists: match bool_field(v, "exists") {
                Some(b) => b,
                None => false,
            },
            user_id: uuid_field(v, "user_id"),
            request_id: text_or_empty(text_field(v, "request_id")),
        },
    )
}

/// The events of a frame read as the JSON value `v`, in order; `now_secs` is the time
/// given to a chat message that carries none.
pub fn frame_events(v: &JsonValue, now_secs: i64) -> (r: Vec<UiEvent>)
    ensures
        frame_events_ok(*v, now_secs, r@),
{
    let t = match text_field(v, "type") {
        Some(t) => t,
        None => return Vec::new(),
    };
    if text_is(&t, "chat_message") {
        chat_message(v, now_secs)
    } else if text_is(&t, "message") || text_is(&t, "new_message") {
        new_message(v)
    } else if text_is(&t, "initial_state") {
        initial_state(v)
    } else if text_is(&t, "conversation_messages") {
        conversation_messages(v)
    } else if text_is(&t, "conversation_created_complete") {
        created_complete(v)
    } else if text_is(&t, "user_notification") || text_is(&t, "user_event") {
        user_notification(v)
    } else if text_is(&t, "pong") {
        pong(v)
    } else if text_is(&t, "fetch_conversation_messages") {
        fetch_request(v)
    } else if text_is(&t, "user_events_resume") {
        one(UiEvent::UserEventsResume { events: user_events(v) })
    } else if text_is(&t, "messages_resume") {
        messages_resume(v)
    } else if text_is(&t, "message_confirmation") {
        confirmation(v)
    } else if text_is(&t, "user_resume_complete") {
        resume_complete(v, true)
    } else if text_is(&t, "messages_resume_complete") {
        resume_complete(v, false)
    } else if text_is(&t, "conversation_created") {
        conversation_created(v)
    } else if text_is(&t, "conversation_deleted") {
        conversation_deleted(v)
    } else if text_is(&t, "member_added") {
        member_added(v)
    } else if text_is(&t, "leave_group_ack") {
        leave_ack(v)
    } else if text_is(&t, "error") {
        server_failure(v)
    } else if text_is(&t, "warning") {
        warning(v)
    } else if text_is(&t, "message_deleted") {
        message_deleted(v)
    } else if text_is(&t, "check_user_response") {
        check_user(v)
    } else if text_is(&t, "account_deleted_confirm") {
        one(UiEvent::LoggedOut)
    } else {
        Vec::new()
    }
}

/// The events of the text frame `frame` read at clock reading `now_secs`: none for a
/// frame over `MAX_FRAME_BYTES` bytes or one that is not JSON, else those of its JSON
/// value.
pub open spec fn frame_decoded(frame: Seq<char>, now_secs: i64, out: Seq<UiEvent>) -> bool {
    if byte_len(frame) > MAX_FRAME_BYTES {
        out.len() == 0
    } else {
        match parsed_json(frame) {
            Some(v) => frame_events_ok(v, now_secs, out),
            None => out.len() == 0,
        }
    }
}

/// The events of the text frame `frame`, with `now_secs` as the clock reading.
pub fn decode_at(frame: &str, now_secs: i64) -> (r: Vec<UiEvent>)
    ensures
        frame_decoded(frame@, now_secs, r@),
{
    if frame.len() > MAX_FRAME_BYTES {
        return Vec::new();
    }
    match parse_json(frame) {
        Some(v) => frame_events(&v, now_secs),
        None => Vec::new(),
    }
}

/// The events that the text frame `msg` brings, in order, read at the current time.
pub fn handle_websocket_message(msg: &str) -> (r: Vec<UiEvent>)
    ensures
        exists|now: i64| now >= 0 && frame_decoded(msg@, now, r@),
{
    let now = now_secs();
    decode_at(msg, now)
}

} // verus!
