//! The data of a user event, read from its JSON value: the fields that the handlers
//! use, the message it carries and the member list, read by the rules of the serde
//! derives of the message and participant types (a struct is an object, or an array
//! of exactly its fields in order; an `Option` field may be missing or null).
use crate::json::{
    bool_in, bool_of, field, get, i64_at, i64_field, i64_in, i64_of, lookup, opt, str_at, str_of, text_field, text_of,
    text_view, u64_at, u64_field, u64_in, u64_of, uuid_at, uuid_field, uuid_in, uuid_of, JsonValue,
};
use crate::model::{ConversationPayload, LastMessagePayload, MessageDto, NotificationData, ParticipantInfo};
use vstd::prelude::*;

verus! {

/// The field `k`, at position `i`, of a value that serde reads as a struct of `n` fields.
pub open spec fn slot(v: JsonValue, n: int, i: int, k: Seq<char>) -> Option<JsonValue> {
    match v {
        JsonValue::Object(es) => lookup(es@, k),
        JsonValue::Array(a) => if a@.len() == n { Some(a@[i]) } else { None },
        _ => None,
    }
}

pub open spec fn struct_shape(v: JsonValue, n: int) -> bool {
    match v {
        JsonValue::Object(_) => true,
        JsonValue::Array(a) => a@.len() == n,
        _ => false,
    }
}

/// A field that serde reads as `Option<u64>`: missing, null or an unsigned number.
pub open spec fn opt_u64_ok(o: Option<JsonValue>) -> bool {
    match o {
        None => true,
        Some(JsonValue::Null) => true,
        Some(x) => u64_of(Some(x)) is Some,
    }
}

pub open spec fn opt_str_ok(o: Option<JsonValue>) -> bool {
    match o {
        None => true,
        Some(JsonValue::Null) => true,
        Some(x) => str_of(Some(x)) is Some,
    }
}

pub open spec fn opt_bool_ok(o: Option<JsonValue>) -> bool {
    match o {
        None => true,
        Some(JsonValue::Null) => true,
        Some(x) => bool_of(Some(x)) is Some,
    }
}

/// A value that serde reads as a message.
pub open spec fn wire_message_ok(m: JsonValue) -> bool {
    &&& struct_shape(m, 9)
    &&& uuid_of(slot(m, 9, 0, "id"@)) is Some
    &&& uuid_of(slot(m, 9, 1, "author_id"@)) is Some
    &&& uuid_of(slot(m, 9, 2, "conversation_id"@)) is Some
    &&& str_of(slot(m, 9, 3, "author_username"@)) is Some
    &&& str_of(slot(m, 9, 4, "content"@)) is Some
    &&& i64_of(slot(m, 9, 5, "created_at"@)) is Some
    &&& opt_u64_ok(slot(m, 9, 6, "sequence_num"@))
    &&& opt_str_ok(slot(m, 9, 7, "client_msg_id"@))
    &&& opt_bool_ok(slot(m, 9, 8, "is_confirmed"@))
}

/// `d` is the message that serde reads from `m`.
pub open spec fn wire_message_read(m: JsonValue, d: MessageDto) -> bool {
    &&& uuid_of(slot(m, 9, 0, "id"@)) == Some(d.id)
    &&& uuid_of(slot(m, 9, 1, "author_id"@)) == Some(d.author_id)
    &&& uuid_of(slot(m, 9, 2, "conversation_id"@)) == Some(d.conversation_id)
    &&& str_of(slot(m, 9, 3, "author_username"@)) == Some(d.author_username@)
    &&& str_of(slot(m, 9, 4, "content"@)) == Some(d.content@)
    &&& i64_of(slot(m, 9, 5, "created_at"@)) == Some(d.created_at)
    &&& u64_of(slot(m, 9, 6, "sequence_num"@)) == d.sequence_num
    &&& str_of(slot(m, 9, 7, "client_msg_id"@)) == text_view(d.client_msg_id)
    &&& bool_of(slot(m, 9, 8, "is_confirmed"@)) == d.is_confirmed
}

/// A value that serde reads as a participant.
pub open spec fn wire_participant_ok(p: JsonValue) -> bool {
    &&& struct_shape(p, 3)
    &&& uuid_of(slot(p, 3, 0, "user_id"@)) is Some
    &&& str_of(slot(p, 3, 1, "username"@)) is Some
    &&& str_of(slot(p, 3, 2, "role"@)) is Some
}

pub open spec fn wire_participant_read(p: JsonValue, q: ParticipantInfo) -> bool {
    &&& uuid_of(slot(p, 3, 0, "user_id"@)) == Some(q.user_id)
    &&& str_of(slot(p, 3, 1, "username"@)) == Some(q.username@)
    &&& str_of(slot(p, 3, 2, "role"@)) == Some(q.role@)
}

pub open spec fn all_participants(s: Seq<JsonValue>) -> bool {
    forall|i: int| 0 <= i < s.len() ==> wire_participant_ok(#[trigger] s[i])
}

/// What serde reads as a list of participants from the `members` field `o` (an
/// absent field reads as the empty list).
pub open spec fn members_read(o: Option<JsonValue>, r: Option<Vec<ParticipantInfo>>) -> bool {
    match o {
        None => r matches Some(l) && l@.len() == 0,
        Some(JsonValue::Array(a)) => if all_participants(a@) {
            r matches Some(l) && l@.len() == a@.len() && forall|i: int|
                0 <= i < a@.len() ==> wire_participant_read(#[trigger] a@[i], l@[i])
        } else {
            r is None
        },
        Some(_) => r is None,
    }
}

pub open spec fn last_payload_read(m: JsonValue, p: LastMessagePayload) -> bool {
    &&& text_view(p.id) == str_at(m, "id"@)
    &&& text_view(p.author_id) == str_at(m, "author_id"@)
    &&& text_view(p.author_username) == str_at(m, "author_username"@)
    &&& text_view(p.content) == str_at(m, "content"@)
    &&& p.created_at == i64_at(m, "created_at"@)
    &&& p.sequence_num_i64 == i64_at(m, "sequence_num"@)
    &&& p.sequence_num_u64 == u64_at(m, "sequence_num"@)
}

pub open spec fn conversation_payload_read(c: JsonValue, p: ConversationPayload) -> bool {
    &&& text_view(p.id) == str_at(c, "id"@)
    &&& text_view(p.kind) == str_at(c, "kind"@)
    &&& text_view(p.owner_id) == str_at(c, "owner_id"@)
    &&& p.created_at == i64_at(c, "created_at"@)
    &&& text_view(p.display_title) == str_at(c, "display_title"@)
    &&& text_view(p.title) == str_at(c, "title"@)
    &&& p.last_read_sequence == i64_at(c, "last_read_sequence"@)
    &&& p.last_activity == i64_at(c, "last_activity"@)
    &&& p.last_msg_seq == i64_at(c, "last_msg_seq"@)
    &&& text_view(p.client_temp_id) == str_at(c, "client_temp_id"@)
    &&& match get(c, "last_message"@) {
        None => p.last_message is None,
        Some(m) => p.last_message matches Some(lp) && last_payload_read(m, lp),
    }
}

/// The value that a new message event carries its message in: its `message` field, or
/// the whole value.
pub open spec fn message_value(v: JsonValue) -> JsonValue {
    match get(v, "message"@) {
        Some(m) => m,
        None => v,
    }
}

/// `d` is the data of a user event read from `v`.
pub open spec fn notification_read(v: JsonValue, d: NotificationData) -> bool {
    &&& d.sequence == u64_at(v, "sequence"@)
    &&& text_view(d.event_type) == str_at(v, "event_type"@)
    &&& d.conversation_id == uuid_at(v, "conversation_id"@)
    &&& d.conversation_sequence == u64_at(v, "conversation_sequence"@)
    &&& if wire_message_ok(message_value(v)) {
        d.message matches Some(m) && wire_message_read(message_value(v), m)
    } else {
        d.message is None
    }
    &&& members_read(get(v, "members"@), d.members)
    &&& text_view(d.username) == str_at(v, "username"@)
    &&& match get(v, "conversation"@) {
        None => d.conversation is None,
        Some(c) => d.conversation matches Some(p) && conversation_payload_read(c, p),
    }
}

fn slot_of<'a>(v: &'a JsonValue, n: usize, i: usize, k: &str) -> (r: Option<&'a JsonValue>)
    requires
        i < n,
    ensures
        opt(r) == slot(*v, n as int, i as int, k@),
{
    match v {
        JsonValue::Object(_) => field(v, k),
        JsonValue::Array(a) => if a.len() == n { Some(&a[i]) } else { None },
        _ => None,
    }
}

fn shape_is(v: &JsonValue, n: usize) -> (r: bool)
    ensures
        r == struct_shape(*v, n as int),
{
    match v {
        JsonValue::Object(_) => true,
        JsonValue::Array(a) => a.len() == n,
        _ => false,
    }
}

fn is_null(o: Option<&JsonValue>) -> (r: bool)
    ensures
        r == (opt(o) == Some(JsonValue::Null)),
{
    match o {
        Some(JsonValue::Null) => true,
        _ => false,
    }
}

/// Reads a message by the rules of its serde derive.
pub fn wire_message(m: &JsonValue) -> (r: Option<MessageDto>)
    ensures
        r is Some <==> wire_message_ok(*m),
        r matches Some(d) ==> wire_message_read(*m, d),
{
    if !shape_is(m, 9) {
        return None;
    }
    let id = uuid_in(slot_of(m, 9, 0, "id"));
    let author_id = uuid_in(slot_of(m, 9, 1, "author_id"));
    let conversation_id = uuid_in(slot_of(m, 9, 2, "conversation_id"));
    let author_username = text_of(slot_of(m, 9, 3, "author_username"));
    let content = text_of(slot_of(m, 9, 4, "content"));
    let created_at = i64_in(slot_of(m, 9, 5, "created_at"));
    let s6 = slot_of(m, 9, 6, "sequence_num");
    let s7 = slot_of(m, 9, 7, "client_msg_id");
    let s8 = slot_of(m, 9, 8, "is_confirmed");
    let sequence_num = u64_in(s6);
    let client_msg_id = text_of(s7);
    let is_confirmed = bool_in(s8);
    if !(s6.is_none() || is_null(s6) || sequence_num.is_some()) {
        return None;
    }
    if !(s7.is_none() || is_null(s7) || client_msg_id.is_some()) {
        return None;
    }
    if !(s8.is_none() || is_null(s8) || is_confirmed.is_some()) {
        return None;
    }
    match (id, author_id, conversation_id, author_username, content, created_at) {
        (Some(id), Some(author_id), Some(conversation_id), Some(author_username), Some(content), Some(created_at)) => {
            Some(MessageDto {
                id,
                author_id,
                conversation_id,
                author_username,
                content,
                created_at,
                sequence_num,
                client_msg_id,
                is_confirmed,
            })
        },
        _ => None,
    }
}

fn wire_participant(p: &JsonValue) -> (r: Option<ParticipantInfo>)
    ensures
        r is Some <==> wire_participant_ok(*p),
        r matches Some(q) ==> wire_participant_read(*p, q),
{
    if !shape_is(p, 3) {
        return None;
    }
    let user_id = uuid_in(slot_of(p, 3, 0, "user_id"));
    let username = text_of(slot_of(p, 3, 1, "username"));
    let role = text_of(slot_of(p, 3, 2, "role"));
    match (user_id, username, role) {
        (Some(user_id), Some(username), Some(role)) => Some(ParticipantInfo { user_id, username, role }),
        _ => None,
    }
}

/// Reads the `members` field by the rules of serde for a list of participants.
pub fn wire_members(o: Option<&JsonValue>) -> (r: Option<Vec<ParticipantInfo>>)
    ensures
        members_read(opt(o), r),
{
    match o {
        None => Some(Vec::new()),
        Some(JsonValue::Array(a)) => {
            let mut out: Vec<ParticipantInfo> = Vec::new();
            let mut i: usize = 0;
            while i < a.len()
                invariant
                    i <= a@.len(),
                    opt(o) == Some(JsonValue::Array(*a)),
                    out@.len() == i,
                    forall|j: int| 0 <= j < i ==> wire_participant_ok(#[trigger] a@[j]),
                    forall|j: int| 0 <= j < i ==> wire_participant_read(#[trigger] a@[j], out@[j]),
                decreases a.len() - i,
            {
                match wire_participant(&a[i]) {
                    Some(q) => out.push(q),
                    None => {
                        assert(!wire_participant_ok(a@[i as int]));
                        assert(!all_participants(a@));
                        return None;
                    },
                }
                i = i + 1;
            }
            Some(out)
        },
        Some(_) => None,
    }
}

fn last_payload(m: &JsonValue) -> (r: LastMessagePayload)
    ensures
        last_payload_read(*m, r),
{
    LastMessagePayload {
        id: text_field(m, "id"),
        author_id: text_field(m, "author_id"),
        author_username: text_field(m, "author_username"),
        content: text_field(m, "content"),
        created_at: i64_field(m, "created_at"),
        sequence_num_i64: i64_field(m, "sequence_num"),
        sequence_num_u64: u64_field(m, "sequence_num"),
    }
}

fn conversation_payload(c: &JsonValue) -> (r: ConversationPayload)
    ensures
        conversation_payload_read(*c, r),
{
    let last_message = match field(c, "last_message") {
        Some(m) => Some(last_payload(m)),
        None => None,
    };
    ConversationPayload {
        id: text_field(c, "id"),
        kind: text_field(c, "kind"),
        owner_id: text_field(c, "owner_id"),
        created_at: i64_field(c, "created_at"),
        display_title: text_field(c, "display_title"),
        title: text_field(c, "title"),
        last_read_sequence: i64_field(c, "last_read_sequence"),
        last_activity: i64_field(c, "last_activity"),
        last_msg_seq: i64_field(c, "last_msg_seq"),
        client_temp_id: text_field(c, "client_temp_id"),
        last_message,
    }
}

/// The data of a user event, read from its value `v`.
pub fn notification_data(v: &JsonValue) -> (r: NotificationData)
    ensures
        notification_read(*v, r),
{
    let message_v = match field(v, "message") {
        Some(m) => m,
        None => v,
    };
    let conversation = match field(v, "conversation") {
        Some(c) => Some(conversation_payload(c)),
        None => None,
    };
    NotificationData {
        sequence: u64_field(v, "sequence"),
        event_type: text_field(v, "event_type"),
        conversation_id: uuid_field(v, "conversation_id"),
        conversation_sequence: u64_field(v, "conversation_sequence"),
        message: wire_message(message_v),
        members: wire_members(field(v, "members")),
        username: text_field(v, "username"),
        conversation,
    }
}

} // verus!
