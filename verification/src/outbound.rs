//! The JSON objects that carry the client's requests to the server: for each request,
//! its `type` and its fields, in order.
use crate::external::{now_secs, uuid_text, uuid_to_string};
use crate::frames::{out_frame, out_frame_spec, OutFrame};
use crate::json::{json_text, to_json_text, JsonValue};
use crate::model::Outgoing;
use crate::outgoing::{prepare_outgoing, prepared_as, refused, sent_content, MessageProcessor};
use crate::state::AppState;
use crate::view::AppView;
use vstd::prelude::*;

verus! {

/// What a field of a request holds.
pub ghost enum Wire {
    Text(Seq<char>),
    Int(int),
    Flag(bool),
    Texts(Seq<Seq<char>>),
    /// An object from the given keys to integers.
    Counts(Seq<(Seq<char>, int)>),
}

/// A JSON number holding the integer `n`, as serde_json reads one back.
pub open spec fn int_value(v: JsonValue, n: int) -> bool {
    v == JsonValue::Number {
        as_i64: if i64::MIN <= n <= i64::MAX { Some(n as i64) } else { None },
        as_u64: if 0 <= n <= u64::MAX { Some(n as u64) } else { None },
    }
}

/// `v` is the JSON value of field content `w`.
pub open spec fn wire_value(v: JsonValue, w: Wire) -> bool {
    match w {
        Wire::Text(s) => v matches JsonValue::Str(x) && x@ == s,
        Wire::Int(n) => int_value(v, n),
        Wire::Flag(b) => v == JsonValue::Bool(b),
        Wire::Texts(ts) => v matches JsonValue::Array(a) && a@.len() == ts.len() && forall|i: int|
            0 <= i < ts.len() ==> (#[trigger] a@[i] matches JsonValue::Str(x) && x@ == ts[i]),
        Wire::Counts(cs) => v matches JsonValue::Object(es) && es@.len() == cs.len() && forall|i: int|
            0 <= i < cs.len() ==> (#[trigger] es@[i]).0@ == cs[i].0 && int_value(es@[i].1, cs[i].1),
    }
}

/// The entries `es` of an object are the fields `fs`, in order.
pub open spec fn entries_are(es: Seq<(String, JsonValue)>, fs: Seq<(Seq<char>, Wire)>) -> bool {
    es.len() == fs.len() && forall|i: int| 0 <= i < fs.len() ==> (#[trigger] es[i]).0@ == fs[i].0 && wire_value(es[i].1, fs[i].1)
}

/// `j` is the object with fields `fs`.
pub open spec fn object_of(j: JsonValue, fs: Seq<(Seq<char>, Wire)>) -> bool {
    j matches JsonValue::Object(es) && entries_are(es@, fs)
}

pub open spec fn opt_field(present: bool, f: (Seq<char>, Wire)) -> Seq<(Seq<char>, Wire)> {
    if present { seq![f] } else { seq![] }
}

pub open spec fn texts_of(v: Seq<String>) -> Seq<Seq<char>> {
    v.map_values(|s: String| s@)
}

pub open spec fn counts_of(v: Seq<(u128, u64)>) -> Seq<(Seq<char>, int)> {
    v.map_values(|p: (u128, u64)| (uuid_text(p.0), p.1 as int))
}

/// The fields of the object that carries frame `f`, stamped with `now_secs` where it has a
/// time; `None` for a chat message that is not framed as one.
pub open spec fn request_fields(f: OutFrame, now_secs: i64) -> Option<Seq<(Seq<char>, Wire)>> {
    match f {
        OutFrame::Chat { content, conversation_id, target_username, client_temp_id, target_usernames, client_msg_id } => Some(
            seq![("type"@, Wire::Text("chat_message"@)), ("content"@, Wire::Text(content@)), ("client_timestamp"@, Wire::Int(now_secs as int))]
                + opt_field(target_username is Some, ("target_username"@, Wire::Text(target_username->Some_0@)))
                + opt_field(client_temp_id is Some, ("client_temp_id"@, Wire::Text(uuid_text(client_temp_id->Some_0))))
                + opt_field(conversation_id is Some, ("conversation_id"@, Wire::Text(uuid_text(conversation_id->Some_0))))
                + opt_field(target_usernames is Some, ("target_usernames"@, Wire::Texts(texts_of(target_usernames->Some_0@))))
                + opt_field(client_msg_id is Some, ("client_msg_id"@, Wire::Text(client_msg_id->Some_0@))),
        ),
        OutFrame::Plain(o) => match o {
            Outgoing::ChatMessage { .. } => None,
            Outgoing::InviteUser { cid, usernames } => Some(
                seq![("type"@, Wire::Text("invite_user"@)), ("cid"@, Wire::Text(uuid_text(cid))), ("usernames"@, Wire::Texts(texts_of(usernames@)))],
            ),
            Outgoing::CreateGroup { group_name } => Some(
                seq![("type"@, Wire::Text("create_group"@)), ("group_name"@, Wire::Text(group_name@))],
            ),
            Outgoing::CreateGroupWithParticipants { group_name, participant_usernames, client_temp_id } => Some(
                seq![
                    ("type"@, Wire::Text("create_group_with_participants"@)),
                    ("group_name"@, Wire::Text(group_name@)),
                    ("participant_usernames"@, Wire::Texts(texts_of(participant_usernames@))),
                ] + opt_field(client_temp_id is Some, ("client_temp_id"@, Wire::Text(client_temp_id->Some_0@))),
            ),
            Outgoing::Typing { cid, is_typing } => Some(
                seq![("type"@, Wire::Text("typing"@)), ("cid"@, Wire::Text(uuid_text(cid))), ("is_typing"@, Wire::Flag(is_typing))],
            ),
            Outgoing::Ping { user_sequence } => Some(
                seq![("type"@, Wire::Text("ping"@)), ("timestamp"@, Wire::Int(now_secs as int))]
                    + opt_field(user_sequence is Some, ("user_sequence"@, Wire::Int(user_sequence->Some_0 as int))),
            ),
            Outgoing::RequestUserResume { from_sequence, limit } => Some(
                seq![
                    ("type"@, Wire::Text("request_user_resume"@)),
                    ("from_sequence"@, Wire::Int(from_sequence as int)),
                    ("limit"@, Wire::Int(limit as int)),
                ],
            ),
            Outgoing::RequestMessagesResume { conversation_id, from_sequence, limit } => Some(
                seq![
                    ("type"@, Wire::Text("request_messages_resume"@)),
                    ("conversation_id"@, Wire::Text(uuid_text(conversation_id))),
                    ("from_sequence"@, Wire::Int(from_sequence as int)),
                    ("limit"@, Wire::Int(limit as int)),
                ],
            ),
            Outgoing::SequenceAck { user_sequence, conversation_sequences } => Some(
                seq![("type"@, Wire::Text("sequence_ack"@)), ("timestamp"@, Wire::Int(now_secs as int))]
                    + opt_field(user_sequence is Some, ("user_sequence"@, Wire::Int(user_sequence->Some_0 as int)))
                    + opt_field(conversation_sequences is Some, ("conversation_sequences"@, Wire::Counts(counts_of(conversation_sequences->Some_0@)))),
            ),
            Outgoing::DeleteConversation { cid } => Some(
                seq![("type"@, Wire::Text("delete_conversation"@)), ("conversation_id"@, Wire::Text(uuid_text(cid)))],
            ),
            Outgoing::MarkRead { conversation_id, sequence_num } => Some(
                seq![
                    ("type"@, Wire::Text("mark_read"@)),
                    ("conversation_id"@, Wire::Text(uuid_text(conversation_id))),
                    ("sequence_num"@, Wire::Int(sequence_num as int)),
                ],
            ),
            Outgoing::LeaveGroup { cid } => Some(
                seq![("type"@, Wire::Text("leave_group"@)), ("conversation_id"@, Wire::Text(uuid_text(cid)))],
            ),
            Outgoing::DeleteMessage { mid } => Some(
                seq![("type"@, Wire::Text("delete_message"@)), ("message_id"@, Wire::Text(uuid_text(mid)))],
            ),
            Outgoing::CheckUser { username, request_id } => Some(
                seq![("type"@, Wire::Text("check_user"@)), ("username"@, Wire::Text(username@)), ("request_id"@, Wire::Text(request_id@))],
            ),
            Outgoing::DeleteUser => Some(seq![("type"@, Wire::Text("delete_user"@))]),
        },
    }
}

/// The object that carries frame `f`, stamped with `now_secs`.
pub open spec fn request_object(f: OutFrame, now_secs: i64, r: Option<JsonValue>) -> bool {
    match request_fields(f, now_secs) {
        Some(fs) => r matches Some(j) && object_of(j, fs),
        None => r is None,
    }
}

type Fields = Seq<(Seq<char>, Wire)>;

fn lit(s: &str) -> (r: String)
    ensures
        r@ == s@,
{
    String::from_str(s)
}

fn text_entry(k: &str, s: String) -> (r: (String, JsonValue))
    ensures
        r.0@ == k@,
        wire_value(r.1, Wire::Text(s@)),
{
    (String::from_str(k), JsonValue::Str(s))
}

fn uuid_entry(k: &str, id: u128) -> (r: (String, JsonValue))
    ensures
        r.0@ == k@,
        wire_value(r.1, Wire::Text(uuid_text(id))),
{
    (String::from_str(k), JsonValue::Str(uuid_to_string(id)))
}

fn i64_entry(k: &str, n: i64) -> (r: (String, JsonValue))
    ensures
        r.0@ == k@,
        wire_value(r.1, Wire::Int(n as int)),
{
    let as_u64 = if n >= 0 { Some(n as u64) } else { None };
    (String::from_str(k), JsonValue::Number { as_i64: Some(n), as_u64 })
}

fn u64_value(n: u64) -> (r: JsonValue)
    ensures
        int_value(r, n as int),
{
    let as_i64 = if n <= 0x7fff_ffff_ffff_ffffu64 { Some(n as i64) } else { None };
    JsonValue::Number { as_i64, as_u64: Some(n) }
}

fn u64_entry(k: &str, n: u64) -> (r: (String, JsonValue))
    ensures
        r.0@ == k@,
        wire_value(r.1, Wire::Int(n as int)),
{
    (String::from_str(k), u64_value(n))
}

fn flag_entry(k: &str, b: bool) -> (r: (String, JsonValue))
    ensures
        r.0@ == k@,
        wire_value(r.1, Wire::Flag(b)),
{
    (String::from_str(k), JsonValue::Bool(b))
}

fn texts_entry(k: &str, v: Vec<String>) -> (r: (String, JsonValue))
    ensures
        r.0@ == k@,
        wire_value(r.1, Wire::Texts(texts_of(v@))),
{
    let mut a: Vec<JsonValue> = Vec::new();
    let mut i: usize = 0;
    while i < v.len()
        invariant
            i <= v@.len(),
            a@.len() == i,
            forall|j: int| 0 <= j < i ==> (#[trigger] a@[j] matches JsonValue::Str(x) && x@ == v@[j]@),
        decreases v.len() - i,
    {
        a.push(JsonValue::Str(v[i].clone()));
        i = i + 1;
    }
    (String::from_str(k), JsonValue::Array(a))
}

fn counts_entry(k: &str, v: Vec<(u128, u64)>) -> (r: (String, JsonValue))
    ensures
        r.0@ == k@,
        wire_value(r.1, Wire::Counts(counts_of(v@))),
{
    let mut es: Vec<(String, JsonValue)> = Vec::new();
    let mut i: usize = 0;
    while i < v.len()
        invariant
            i <= v@.len(),
            es@.len() == i,
            forall|j: int|
                0 <= j < i ==> (#[trigger] es@[j]).0@ == uuid_text(v@[j].0) && int_value(es@[j].1, v@[j].1 as int),
        decreases v.len() - i,
    {
        let (c, n) = v[i];
        es.push((uuid_to_string(c), u64_value(n)));
        i = i + 1;
    }
    (String::from_str(k), JsonValue::Object(es))
}

/// Appends the entry `e` for field `f` to the entries `es` of fields `fs`.
fn append_field(es: &mut Vec<(String, JsonValue)>, Ghost(fs): Ghost<Fields>, e: (String, JsonValue), Ghost(f): Ghost<(Seq<char>, Wire)>) -> (r: Ghost<Fields>)
    requires
        entries_are(old(es)@, fs),
        e.0@ == f.0,
        wire_value(e.1, f.1),
    ensures
        r@ == fs.push(f),
        entries_are(final(es)@, r@),
{
    es.push(e);
    Ghost(fs.push(f))
}

fn start() -> (r: (Vec<(String, JsonValue)>, Ghost<Fields>))
    ensures
        r.1@ == Seq::<(Seq<char>, Wire)>::empty(),
        entries_are(r.0@, r.1@),
{
    (Vec::new(), Ghost(Seq::empty()))
}

fn chat_object(
    content: String,
    conversation_id: Option<u128>,
    target_username: Option<String>,
    client_temp_id: Option<u128>,
    target_usernames: Option<Vec<String>>,
    client_msg_id: Option<String>,
    now_secs: i64,
) -> (r: JsonValue)
    ensures
        object_of(r, request_fields(
            OutFrame::Chat { content, conversation_id, target_username, client_temp_id, target_usernames, client_msg_id },
            now_secs,
        )->Some_0),
{
    let ghost f = OutFrame::Chat { content, conversation_id, target_username, client_temp_id, target_usernames, client_msg_id };
    let ghost (c0, tu0, ct0, cid0, tus0, cm0) = (content, target_username, client_temp_id, conversation_id, target_usernames, client_msg_id);
    let (mut es, g) = start();
    let g = append_field(&mut es, g, text_entry("type", lit("chat_message")), Ghost(("type"@, Wire::Text("chat_message"@))));
    let g = append_field(&mut es, g, text_entry("content", content), Ghost(("content"@, Wire::Text(c0@))));
    let mut g = append_field(&mut es, g, i64_entry("client_timestamp", now_secs), Ghost(("client_timestamp"@, Wire::Int(now_secs as int))));
    let ghost base = g@;
    if let Some(n) = target_username {
        g = append_field(&mut es, g, text_entry("target_username", n), Ghost(("target_username"@, Wire::Text(tu0->Some_0@))));
    }
    assert(g@ =~= base + opt_field(tu0 is Some, ("target_username"@, Wire::Text(tu0->Some_0@))));
    let ghost g1 = g@;
    if let Some(t) = client_temp_id {
        g = append_field(&mut es, g, uuid_entry("client_temp_id", t), Ghost(("client_temp_id"@, Wire::Text(uuid_text(t)))));
    }
    assert(g@ =~= g1 + opt_field(ct0 is Some, ("client_temp_id"@, Wire::Text(uuid_text(ct0->Some_0)))));
    let ghost g2 = g@;
    if let Some(c) = conversation_id {
        g = append_field(&mut es, g, uuid_entry("conversation_id", c), Ghost(("conversation_id"@, Wire::Text(uuid_text(c)))));
    }
    assert(g@ =~= g2 + opt_field(cid0 is Some, ("conversation_id"@, Wire::Text(uuid_text(cid0->Some_0)))));
    let ghost g3 = g@;
    if let Some(names) = target_usernames {
        let ghost nv = names@;
        g = append_field(&mut es, g, texts_entry("target_usernames", names), Ghost(("target_usernames"@, Wire::Texts(texts_of(nv)))));
    }
    assert(g@ =~= g3 + opt_field(tus0 is Some, ("target_usernames"@, Wire::Texts(texts_of(tus0->Some_0@)))));
    let ghost g4 = g@;
    if let Some(m) = client_msg_id {
        g = append_field(&mut es, g, text_entry("client_msg_id", m), Ghost(("client_msg_id"@, Wire::Text(cm0->Some_0@))));
    }
    assert(g@ =~= g4 + opt_field(cm0 is Some, ("client_msg_id"@, Wire::Text(cm0->Some_0@))));
    assert(g@ =~= request_fields(f, now_secs)->Some_0);
    JsonValue::Object(es)
}

fn object(es: Vec<(String, JsonValue)>, Ghost(fs): Ghost<Fields>) -> (r: Option<JsonValue>)
    requires
        entries_are(es@, fs),
    ensures
        r matches Some(j) && object_of(j, fs),
{
    Some(JsonValue::Object(es))
}

fn plain_object(o: Outgoing, now_secs: i64) -> (r: Option<JsonValue>)
    ensures
        request_object(OutFrame::Plain(o), now_secs, r),
{
    let ghost o0 = o;
    let (mut es, g) = start();
    match o {
        Outgoing::ChatMessage { .. } => None,
        Outgoing::InviteUser { cid, usernames } => {
            let ghost u = usernames@;
            let g = append_field(&mut es, g, text_entry("type", lit("invite_user")), Ghost(("type"@, Wire::Text("invite_user"@))));
            let g = append_field(&mut es, g, uuid_entry("cid", cid), Ghost(("cid"@, Wire::Text(uuid_text(cid)))));
            let g = append_field(&mut es, g, texts_entry("usernames", usernames), Ghost(("usernames"@, Wire::Texts(texts_of(u)))));
            assert(g@ =~= request_fields(OutFrame::Plain(o0), now_secs)->Some_0);
            object(es, g)
        },
        Outgoing::CreateGroup { group_name } => {
            let ghost n = group_name@;
            let g = append_field(&mut es, g, text_entry("type", lit("create_group")), Ghost(("type"@, Wire::Text("create_group"@))));
            let g = append_field(&mut es, g, text_entry("group_name", group_name), Ghost(("group_name"@, Wire::Text(n))));
            assert(g@ =~= request_fields(OutFrame::Plain(o0), now_secs)->Some_0);
            object(es, g)
        },
        Outgoing::CreateGroupWithParticipants { group_name, participant_usernames, client_temp_id } => {
            let ghost n = group_name@;
            let ghost u = participant_usernames@;
            let ghost t0 = client_temp_id;
            let g = append_field(
                &mut es,
                g,
                text_entry("type", lit("create_group_with_participants")),
                Ghost(("type"@, Wire::Text("create_group_with_participants"@))),
            );
            let g = append_field(&mut es, g, text_entry("group_name", group_name), Ghost(("group_name"@, Wire::Text(n))));
            let mut g = append_field(
                &mut es,
                g,
                texts_entry("participant_usernames", participant_usernames),
                Ghost(("participant_usernames"@, Wire::Texts(texts_of(u)))),
            );
            let ghost base = g@;
            if let Some(t) = client_temp_id {
                g = append_field(&mut es, g, text_entry("client_temp_id", t), Ghost(("client_temp_id"@, Wire::Text(t0->Some_0@))));
            }
            assert(g@ =~= base + opt_field(t0 is Some, ("client_temp_id"@, Wire::Text(t0->Some_0@))));
            assert(g@ =~= request_fields(OutFrame::Plain(o0), now_secs)->Some_0);
            object(es, g)
        },
        Outgoing::Typing { cid, is_typing } => {
            let g = append_field(&mut es, g, text_entry("type", lit("typing")), Ghost(("type"@, Wire::Text("typing"@))));
            let g = append_field(&mut es, g, uuid_entry("cid", cid), Ghost(("cid"@, Wire::Text(uuid_text(cid)))));
            let g = append_field(&mut es, g, flag_entry("is_typing", is_typing), Ghost(("is_typing"@, Wire::Flag(is_typing))));
            assert(g@ =~= request_fields(OutFrame::Plain(o0), now_secs)->Some_0);
            object(es, g)
        },
        Outgoing::Ping { user_sequence } => {
            let g = append_field(&mut es, g, text_entry("type", lit("ping")), Ghost(("type"@, Wire::Text("ping"@))));
            let mut g = append_field(&mut es, g, i64_entry("timestamp", now_secs), Ghost(("timestamp"@, Wire::Int(now_secs as int))));
            let ghost base = g@;
            if let Some(n) = user_sequence {
                g = append_field(&mut es, g, u64_entry("user_sequence", n), Ghost(("user_sequence"@, Wire::Int(n as int))));
            }
            assert(g@ =~= base + opt_field(user_sequence is Some, ("user_sequence"@, Wire::Int(user_sequence->Some_0 as int))));
            assert(g@ =~= request_fields(OutFrame::Plain(o0), now_secs)->Some_0);
            object(es, g)
        },
        Outgoing::RequestUserResume { from_sequence, limit } => {
            let g = append_field(&mut es, g, text_entry("type", lit("request_user_resume")), Ghost(("type"@, Wire::Text("request_user_resume"@))));
            let g = append_field(&mut es, g, u64_entry("from_sequence", from_sequence), Ghost(("from_sequence"@, Wire::Int(from_sequence as int))));
            let g = append_field(&mut es, g, i64_entry("limit", limit), Ghost(("limit"@, Wire::Int(limit as int))));
            assert(g@ =~= request_fields(OutFrame::Plain(o0), now_secs)->Some_0);
            object(es, g)
        },
        Outgoing::RequestMessagesResume { conversation_id, from_sequence, limit } => {
            let g = append_field(
                &mut es,
                g,
                text_entry("type", lit("request_messages_resume")),
                Ghost(("type"@, Wire::Text("request_messages_resume"@))),
            );
            let g = append_field(&mut es, g, uuid_entry("conversation_id", conversation_id), Ghost(("conversation_id"@, Wire::Text(uuid_text(conversation_id)))));
            let g = append_field(&mut es, g, u64_entry("from_sequence", from_sequence), Ghost(("from_sequence"@, Wire::Int(from_sequence as int))));
            let g = append_field(&mut es, g, i64_entry("limit", limit), Ghost(("limit"@, Wire::Int(limit as int))));
            assert(g@ =~= request_fields(OutFrame::Plain(o0), now_secs)->Some_0);
            object(es, g)
        },
        Outgoing::SequenceAck { user_sequence, conversation_sequences } => {
            let ghost cs0 = conversation_sequences;
            let g = append_field(&mut es, g, text_entry("type", lit("sequence_ack")), Ghost(("type"@, Wire::Text("sequence_ack"@))));
            let mut g = append_field(&mut es, g, i64_entry("timestamp", now_secs), Ghost(("timestamp"@, Wire::Int(now_secs as int))));
            let ghost base = g@;
            if let Some(n) = user_sequence {
                g = append_field(&mut es, g, u64_entry("user_sequence", n), Ghost(("user_sequence"@, Wire::Int(n as int))));
            }
            assert(g@ =~= base + opt_field(user_sequence is Some, ("user_sequence"@, Wire::Int(user_sequence->Some_0 as int))));
            let ghost g1 = g@;
            if let Some(seqs) = conversation_sequences {
                let ghost sv = seqs@;
                g = append_field(&mut es, g, counts_entry("conversation_sequences", seqs), Ghost(("conversation_sequences"@, Wire::Counts(counts_of(sv)))));
            }
            assert(g@ =~= g1 + opt_field(cs0 is Some, ("conversation_sequences"@, Wire::Counts(counts_of(cs0->Some_0@)))));
            assert(g@ =~= request_fields(OutFrame::Plain(o0), now_secs)->Some_0);
            object(es, g)
        },
        Outgoing::DeleteConversation { cid } => {
            let g = append_field(&mut es, g, text_entry("type", lit("delete_conversation")), Ghost(("type"@, Wire::Text("delete_conversation"@))));
            let g = append_field(&mut es, g, uuid_entry("conversation_id", cid), Ghost(("conversation_id"@, Wire::Text(uuid_text(cid)))));
            assert(g@ =~= request_fields(OutFrame::Plain(o0), now_secs)->Some_0);
            object(es, g)
        },
        Outgoing::MarkRead { conversation_id, sequence_num } => {
            let g = append_field(&mut es, g, text_entry("type", lit("mark_read")), Ghost(("type"@, Wire::Text("mark_read"@))));
            let g = append_field(&mut es, g, uuid_entry("conversation_id", conversation_id), Ghost(("conversation_id"@, Wire::Text(uuid_text(conversation_id)))));
            let g = append_field(&mut es, g, u64_entry("sequence_num", sequence_num), Ghost(("sequence_num"@, Wire::Int(sequence_num as int))));
            assert(g@ =~= request_fields(OutFrame::Plain(o0), now_secs)->Some_0);
            object(es, g)
        },
        Outgoing::LeaveGroup { cid } => {
            let g = append_field(&mut es, g, text_entry("type", lit("leave_group")), Ghost(("type"@, Wire::Text("leave_group"@))));
            let g = append_field(&mut es, g, uuid_entry("conversation_id", cid), Ghost(("conversation_id"@, Wire::Text(uuid_text(cid)))));
            assert(g@ =~= request_fields(OutFrame::Plain(o0), now_secs)->Some_0);
            object(es, g)
        },
        Outgoing::DeleteMessage { mid } => {
            let g = append_field(&mut es, g, text_entry("type", lit("delete_message")), Ghost(("type"@, Wire::Text("delete_message"@))));
            let g = append_field(&mut es, g, uuid_entry("message_id", mid), Ghost(("message_id"@, Wire::Text(uuid_text(mid)))));
            assert(g@ =~= request_fields(OutFrame::Plain(o0), now_secs)->Some_0);
            object(es, g)
        },
        Outgoing::CheckUser { username, request_id } => {
            let ghost (u, q) = (username@, request_id@);
            let g = append_field(&mut es, g, text_entry("type", lit("check_user")), Ghost(("type"@, Wire::Text("check_user"@))));
            let g = append_field(&mut es, g, text_entry("username", username), Ghost(("username"@, Wire::Text(u))));
            let g = append_field(&mut es, g, text_entry("request_id", request_id), Ghost(("request_id"@, Wire::Text(q))));
            assert(g@ =~= request_fields(OutFrame::Plain(o0), now_secs)->Some_0);
            object(es, g)
        },
        Outgoing::DeleteUser => {
            let g = append_field(&mut es, g, text_entry("type", lit("delete_user")), Ghost(("type"@, Wire::Text("delete_user"@))));
            assert(g@ =~= request_fields(OutFrame::Plain(o0), now_secs)->Some_0);
            object(es, g)
        },
    }
}

/// The JSON object that carries frame `f`, stamped with `now_secs`; `None` for a chat
/// request that was not framed as a chat message.
pub fn frame_object(f: OutFrame, now_secs: i64) -> (r: Option<JsonValue>)
    ensures
        request_object(f, now_secs, r),
{
    match f {
        OutFrame::Chat { content, conversation_id, target_username, client_temp_id, target_usernames, client_msg_id } => {
            Some(chat_object(content, conversation_id, target_username, client_temp_id, target_usernames, client_msg_id, now_secs))
        },
        OutFrame::Plain(o) => plain_object(o, now_secs),
    }
}

/// `r` is the JSON text of frame `f` stamped with `now_secs`: the text of its object, or
/// `None` where it has none.
pub open spec fn frame_texted(f: OutFrame, now_secs: i64, r: Option<String>) -> bool {
    &&& request_fields(f, now_secs) is Some <==> r is Some
    &&& r matches Some(t) ==> exists|j: JsonValue| #[trigger] object_of(j, request_fields(f, now_secs)->Some_0) && t@ == json_text(j)
}

/// The JSON text of frame `f`, stamped with `now_secs`.
pub fn frame_text(f: OutFrame, now_secs: i64) -> (r: Option<String>)
    ensures
        frame_texted(f, now_secs, r),
{
    match frame_object(f, now_secs) {
        Some(j) => Some(to_json_text(&j)),
        None => None,
    }
}

/// The error that the formatter gives a refused request.
pub open spec fn refusal_text(o: Outgoing) -> Seq<char> {
    match o {
        Outgoing::ChatMessage { .. } => "Empty message content"@,
        _ => "Empty username"@,
    }
}

/// `r` is what the formatter gives for request `o` in state `a`: the refusal, or the text
/// of the frame of the prepared request at some clock reading.
pub open spec fn formatted(o: Outgoing, a: AppView, r: Result<String, String>) -> bool {
    match r {
        Err(e) => refused(o) && e@ == refusal_text(o),
        Ok(t) => !refused(o) && sent_as(o, a, t),
    }
}

/// `t` is the text of the frame of request `o`, prepared, in state `a` at some clock
/// reading.
pub open spec fn sent_as(o: Outgoing, a: AppView, t: String) -> bool {
    exists|now: i64, p: Outgoing|
        #![trigger prepared_as(o, p), frame_texted(out_frame_spec(a, p), now, Some(t))]
        now >= 0 && prepared_as(o, p) && frame_texted(out_frame_spec(a, p), now, Some(t))
}

/// A chat message that goes out carries in its `content` field its text cut to
/// `MAX_CONTENT_CHARS` chars.
pub proof fn lemma_chat_frame_content(o: Outgoing, a: AppView, t: String)
    requires
        o is ChatMessage,
        formatted(o, a, Ok(t)),
    ensures
        exists|j: JsonValue| #[trigger] json_text(j) == t@ && (j matches JsonValue::Object(es) && es@.len() > 1
            && es@[1].0@ == "content"@ && (es@[1].1 matches JsonValue::Str(x) && x@ == sent_content(o->content@))),
{
    let (now, p) = choose|now: i64, p: Outgoing|
        #![trigger prepared_as(o, p), frame_texted(out_frame_spec(a, p), now, Some(t))]
        now >= 0 && prepared_as(o, p) && frame_texted(out_frame_spec(a, p), now, Some(t));
    let fs = request_fields(out_frame_spec(a, p), now)->Some_0;
    let j = choose|j: JsonValue| #[trigger] object_of(j, fs) && t@ == json_text(j);
    assert(fs[1] == ("content"@, Wire::Text(sent_content(o->content@))));
    assert(json_text(j) == t@);
}

impl MessageProcessor {
    /// The JSON text that carries request `o` in state `state`, stamped with the current
    /// time in seconds. A blank chat message is refused with "Empty message content" and
    /// an invitation naming nobody or a blank name with "Empty username"; otherwise the
    /// request goes out prepared: a chat message's text cut to `MAX_CONTENT_CHARS`
    /// chars, an invitation's names trimmed.
    pub fn format_outgoing_message(&self, o: Outgoing, state: &AppState) -> (r: Result<String, String>)
        ensures
            formatted(o, state@, r),
    {
        let is_chat = matches!(o, Outgoing::ChatMessage { .. });
        let ghost o0 = o;
        match prepare_outgoing(o) {
            None => {
                if is_chat {
                    Err(lit("Empty message content"))
                } else {
                    Err(lit("Empty username"))
                }
            },
            Some(p) => {
                let ghost p0 = p;
                let f = out_frame(state, p);
                let now = now_secs();
                assert(request_fields(out_frame_spec(state@, p0), now) is Some);
                match frame_text(f, now) {
                    Some(t) => {
                        assert(sent_as(o0, state@, t));
                        Ok(t)
                    },
                    None => {
                        assert(false);
                        Err(lit("JSON serialization error"))
                    },
                }
            },
        }
    }
}

} // verus!
