//! User events: the stream of notifications addressed to the user (new messages, new
//! and deleted conversations, membership changes), kept in order by its sequence.
use vstd::prelude::*;
use crate::cache::{cache_of, contains_id, copy_messages, has_id, insert_sorted, sorted_insert, take_cache};
use crate::external::{new_uuid, parse_uuid, parsed_uuid};
use crate::helpers::{add_system_message, is_system_msg, moved_to_top, move_conversation_to_top, push_system_app, spec_is_system_message};
use crate::conversations::{ensure_sequence_entry, or_zero, unread_diff, unread_difference};
use crate::convlist::{remove_conv, without_conversation};
use crate::text::join3;
use crate::incoming::{cached, conv_seq_app, display_app, display_message, id_or_nil};
use crate::model::{ConversationDto, ConversationPayload, LastMessagePayload, MessageDto, NotificationData, Outgoing, Page, UiEvent};
use crate::sequence::SequenceHandler;
use crate::state::{inc32, incr32, AppState, SequenceStats, OUTGOING_CAPACITY};
use crate::buffer::{flatten_run, without_run, BufferHandler};
use crate::commands::event_app;
use crate::conversations::{confirmed_app, confirmed_text, stub_of, ConversationHandler};
use crate::sequence::user_seq_step;
use crate::view::{AppView, BuffersModel, ChatModel, DataModel, SeqModel, StubsModel};

verus! {

/// The UUID a text reads as, if any.
pub open spec fn opt_uuid(s: Option<String>) -> Option<u128> {
    match s {
        Some(t) => parsed_uuid(t@),
        None => None,
    }
}

/// The UUID a text reads as, or the nil UUID.
pub open spec fn uuid_or_nil(s: Option<String>) -> u128 {
    match opt_uuid(s) {
        Some(u) => u,
        None => 0,
    }
}

/// The text of `o`, or `d` when it has none.
pub open spec fn text_or(o: Option<String>, d: Seq<char>) -> Seq<char> {
    match o {
        Some(s) => s@,
        None => d,
    }
}

/// `o.unwrap_or(d)`.
pub open spec fn int_or(o: Option<i64>, d: i64) -> i64 {
    match o {
        Some(x) => x,
        None => d,
    }
}

/// Reads a UUID out of an optional text.
fn read_uuid(s: &Option<String>) -> (r: Option<u128>)
    ensures
        r == opt_uuid(*s),
{
    match s {
        Some(t) => parse_uuid(t.as_str()),
        None => None,
    }
}

/// Reads a UUID out of an optional text, or the nil UUID.
fn read_uuid_or_nil(s: &Option<String>) -> (r: u128)
    ensures
        r == uuid_or_nil(*s),
{
    match read_uuid(s) {
        Some(u) => u,
        None => 0,
    }
}

/// The text of `o`, or `d` when it has none.
fn text_or_default(o: &Option<String>, d: &str) -> (r: String)
    ensures
        r@ == text_or(*o, d@),
{
    match o {
        Some(s) => s.clone(),
        None => String::from_str(d),
    }
}

/// The time of the last message of a conversation, when it is given.
pub open spec fn last_time(p: ConversationPayload) -> Option<i64> {
    match p.last_message {
        Some(lm) => lm.created_at,
        None => None,
    }
}

/// The sequence (read as a signed integer) of the last message of a conversation.
pub open spec fn last_seq_i64(p: ConversationPayload) -> Option<i64> {
    match p.last_message {
        Some(lm) => lm.sequence_num_i64,
        None => None,
    }
}

/// The title of a conversation: its display title, else its title, else empty.
pub open spec fn payload_title(p: ConversationPayload) -> Seq<char> {
    match p.display_title {
        Some(t) => t@,
        None => text_or(p.title, ""@),
    }
}

/// The larger of two times.
pub open spec fn later(a: i64, b: i64) -> i64 {
    if a >= b { a } else { b }
}

/// `c` is the conversation that a "conversation created" event describes, with the
/// defaults for the missing fields.
pub open spec fn created_conv_ok(p: ConversationPayload, c: ConversationDto) -> bool {
    let created = int_or(p.created_at, 0);
    &&& c.id == uuid_or_nil(p.id)
    &&& c.kind@ == text_or(p.kind, "direct_message"@)
    &&& c.owner_id == uuid_or_nil(p.owner_id)
    &&& c.created_at == created
    &&& c.title@ == payload_title(p)
    &&& c.last_read_sequence == int_or(p.last_read_sequence, 0)
    &&& c.last_activity == later(created, int_or(last_time(p), created))
    &&& c.last_msg_seq == int_or(last_seq_i64(p), 0)
}

/// `msgs` holds the last message of a "conversation created" event for conversation
/// `cid`, with the defaults for the missing fields (an id missing or unreadable is drawn
/// at random), or nothing when the event has none.
pub open spec fn created_msgs_ok(p: ConversationPayload, cid: u128, msgs: Seq<MessageDto>) -> bool {
    match p.last_message {
        None => msgs.len() == 0,
        Some(lm) => {
            &&& msgs.len() == 1
            &&& (opt_uuid(lm.id) matches Some(i) ==> msgs[0].id == i)
            &&& msgs[0].author_id == uuid_or_nil(lm.author_id)
            &&& msgs[0].author_username@ == text_or(lm.author_username, "unknown"@)
            &&& msgs[0].conversation_id == cid
            &&& msgs[0].content@ == text_or(lm.content, ""@)
            &&& msgs[0].created_at == int_or(lm.created_at, 0)
            &&& msgs[0].sequence_num == lm.sequence_num_u64
            &&& msgs[0].client_msg_id is None
            &&& msgs[0].is_confirmed == Some(true)
        },
    }
}

/// The title of a conversation payload.
fn read_title(p: &ConversationPayload) -> (r: String)
    ensures
        r@ == payload_title(*p),
{
    match &p.display_title {
        Some(t) => t.clone(),
        None => text_or_default(&p.title, ""),
    }
}

/// The conversation and its last message that a "conversation created" event describes.
pub fn created_conversation(p: &ConversationPayload) -> (r: (ConversationDto, Vec<MessageDto>))
    ensures
        created_conv_ok(*p, r.0),
        created_msgs_ok(*p, r.0.id, r.1@),
{
    let id = read_uuid_or_nil(&p.id);
    let created_at = match p.created_at {
        Some(t) => t,
        None => 0,
    };
    let last_time = match &p.last_message {
        Some(lm) => match lm.created_at {
            Some(t) => t,
            None => created_at,
        },
        None => created_at,
    };
    let conv = ConversationDto {
        id,
        kind: text_or_default(&p.kind, "direct_message"),
        title: read_title(p),
        owner_id: read_uuid_or_nil(&p.owner_id),
        created_at,
        last_read_sequence: match p.last_read_sequence {
            Some(x) => x,
            None => 0,
        },
        last_activity: if created_at >= last_time { created_at } else { last_time },
        last_msg_seq: match &p.last_message {
            Some(lm) => match lm.sequence_num_i64 {
                Some(x) => x,
                None => 0,
            },
            None => 0,
        },
    };
    let mut messages: Vec<MessageDto> = Vec::new();
    if let Some(lm) = &p.last_message {
        let mid = match read_uuid(&lm.id) {
            Some(u) => u,
            None => new_uuid(),
        };
        messages.push(MessageDto {
            id: mid,
            author_id: read_uuid_or_nil(&lm.author_id),
            conversation_id: id,
            author_username: text_or_default(&lm.author_username, "unknown"),
            content: text_or_default(&lm.content, ""),
            created_at: match lm.created_at {
                Some(t) => t,
                None => 0,
            },
            sequence_num: lm.sequence_num_u64,
            client_msg_id: None,
            is_confirmed: Some(true),
        });
    }
    (conv, messages)
}

/// `c` is the conversation that a "new conversation" event describes, with the defaults
/// for the missing fields.
pub open spec fn new_conv_ok(p: ConversationPayload, c: ConversationDto) -> bool {
    let created = int_or(p.created_at, 0);
    &&& c.id == uuid_or_nil(p.id)
    &&& c.kind@ == text_or(p.kind, "group"@)
    &&& c.owner_id == uuid_or_nil(p.owner_id)
    &&& c.created_at == created
    &&& c.title@ == text_or(p.title, "Gruppo"@)
    &&& c.last_read_sequence == int_or(p.last_read_sequence, 0)
    &&& c.last_activity == int_or(p.last_activity, created)
    &&& c.last_msg_seq == int_or(p.last_msg_seq, 0)
}

/// The conversation that a "new conversation" event describes.
pub fn new_conversation(p: &ConversationPayload) -> (c: ConversationDto)
    ensures
        new_conv_ok(*p, c),
{
    let created_at = match p.created_at {
        Some(t) => t,
        None => 0,
    };
    ConversationDto {
        id: read_uuid_or_nil(&p.id),
        kind: text_or_default(&p.kind, "group"),
        title: text_or_default(&p.title, "Gruppo"),
        owner_id: read_uuid_or_nil(&p.owner_id),
        created_at,
        last_read_sequence: match p.last_read_sequence {
            Some(x) => x,
            None => 0,
        },
        last_activity: match p.last_activity {
            Some(x) => x,
            None => created_at,
        },
        last_msg_seq: match p.last_msg_seq {
            Some(x) => x,
            None => 0,
        },
    }
}

/// The message a conversation confirmation carries as its last message, when all of its
/// fields are there (its ids reading as UUIDs).
pub open spec fn confirmed_message(lm: LastMessagePayload, cid: u128) -> Option<MessageDto> {
    match (opt_uuid(lm.id), opt_uuid(lm.author_id), lm.author_username, lm.content, lm.created_at) {
        (Some(id), Some(author_id), Some(author_username), Some(content), Some(created_at)) => Some(MessageDto {
            id,
            author_id,
            conversation_id: cid,
            author_username,
            content,
            created_at,
            sequence_num: match lm.sequence_num_i64 {
                Some(s) => Some(s as u64),
                None => None,
            },
            client_msg_id: None,
            is_confirmed: Some(true),
        }),
        _ => None,
    }
}

/// Reads the last message of a conversation confirmation.
pub fn read_confirmed_message(lm: &LastMessagePayload, cid: u128) -> (r: Option<MessageDto>)
    ensures
        r == confirmed_message(*lm, cid),
{
    let id = match read_uuid(&lm.id) {
        Some(u) => u,
        None => return None,
    };
    let author_id = match read_uuid(&lm.author_id) {
        Some(u) => u,
        None => return None,
    };
    let author_username = match &lm.author_username {
        Some(u) => u.clone(),
        None => return None,
    };
    let content = match &lm.content {
        Some(c) => c.clone(),
        None => return None,
    };
    let created_at = match lm.created_at {
        Some(t) => t,
        None => return None,
    };
    Some(MessageDto {
        id,
        author_id,
        conversation_id: cid,
        author_username,
        content,
        created_at,
        sequence_num: match lm.sequence_num_i64 {
            Some(s) => Some(s as u64),
            None => None,
        },
        client_msg_id: None,
        is_confirmed: Some(true),
    })
}

/// Whether a conversation confirmation has what it needs: ids reading as UUIDs, a kind
/// and a creation time.
pub open spec fn confirmation_complete(p: ConversationPayload) -> bool {
    opt_uuid(p.id) is Some && opt_uuid(p.owner_id) is Some && p.kind is Some && p.created_at is Some
}

/// `c` and `msgs` are what a complete conversation confirmation describes.
pub open spec fn confirmation_ok(p: ConversationPayload, c: ConversationDto, msgs: Seq<MessageDto>) -> bool {
    let created = p.created_at.unwrap();
    &&& c.id == opt_uuid(p.id).unwrap()
    &&& c.owner_id == opt_uuid(p.owner_id).unwrap()
    &&& c.kind == p.kind.unwrap()
    &&& c.created_at == created
    &&& c.title@ == payload_title(p)
    &&& c.last_read_sequence == int_or(p.last_read_sequence, 0)
    &&& c.last_activity == later(created, int_or(last_time(p), 0))
    &&& c.last_msg_seq == int_or(last_seq_i64(p), 0)
    &&& msgs == match p.last_message {
        Some(lm) => match confirmed_message(lm, c.id) {
            Some(m) => seq![m],
            None => Seq::empty(),
        },
        None => Seq::empty(),
    }
}

/// Reads a conversation confirmation: the conversation, its last message if any, and
/// the client's id for the stub it replaces; nothing when the confirmation is incomplete.
pub fn read_confirmation(p: ConversationPayload) -> (r: Option<(ConversationDto, Vec<MessageDto>, Option<String>)>)
    ensures
        r is Some == confirmation_complete(p),
        r matches Some(t) ==> confirmation_ok(p, t.0, t.1@) && t.2 == p.client_temp_id,
{
    let id = match read_uuid(&p.id) {
        Some(u) => u,
        None => return None,
    };
    let owner_id = match read_uuid(&p.owner_id) {
        Some(u) => u,
        None => return None,
    };
    let kind = match &p.kind {
        Some(k) => k.clone(),
        None => return None,
    };
    let created_at = match p.created_at {
        Some(t) => t,
        None => return None,
    };
    let last_time = match &p.last_message {
        Some(lm) => match lm.created_at {
            Some(t) => t,
            None => 0,
        },
        None => 0,
    };
    let conv = ConversationDto {
        id,
        kind,
        title: read_title(&p),
        owner_id,
        created_at,
        last_read_sequence: match p.last_read_sequence {
            Some(x) => x,
            None => 0,
        },
        last_activity: if created_at >= last_time { created_at } else { last_time },
        last_msg_seq: match &p.last_message {
            Some(lm) => match lm.sequence_num_i64 {
                Some(x) => x,
                None => 0,
            },
            None => 0,
        },
    };
    let mut messages: Vec<MessageDto> = Vec::new();
    if let Some(lm) = &p.last_message {
        if let Some(m) = read_confirmed_message(lm, id) {
            messages.push(m);
        }
    }
    proof {
        assert(messages@ =~= match p.last_message {
            Some(lm) => match confirmed_message(lm, id) {
                Some(m) => seq![m],
                None => Seq::<MessageDto>::empty(),
            },
            None => Seq::<MessageDto>::empty(),
        });
    }
    Some((conv, messages, p.client_temp_id))
}

/// The announcement of a conversation created and synchronised, titled `title`.
pub open spec fn created_text(title: Seq<char>) -> Seq<char> {
    "Nuova conversazione '"@ + title + "' creata e sincronizzata"@
}

/// The unread count of a conversation created with `msgs` as its last messages: how far
/// the first one is beyond the last read sequence, when someone else wrote it.
pub open spec fn created_unread(a: AppView, c: ConversationDto, msgs: Seq<MessageDto>) -> i64 {
    if msgs.len() > 0 {
        match msgs[0].sequence_num {
            Some(s) => {
                let u = unread_diff(s as i64, c.last_read_sequence);
                if msgs[0].author_id != id_or_nil(a.session.user_id) && u > 0 { u } else { 0 }
            },
            None => 0,
        }
    } else {
        0
    }
}

/// The state after the conversation `c`, created with the messages `msgs`, is put in the
/// list (replacing any entry and DM stub with its id), its messages cached and its unread
/// count set.
pub open spec fn place_created_app(a: AppView, c: ConversationDto, msgs: Seq<MessageDto>) -> AppView {
    let id = c.id;
    let a1 = AppView {
        stubs: StubsModel { dm_stubs: a.stubs.dm_stubs.remove(id), ..a.stubs },
        data: DataModel {
            conversations: Some(match a.data.conversations {
                Some(l) => remove_conv(l, id).push(c),
                None => seq![c],
            }),
            ..a.data
        },
        ..a
    };
    let a2 = if msgs.len() > 0 {
        let b = AppView {
            data: DataModel { conversation_messages: a1.data.conversation_messages.insert(id, msgs), ..a1.data },
            ..a1
        };
        if b.view.cid == Some(id) { AppView { view: ChatModel { messages: msgs, ..b.view }, ..b } } else { b }
    } else {
        a1
    };
    AppView {
        data: DataModel {
            conversation_unread_counts: a2.data.conversation_unread_counts.insert(id, created_unread(a, c, msgs)),
            ..a2.data
        },
        ..a2
    }
}

/// The state after the chat page, showing `c` or no conversation, switches to `c`.
pub open spec fn open_created_app(a: AppView, c: ConversationDto) -> AppView {
    let id = c.id;
    if a.view.page == Page::Chat && (a.view.cid == Some(id) || a.view.cid is None) {
        let b = AppView {
            view: ChatModel { cid: Some(id), conv_title: c.title@, ..a.view },
            data: DataModel { conversation_unread_counts: a.data.conversation_unread_counts.insert(id, 0), ..a.data },
            ..a
        };
        if b.data.conversation_messages.contains_key(id) {
            AppView { view: ChatModel { messages: b.data.conversation_messages[id], ..b.view }, ..b }
        } else {
            b
        }
    } else {
        a
    }
}

/// The state after a "conversation created" event for `c` with `msgs`, before the
/// announcement.
pub open spec fn created_complete_app(a: AppView, c: ConversationDto, msgs: Seq<MessageDto>) -> AppView {
    open_created_app(place_created_app(a, c, msgs), c)
}

fn place_created(state: &mut AppState, c: &ConversationDto, msgs: &Vec<MessageDto>)
    ensures
        final(state)@ == place_created_app(old(state)@, *c, msgs@),
{
    let id = c.id;
    let _ = state.stubs.dm_stubs.remove(&id);
    match state.data.conversations.take() {
        Some(l) => {
            let mut kept = without_conversation(l, id);
            kept.push(c.duplicate());
            state.data.conversations = Some(kept);
        },
        None => {
            let mut v = Vec::new();
            v.push(c.duplicate());
            state.data.conversations = Some(v);
        },
    }
    if msgs.len() > 0 {
        state.data.conversation_messages.insert(id, copy_messages(msgs));
        proof {
            assert(state@.data.conversation_messages =~= old(state)@.data.conversation_messages.insert(id, msgs@));
        }
        if state.view.cid == Some(id) {
            state.view.messages = copy_messages(msgs);
        }
    }
    let user = match state.session.user_id {
        Some(u) => u,
        None => 0,
    };
    let unread: i64 = if msgs.len() > 0 {
        match msgs[0].sequence_num {
            Some(s) => {
                let u = unread_difference(s as i64, c.last_read_sequence);
                if msgs[0].author_id != user && u > 0 { u } else { 0 }
            },
            None => 0,
        }
    } else {
        0
    };
    state.data.conversation_unread_counts.insert(id, unread);
}

fn open_created(state: &mut AppState, c: &ConversationDto)
    ensures
        final(state)@ == open_created_app(old(state)@, *c),
{
    let id = c.id;
    let showing = match state.view.cid {
        Some(x) => x == id,
        None => true,
    };
    if state.view.page == Page::Chat && showing {
        state.view.cid = Some(id);
        state.view.conv_title = c.title.clone();
        state.data.conversation_unread_counts.insert(id, 0);
        let cached_msgs = match state.data.conversation_messages.get(&id) {
            Some(v) => Some(copy_messages(v)),
            None => None,
        };
        if let Some(v) = cached_msgs {
            state.view.messages = v;
        }
    }
}

/// Takes in the conversation `conversation`, created with the messages `messages`, that
/// a "conversation created" event described; announces it and moves it to the top.
pub fn apply_created_complete(state: &mut AppState, conversation: ConversationDto, messages: Vec<MessageDto>)
    ensures
        exists|sys: MessageDto|
            is_system_msg(sys, created_text(conversation.title@), 0) && final(state)@ == #[trigger] move_top_app(
                push_system_app(created_complete_app(old(state)@, conversation, messages@), sys),
                conversation.id,
            ),
{
    place_created(state, &conversation, &messages);
    open_created(state, &conversation);
    let ghost a1 = state@;
    let text = join3("Nuova conversazione '", conversation.title.as_str(), "' creata e sincronizzata");
    add_system_message(state, text);
    let ghost sys = choose|sys: MessageDto| is_system_msg(sys, text@, 0) && state@ == push_system_app(a1, sys);
    move_conversation_to_top(state, conversation.id);
    assert(state@ == move_top_app(push_system_app(created_complete_app(old(state)@, conversation, messages@), sys), conversation.id));
}

/// `s` without its system messages, in order.
pub open spec fn non_system(s: Seq<MessageDto>) -> Seq<MessageDto>
    decreases s.len(),
{
    if s.len() == 0 {
        Seq::empty()
    } else if spec_is_system_message(s.last()) {
        non_system(s.drop_last())
    } else {
        non_system(s.drop_last()).push(s.last())
    }
}

fn without_system(s: &Vec<MessageDto>) -> (r: Vec<MessageDto>)
    ensures
        r@ == non_system(s@),
{
    let mut out: Vec<MessageDto> = Vec::new();
    let mut i: usize = 0;
    while i < s.len()
        invariant
            i <= s.len(),
            out@ == non_system(s@.take(i as int)),
        decreases s.len() - i,
    {
        proof {
            assert(s@.take(i + 1).drop_last() =~= s@.take(i as int));
            assert(s@.take(i + 1).last() == s@[i as int]);
        }
        if !s[i].is_system_message() {
            out.push(s[i].duplicate());
        }
        i = i + 1;
    }
    proof {
        assert(s@.take(s.len() as int) =~= s@);
    }
    out
}

/// The group stub that the real group `c` replaces: the one whose id the client gave,
/// when `c` is a group and that stub exists.
pub open spec fn replaced_stub(a: AppView, c: ConversationDto, candidate: Option<u128>) -> Option<u128> {
    if c.kind@ == "group"@ {
        match candidate {
            Some(s) if a.stubs.group_stubs.contains_key(s) => Some(s),
            _ => None,
        }
    } else {
        None
    }
}

/// The state after the group stub `s` is replaced by the real group `c`: the stub leaves
/// the list, the stubs, the unread counts and the sequences; its messages other than the
/// system ones move to the group; a view of the stub switches to the group.
pub open spec fn replace_stub_app(a: AppView, c: ConversationDto, s: u128) -> AppView {
    let cache = a.data.conversation_messages;
    let moved = non_system(cache_of(cache, s));
    let cache1 = cache.remove(s);
    let cache2 = if moved.len() > 0 { cache1.insert(c.id, cache_of(cache1, c.id) + moved) } else { cache1 };
    let a1 = AppView {
        data: DataModel {
            conversations: match a.data.conversations {
                Some(l) => Some(remove_conv(l, s)),
                None => None,
            },
            conversation_messages: cache2,
            conversation_unread_counts: a.data.conversation_unread_counts.remove(s),
            ..a.data
        },
        stubs: StubsModel { group_stubs: a.stubs.group_stubs.remove(s), ..a.stubs },
        seq: SeqModel {
            conversation_sequences: a.seq.conversation_sequences.remove(s),
            conversation_sequences_confirmed: a.seq.conversation_sequences_confirmed.remove(s),
            ..a.seq
        },
        ..a
    };
    if a.view.cid == Some(s) {
        AppView {
            view: ChatModel {
                cid: Some(c.id),
                conv_title: c.title@,
                page: Page::Chat,
                messages: cache_of(cache2, c.id),
                ..a1.view
            },
            ..a1
        }
    } else {
        a1
    }
}

fn replace_group_stub(state: &mut AppState, c: &ConversationDto, s: u128)
    ensures
        final(state)@ == replace_stub_app(old(state)@, *c, s),
{
    if let Some(l) = state.data.conversations.take() {
        state.data.conversations = Some(without_conversation(l, s));
    }
    let _ = state.stubs.group_stubs.remove(&s);
    let stub_msgs = take_cache(&mut state.data.conversation_messages, s);
    let moved = without_system(&stub_msgs);
    if moved.len() > 0 {
        let mut target = take_cache(&mut state.data.conversation_messages, c.id);
        let mut more = moved;
        target.append(&mut more);
        state.data.conversation_messages.insert(c.id, target);
    }
    proof {
        let cache = old(state)@.data.conversation_messages;
        let r = non_system(cache_of(cache, s));
        let cache1 = cache.remove(s);
        assert(state@.data.conversation_messages =~= (if r.len() > 0 { cache1.insert(c.id, cache_of(cache1, c.id) + r) } else { cache1 }));
    }
    let _ = state.data.conversation_unread_counts.remove(&s);
    state.seq.conversation_sequences.remove(&s);
    state.seq.conversation_sequences_confirmed.remove(&s);
    if state.view.cid == Some(s) {
        state.view.cid = Some(c.id);
        state.view.conv_title = c.title.clone();
        state.view.page = Page::Chat;
        state.view.messages = match state.data.conversation_messages.get(&c.id) {
            Some(v) => copy_messages(v),
            None => Vec::new(),
        };
    }
}

/// The state after the new conversation `c` joins the list (at the top when it replaces
/// a stub, at the end otherwise) with zero counters where it had none.
pub open spec fn list_new_app(a: AppView, c: ConversationDto, replaced: bool) -> AppView {
    match a.data.conversations {
        None => a,
        Some(l) => {
            let id = c.id;
            AppView {
                data: DataModel {
                    conversations: Some(if replaced { remove_conv(l, id).insert(0, c) } else { remove_conv(l, id).push(c) }),
                    conversation_unread_counts: if a.data.conversation_unread_counts.contains_key(id) {
                        a.data.conversation_unread_counts
                    } else {
                        a.data.conversation_unread_counts.insert(id, 0)
                    },
                    conversation_messages: if a.data.conversation_messages.contains_key(id) {
                        a.data.conversation_messages
                    } else {
                        a.data.conversation_messages.insert(id, Seq::empty())
                    },
                    ..a.data
                },
                seq: SeqModel {
                    conversation_sequences: or_zero(a.seq.conversation_sequences, id),
                    conversation_sequences_confirmed: or_zero(a.seq.conversation_sequences_confirmed, id),
                    ..a.seq
                },
                ..a
            }
        },
    }
}

/// Gives conversation `id` zero counters and an empty cache where it has none.
fn zero_counters(state: &mut AppState, id: u128)
    ensures
        final(state)@ == (AppView {
            data: DataModel {
                conversation_unread_counts: if old(state)@.data.conversation_unread_counts.contains_key(id) {
                    old(state)@.data.conversation_unread_counts
                } else {
                    old(state)@.data.conversation_unread_counts.insert(id, 0)
                },
                conversation_messages: if old(state)@.data.conversation_messages.contains_key(id) {
                    old(state)@.data.conversation_messages
                } else {
                    old(state)@.data.conversation_messages.insert(id, Seq::empty())
                },
                ..old(state)@.data
            },
            seq: SeqModel {
                conversation_sequences: or_zero(old(state)@.seq.conversation_sequences, id),
                conversation_sequences_confirmed: or_zero(old(state)@.seq.conversation_sequences_confirmed, id),
                ..old(state)@.seq
            },
            ..old(state)@
        }),
{
    zero_unread(&mut state.data.conversation_unread_counts, id);
    ensure_sequence_entry(&mut state.seq.conversation_sequences, id);
    ensure_sequence_entry(&mut state.seq.conversation_sequences_confirmed, id);
    if !state.data.conversation_messages.contains_key(&id) {
        state.data.conversation_messages.insert(id, Vec::new());
        proof {
            assert(state@.data.conversation_messages =~= old(state)@.data.conversation_messages.insert(id, Seq::empty()));
        }
    }
}

/// Gives `id` a zero unread count where it has none.
fn zero_unread(m: &mut std::collections::HashMap<u128, i64>, id: u128)
    ensures
        final(m)@ == (if old(m)@.contains_key(id) { old(m)@ } else { old(m)@.insert(id, 0) }),
{
    if !m.contains_key(&id) {
        m.insert(id, 0);
    }
}

fn list_new(state: &mut AppState, c: &ConversationDto, replaced: bool)
    ensures
        final(state)@ == list_new_app(old(state)@, *c, replaced),
{
    let id = c.id;
    if let Some(l) = state.data.conversations.take() {
        let mut kept = without_conversation(l, id);
        if replaced {
            kept.insert(0, c.duplicate());
        } else {
            kept.push(c.duplicate());
        }
        state.data.conversations = Some(kept);
        zero_counters(state, id);
    }
}

/// The announcement that the user was added to group `title`.
pub open spec fn added_text(title: Seq<char>) -> Seq<char> {
    "✅ Sei stato aggiunto al gruppo '"@ + title + "'"@
}

/// `b` is `a` after the new conversation `c` is taken in, `candidate` being the stub the
/// client named for it: a replaced stub goes; the conversation joins the list, when
/// there is one, and moves to the top, announced unless it replaces a stub.
pub open spec fn new_conversation_rel(a: AppView, b: AppView, c: ConversationDto, candidate: Option<u128>) -> bool {
    match replaced_stub(a, c, candidate) {
        Some(s) => {
            let a1 = replace_stub_app(a, c, s);
            if a1.data.conversations is None {
                b == a1
            } else {
                b == move_top_app(list_new_app(a1, c, true), c.id)
            }
        },
        None => if a.data.conversations is None {
            b == a
        } else {
            exists|sys: MessageDto|
                is_system_msg(sys, added_text(c.title@), 0)
                    && b == #[trigger] move_top_app(push_system_app(list_new_app(a, c, false), sys), c.id)
        },
    }
}

/// Takes in the new conversation `c`; `candidate` is the stub the client named for it.
pub fn apply_new_conversation(state: &mut AppState, c: ConversationDto, candidate: Option<u128>)
    ensures
        new_conversation_rel(old(state)@, final(state)@, c, candidate),
{
    let group = String::from_str("group");
    let stub = if c.kind == group {
        match candidate {
            Some(s) => if state.stubs.group_stubs.contains_key(&s) { Some(s) } else { None },
            None => None,
        }
    } else {
        None
    };
    assert(stub == replaced_stub(old(state)@, c, candidate));
    if let Some(s) = stub {
        replace_group_stub(state, &c, s);
    }
    let ghost a1 = state@;
    assert(a1 == match stub {
        Some(s) => replace_stub_app(old(state)@, c, s),
        None => old(state)@,
    });
    if state.data.conversations.is_none() {
        return;
    }
    list_new(state, &c, stub.is_some());
    assert(state@ == list_new_app(a1, c, stub is Some));
    if stub.is_none() {
        let ghost a2 = state@;
        let text = join3("✅ Sei stato aggiunto al gruppo '", c.title.as_str(), "'");
        add_system_message(state, text);
        let ghost sys = choose|sys: MessageDto| is_system_msg(sys, text@, 0) && state@ == push_system_app(a2, sys);
        move_conversation_to_top(state, c.id);
        assert(state@ == move_top_app(push_system_app(a2, sys), c.id));
        assert(is_system_msg(sys, added_text(c.title@), 0));
        assert(state@ == move_top_app(push_system_app(list_new_app(a1, c, false), sys), c.id));
    } else {
        move_conversation_to_top(state, c.id);
        assert(state@ == move_top_app(list_new_app(a1, c, true), c.id));
    }
}

/// The message of a new message event with its conversation sequence, when the event
/// gives one, in place of its own.
pub open spec fn with_conv_seq(m: MessageDto, cs: Option<u64>) -> MessageDto {
    match cs {
        Some(s) => MessageDto { sequence_num: Some(s), ..m },
        None => m,
    }
}

/// The state with conversation `cid` moved to the top of the list.
pub open spec fn move_top_app(a: AppView, cid: u128) -> AppView {
    AppView {
        data: DataModel {
            conversations: match a.data.conversations {
                Some(s) => Some(moved_to_top(s, cid)),
                None => None,
            },
            ..a.data
        },
        ..a
    }
}

/// The state after a new message event carrying `msg` (when it read as a message) and
/// the conversation sequence `cs`: a message already cached is skipped; otherwise its
/// sequence is recorded, it is cached in its place, shown or counted as unread, and its
/// conversation moves to the top.
pub open spec fn new_message_app(a: AppView, msg: Option<MessageDto>, cs: Option<u64>) -> AppView {
    match msg {
        None => a,
        Some(m0) => {
            let m = with_conv_seq(m0, cs);
            if cached(a, m) { a } else { fresh_message_app(a, m) }
        },
    }
}

/// The state after the new message `m`, not yet cached, is recorded, cached in its
/// place, shown or counted as unread, and its conversation moved to the top.
pub open spec fn fresh_message_app(a: AppView, m: MessageDto) -> AppView {
    let cid = m.conversation_id;
    let a1 = match m.sequence_num {
        Some(s) => conv_seq_app(a, cid, s),
        None => a,
    };
    let a2 = AppView {
        data: DataModel {
            conversation_messages: a1.data.conversation_messages.insert(
                cid,
                sorted_insert(cache_of(a1.data.conversation_messages, cid), m),
            ),
            ..a1.data
        },
        ..a1
    };
    move_top_app(display_app(a2, cid, m), cid)
}

/// Whether `m` is already in the cache of its conversation.
fn is_cached(state: &AppState, m: &MessageDto) -> (r: bool)
    ensures
        r == cached(state@, *m),
{
    match state.data.conversation_messages.get(&m.conversation_id) {
        Some(cache) => contains_id(cache, m.id),
        None => false,
    }
}

/// Caches `m` in its place in its conversation.
fn cache_in_place(state: &mut AppState, m: &MessageDto)
    ensures
        final(state)@ == (AppView {
            data: DataModel {
                conversation_messages: old(state)@.data.conversation_messages.insert(
                    m.conversation_id,
                    sorted_insert(cache_of(old(state)@.data.conversation_messages, m.conversation_id), *m),
                ),
                ..old(state)@.data
            },
            ..old(state)@
        }),
{
    let cid = m.conversation_id;
    let mut cache = take_cache(&mut state.data.conversation_messages, cid);
    insert_sorted(&mut cache, m.duplicate());
    state.data.conversation_messages.insert(cid, cache);
    proof {
        assert(state@.data.conversation_messages =~= old(state)@.data.conversation_messages.insert(
            cid, sorted_insert(cache_of(old(state)@.data.conversation_messages, cid), *m)));
    }
}

/// Records, caches, shows and moves up the new message `m`.
fn apply_fresh_message(state: &mut AppState, m: MessageDto)
    ensures
        final(state)@ == fresh_message_app(old(state)@, m),
{
    let cid = m.conversation_id;
    if let Some(s) = m.sequence_num {
        SequenceHandler::update_conversation_sequence(state, cid, s);
    }
    cache_in_place(state, &m);
    display_message(state, cid, m);
    move_conversation_to_top(state, cid);
}

/// Handles a new message event.
fn handle_new_message(state: &mut AppState, message: Option<MessageDto>, conversation_sequence: Option<u64>)
    ensures
        final(state)@ == new_message_app(old(state)@, message, conversation_sequence),
{
    let mut msg = match message {
        Some(m) => m,
        None => return,
    };
    if let Some(cs) = conversation_sequence {
        msg.sequence_num = Some(cs);
    }
    if is_cached(state, &msg) {
        return;
    }
    apply_fresh_message(state, msg);
}

/// The state with one more recovered event counted, for an event replayed in a recovery.
pub open spec fn recovery_count_app(a: AppView, recovery: bool) -> AppView {
    if recovery {
        AppView {
            seq: SeqModel {
                stats: SequenceStats { events_recovered: inc32(a.seq.stats.events_recovered), ..a.seq.stats },
                ..a.seq
            },
            ..a
        }
    } else {
        a
    }
}

/// The state after the read receipt that follows a user event about `cid`, when `cid` is
/// open and has a sequence (the confirmed one, else the received one) and the request
/// queue has room.
pub open spec fn event_mark_read_app(a: AppView, cid: Option<u128>) -> AppView {
    match cid {
        Some(c) => if a.view.cid == Some(c) {
            let s = if a.seq.conversation_sequences_confirmed.contains_key(c) {
                Some(a.seq.conversation_sequences_confirmed[c])
            } else if a.seq.conversation_sequences.contains_key(c) {
                Some(a.seq.conversation_sequences[c])
            } else {
                None
            };
            match s {
                Some(x) => if a.outgoing.len() < OUTGOING_CAPACITY {
                    AppView { outgoing: a.outgoing.push(Outgoing::MarkRead { conversation_id: c, sequence_num: x }), ..a }
                } else {
                    a
                },
                None => a,
            }
        } else {
            a
        },
        None => a,
    }
}

/// `b` is `a` after a "conversation created" event describing `p`.
pub open spec fn created_complete_rel(a: AppView, b: AppView, p: ConversationPayload) -> bool {
    exists|conv: ConversationDto, msgs: Seq<MessageDto>, sys: MessageDto| {
        &&& created_conv_ok(p, conv)
        &&& created_msgs_ok(p, conv.id, msgs)
        &&& is_system_msg(sys, created_text(conv.title@), 0)
        &&& b == #[trigger] move_top_app(push_system_app(created_complete_app(a, conv, msgs), sys), conv.id)
    }
}

/// `b` is `a` after a "new conversation" event describing `p`.
pub open spec fn new_conversation_event_rel(a: AppView, b: AppView, p: ConversationPayload) -> bool {
    exists|conv: ConversationDto| new_conv_ok(p, conv) && #[trigger] new_conversation_rel(a, b, conv, opt_uuid(p.client_temp_id))
}

/// `b` is `a` after a conversation confirmation describing `p`; an incomplete one is ignored.
pub open spec fn confirmation_event_rel(a: AppView, b: AppView, p: ConversationPayload) -> bool {
    if confirmation_complete(p) {
        exists|conv: ConversationDto, msgs: Seq<MessageDto>, sys: MessageDto| {
            &&& confirmation_ok(p, conv, msgs)
            &&& is_system_msg(sys, confirmed_text(conv.title@), 0)
            &&& b == #[trigger] push_system_app(confirmed_app(a, conv, msgs, stub_of(p.client_temp_id)), sys)
        }
    } else {
        b == a
    }
}

/// `b` is `a` after the user event of type `event_type` with data `data` about `cid`
/// did what its type asks; a type the client does not know changes nothing.
pub open spec fn notification_step(a: AppView, b: AppView, event_type: Seq<char>, data: NotificationData, cid: Option<u128>) -> bool {
    if event_type == "new_message"@ {
        b == new_message_app(a, data.message, data.conversation_sequence)
    } else if event_type == "conversation_deleted"@ || event_type == "member_kicked"@ {
        b == match cid {
            Some(c) => event_app(a, UiEvent::ConversationDeleted(c)),
            None => a,
        }
    } else if event_type == "member_list_updated"@ {
        b == match data.members {
            Some(ms) => event_app(a, UiEvent::MembersLoaded(id_or_nil(cid), ms)),
            None => a,
        }
    } else if event_type == "user_left_group"@ {
        b == event_app(a, UiEvent::ConversationListUpdated)
    } else if event_type == "conversation_created_complete"@ {
        match data.conversation {
            Some(p) => created_complete_rel(a, b, p),
            None => b == a,
        }
    } else if event_type == "new_conversation"@ {
        match data.conversation {
            Some(p) => new_conversation_event_rel(a, b, p),
            None => b == a,
        }
    } else if event_type == "conversation_confirmation"@ {
        match data.conversation {
            Some(p) => confirmation_event_rel(a, b, p),
            None => b == a,
        }
    } else {
        b == a
    }
}

/// `b` is `a` after the user event of type `event_type` with data `data` about `cid` was
/// processed: counted when replayed, handled, and followed by a read receipt.
pub open spec fn processed(a: AppView, b: AppView, event_type: Seq<char>, data: NotificationData, cid: Option<u128>, recovery: bool) -> bool {
    exists|mid: AppView|
        #[trigger] notification_step(recovery_count_app(a, recovery), mid, event_type, data, cid)
            && b == event_mark_read_app(mid, cid)
}

fn is_type(t: &String, lit: &str) -> (r: bool)
    ensures
        r == (t@ == lit@),
{
    *t == String::from_str(lit)
}

fn notification_step_exec(state: &mut AppState, event_type: &String, data: NotificationData, cid: Option<u128>)
    ensures
        notification_step(old(state)@, final(state)@, event_type@, data, cid),
{
    let ghost d = data;
    if is_type(event_type, "new_message") {
        handle_new_message(state, data.message, data.conversation_sequence);
    } else if is_type(event_type, "conversation_deleted") || is_type(event_type, "member_kicked") {
        if let Some(c) = cid {
            state.send_ui_event(UiEvent::ConversationDeleted(c));
        }
    } else if is_type(event_type, "member_list_updated") {
        if let Some(ms) = data.members {
            let target = match cid {
                Some(c) => c,
                None => 0,
            };
            state.send_ui_event(UiEvent::MembersLoaded(target, ms));
        }
    } else if is_type(event_type, "user_left_group") {
        state.send_ui_event(UiEvent::ConversationListUpdated);
    } else if is_type(event_type, "conversation_created_complete") {
        if let Some(p) = data.conversation {
            let (c, m) = created_conversation(&p);
            let ghost gc = c;
            let ghost gm = m@;
            apply_created_complete(state, c, m);
            assert(created_complete_rel(old(state)@, state@, p)) by {
                let sys = choose|sys: MessageDto| is_system_msg(sys, created_text(gc.title@), 0) && state@ == move_top_app(
                    push_system_app(created_complete_app(old(state)@, gc, gm), sys), gc.id);
                assert(state@ == move_top_app(push_system_app(created_complete_app(old(state)@, gc, gm), sys), gc.id));
            }
        }
    } else if is_type(event_type, "new_conversation") {
        if let Some(p) = data.conversation {
            let c = new_conversation(&p);
            let ghost gc = c;
            let candidate = read_uuid(&p.client_temp_id);
            apply_new_conversation(state, c, candidate);
            assert(new_conversation_rel(old(state)@, state@, gc, opt_uuid(p.client_temp_id)));
        }
    } else if is_type(event_type, "conversation_confirmation") {
        if let Some(p) = data.conversation {
            let ghost gp = p;
            match read_confirmation(p) {
                Some((c, m, t)) => {
                    let ghost gc = c;
                    let ghost gm = m@;
                    ConversationHandler::handle_conversation_confirmed(state, c, m, t);
                    assert(confirmation_event_rel(old(state)@, state@, gp)) by {
                        let sys = choose|sys: MessageDto| is_system_msg(sys, confirmed_text(gc.title@), 0)
                            && state@ == push_system_app(confirmed_app(old(state)@, gc, gm, stub_of(gp.client_temp_id)), sys);
                        assert(state@ == push_system_app(confirmed_app(old(state)@, gc, gm, stub_of(gp.client_temp_id)), sys));
                    }
                },
                None => {},
            }
        }
    }
}

fn mark_read_after_event(state: &mut AppState, cid: Option<u128>)
    ensures
        final(state)@ == event_mark_read_app(old(state)@, cid),
{
    if let Some(c) = cid {
        if state.view.cid == Some(c) {
            let s = match state.seq.conversation_sequences_confirmed.get(&c) {
                Some(x) => Some(*x),
                None => match state.seq.conversation_sequences.get(&c) {
                    Some(x) => Some(*x),
                    None => None,
                },
            };
            if let Some(x) = s {
                let _ = state.try_send_outgoing(Outgoing::MarkRead { conversation_id: c, sequence_num: x });
            }
        }
    }
}

fn process_user_notification(
    state: &mut AppState,
    sequence: u64,
    event_type: String,
    data: NotificationData,
    conversation_id: Option<u128>,
    recovery: bool,
)
    ensures
        processed(old(state)@, final(state)@, event_type@, data, conversation_id, recovery),
{
    let _ = sequence;
    if recovery {
        state.seq.sequence_stats.events_recovered = incr32(state.seq.sequence_stats.events_recovered);
    }
    let ghost a0 = state@;
    assert(a0 == recovery_count_app(old(state)@, recovery));
    let ghost d = data;
    notification_step_exec(state, &event_type, data, conversation_id);
    let ghost mid = state@;
    mark_read_after_event(state, conversation_id);
    assert(notification_step(recovery_count_app(old(state)@, recovery), mid, event_type@, d, conversation_id));
}

/// The state after the user sequence records `s`.
pub open spec fn user_seq_app(a: AppView, s: u64) -> AppView {
    let r = user_seq_step(a.seq, a.outgoing, s);
    AppView { seq: r.0, outgoing: r.1, ..a }
}

/// `b` is `a` after a buffered user event `ev` is delivered: recorded and processed
/// when its data carries a sequence (as an event of its own type, "unknown" when none),
/// skipped otherwise.
pub open spec fn one_buffered(a: AppView, b: AppView, ev: NotificationData) -> bool {
    match ev.sequence {
        None => b == a,
        Some(s) => processed(user_seq_app(a, s), b, text_or(ev.event_type, "unknown"@), ev, ev.conversation_id, false),
    }
}

/// `states` goes from `a` through the delivery of each buffered user event of `evs`, in
/// order.
pub open spec fn delivery_trace(states: Seq<AppView>, evs: Seq<NotificationData>) -> bool {
    &&& states.len() == evs.len() + 1
    &&& forall|i: int| 0 <= i < evs.len() ==> #[trigger] one_buffered(states[i], states[i + 1], evs[i])
}

/// `b` is `a` after the buffered user events `evs` are delivered in order.
pub open spec fn all_buffered(a: AppView, b: AppView, evs: Seq<NotificationData>) -> bool {
    exists|states: Seq<AppView>| #[trigger] delivery_trace(states, evs) && states[0] == a && states.last() == b
}

/// `b` is `a` after the buffered user events that now come in order are taken out of
/// the buffer and delivered.
pub open spec fn deliver_rel(a: AppView, b: AppView) -> bool {
    let start = a.seq.user_sequence_confirmed + 1;
    all_buffered(
        AppView { buffers: BuffersModel { user_events: without_run(a.buffers.user_events, start), ..a.buffers }, ..a },
        b,
        flatten_run(a.buffers.user_events, start),
    )
}

fn deliver_one(state: &mut AppState, ev: NotificationData)
    ensures
        one_buffered(old(state)@, final(state)@, ev),
{
    if let Some(s) = ev.sequence {
        SequenceHandler::update_user_sequence(state, s);
        let ghost a1 = state@;
        assert(a1 == user_seq_app(old(state)@, s));
        let event_type = text_or_default(&ev.event_type, "unknown");
        let cid = ev.conversation_id;
        process_user_notification(state, s, event_type, ev, cid, false);
    }
}

/// The state after the user sequence records `s`, when it is not 0.
pub open spec fn seq_recorded_app(a: AppView, s: u64) -> AppView {
    if s > 0 { user_seq_app(a, s) } else { a }
}

/// The state after a user event that comes ahead of its turn is buffered.
pub open spec fn buffered_event_app(a: AppView, sequence: u64, data: NotificationData) -> AppView {
    let ev = a.buffers.user_events;
    AppView {
        buffers: BuffersModel {
            user_events: ev.insert(sequence, (if ev.contains_key(sequence) { ev[sequence] } else { Seq::empty() }).push(data)),
            ..a.buffers
        },
        ..a
    }
}

/// `b` is `a` after a user event with sequence `sequence`: one ahead of its turn is
/// buffered, one already seen is skipped; one in order is recorded and processed, and
/// then the buffered events that now come in order are delivered.
pub open spec fn user_notification_rel(
    a: AppView,
    b: AppView,
    sequence: u64,
    event_type: Seq<char>,
    data: NotificationData,
    cid: Option<u128>,
    recovery: bool,
) -> bool {
    let expected = a.seq.user_sequence_confirmed + 1;
    if sequence > expected {
        b == buffered_event_app(a, sequence, data)
    } else if sequence < expected && sequence > 0 {
        b == a
    } else {
        exists|mid: AppView| #[trigger] processed(seq_recorded_app(a, sequence), mid, event_type, data, cid, recovery) && deliver_rel(mid, b)
    }
}

/// Handling of the user event stream.
pub struct UserNotificationHandler;

impl UserNotificationHandler {
    /// A user event arrived with sequence `sequence`: one ahead of its turn is buffered,
    /// one already seen is skipped; one in order is recorded and processed, and then the
    /// buffered events that now come in order are delivered.
    pub fn handle_user_notification(
        state: &mut AppState,
        sequence: u64,
        event_type: String,
        event_data: NotificationData,
        conversation_id: Option<u128>,
        recovery: bool,
    )
        ensures
            user_notification_rel(old(state)@, final(state)@, sequence, event_type@, event_data, conversation_id, recovery),
    {
        let confirmed = state.seq.user_sequence_confirmed;
        if confirmed < u64::MAX && sequence > confirmed + 1 {
            BufferHandler::buffer_user_event_for_reorder(state, sequence, event_data);
            return;
        }
        if sequence > 0 && (confirmed == u64::MAX || sequence < confirmed + 1) {
            return;
        }
        if sequence > 0 {
            SequenceHandler::update_user_sequence(state, sequence);
        }
        let ghost a1 = state@;
        assert(a1 == seq_recorded_app(old(state)@, sequence));
        let ghost d = event_data;
        process_user_notification(state, sequence, event_type, event_data, conversation_id, recovery);
        let ghost mid = state@;
        let ghost start = mid.seq.user_sequence_confirmed + 1;
        let ghost evs = flatten_run(mid.buffers.user_events, start);
        let delivered = BufferHandler::try_deliver_buffered_user_events(state);
        let ghost m2 = state@;
        let mut rest = delivered;
        let ghost mut k: int = 0;
        let ghost mut states: Seq<AppView> = seq![m2];
        while rest.len() > 0
            invariant
                0 <= k <= evs.len(),
                rest@ == evs.skip(k),
                delivery_trace(states, evs.take(k)),
                states[0] == m2,
                states.last() == state@,
            decreases rest.len(),
        {
            let ev = rest.remove(0);
            let ghost before = state@;
            proof {
                assert(k < evs.len());
                assert(ev == evs[k]);
            }
            deliver_one(state, ev);
            proof {
                let ns = states.push(state@);
                assert forall|i: int| 0 <= i < k + 1 implies #[trigger] one_buffered(ns[i], ns[i + 1], evs.take(k + 1)[i]) by {
                    if i < k {
                        assert(ns[i] == states[i]);
                        assert(ns[i + 1] == states[i + 1]);
                        assert(evs.take(k + 1)[i] == evs.take(k)[i]);
                    } else {
                        assert(ns[i] == before);
                    }
                }
                states = ns;
                k = k + 1;
                assert(rest@ =~= evs.skip(k));
            }
        }
        proof {
            assert(evs.take(k) =~= evs);
            assert(delivery_trace(states, evs));
            assert(deliver_rel(mid, state@));
            assert(processed(a1, mid, event_type@, d, conversation_id, recovery));
        }
    }
}

} // verus!
