//! Messages arriving over the WebSocket: ordering by sequence, reorder buffering,
//! DM stub conversion, caching, display and unread counting.
use vstd::prelude::*;
use crate::buffer::{buffer_msg_app, mbuf, run, set_buf, without_run, BufferHandler};
use crate::cache::{cache_of, contains_id, has_id, insert_sorted, sorted_insert, take_cache};
use crate::convlist::{
    count_conversations, count_id, contains_conversation, dedup_conversations, dedup_convs, has_conv,
    remove_conv, without_conversation,
};
use crate::helpers::{
    conv_index, find_conversation, is_system_msg, push_system_app, push_system_message, spec_valid_incoming,
    validate_incoming_message,
};
use crate::model::{ConversationDto, MessageDto, Outgoing, UiEvent};
use crate::sequence::{conv_seq_step, SequenceHandler};
use crate::state::{get_seq, inc64, incr64, seq_or_zero, AppState, SequenceStats, OUTGOING_CAPACITY};
use crate::text::join3;
use crate::view::{AppView, BuffersModel, ChatModel, DataModel, SeqModel, StubsModel};

verus! {

/// The state after a conversation message with sequence `seq` is recorded.
pub open spec fn conv_seq_app(a: AppView, cid: u128, seq: u64) -> AppView {
    let r = conv_seq_step(a.seq, a.outgoing, cid, seq);
    AppView { seq: r.0, outgoing: r.1, ..a }
}

/// The state after one more event is counted as received.
pub open spec fn count_event_app(a: AppView) -> AppView {
    AppView {
        seq: SeqModel {
            stats: SequenceStats { total_events_received: inc64(a.seq.stats.total_events_received), ..a.seq.stats },
            ..a.seq
        },
        ..a
    }
}

/// The state after duplicates are dropped from the conversation list, which happens when
/// conversation `cid` occurs in it more than once.
pub open spec fn dedup_app(a: AppView, cid: u128) -> AppView {
    match a.data.conversations {
        Some(s) if count_id(s, cid) > 1 => AppView {
            data: DataModel { conversations: Some(dedup_convs(s)), ..a.data },
            ..a
        },
        _ => a,
    }
}

/// `id.unwrap_or(nil)`.
pub open spec fn id_or_nil(id: Option<u128>) -> u128 {
    match id {
        Some(x) => x,
        None => 0,
    }
}

/// `c` is the real conversation that replaces the DM stub `msg` arrived for: a DM titled
/// after the other user (the stub's target when the user wrote the message), owned by the
/// user, created when the message was.
pub open spec fn is_dm_conversion(c: ConversationDto, msg: MessageDto, target: String, user_id: Option<u128>) -> bool {
    &&& c.id == msg.conversation_id
    &&& c.kind@ == "dm"@
    &&& c.title == (if msg.author_id == id_or_nil(user_id) { target } else { msg.author_username })
    &&& c.owner_id == id_or_nil(user_id)
    &&& c.created_at == msg.created_at
    &&& c.last_read_sequence == 0
    &&& c.last_activity == msg.created_at
    &&& c.last_msg_seq == (match msg.sequence_num {
        Some(s) => s as i64,
        None => 0,
    })
}

/// The text announcing that the DM with `target` is now a real conversation.
pub open spec fn chat_active_text(target: Seq<char>) -> Seq<char> {
    "Chat con "@ + target + " ora attiva!"@
}

/// The state after the DM stub of `msg`'s conversation becomes the real conversation `real`,
/// announced by the system message `sys`.
pub open spec fn convert_app(a: AppView, msg: MessageDto, sys: MessageDto, real_conv: ConversationDto) -> AppView {
    let cid = msg.conversation_id;
    let a1 = AppView {
        stubs: StubsModel { dm_stubs: a.stubs.dm_stubs.remove(cid), ..a.stubs },
        data: DataModel {
            conversations: Some(match a.data.conversations {
                Some(s) => remove_conv(s, cid).push(real_conv),
                None => seq![real_conv],
            }),
            ..a.data
        },
        ..a
    };
    push_system_app(a1, sys)
}

/// Whether conversation `cid` is in the list.
pub open spec fn conv_listed(a: AppView, cid: u128) -> bool {
    match a.data.conversations {
        Some(s) => has_conv(s, cid),
        None => false,
    }
}

/// The state after a fetch of the unknown conversation `cid` is requested.
pub open spec fn unknown_app(a: AppView, cid: u128, reason: String) -> AppView {
    AppView {
        ui_events: a.ui_events.push(UiEvent::TriggerConversationFetch(cid, reason)),
        data: DataModel {
            conversation_unread_counts: if a.data.conversation_unread_counts.contains_key(cid) {
                a.data.conversation_unread_counts
            } else {
                a.data.conversation_unread_counts.insert(cid, 0)
            },
            ..a.data
        },
        ..a
    }
}

/// The list with the last read sequence of conversation `cid` set to `v`.
pub open spec fn set_last_read(s: Seq<ConversationDto>, cid: u128, v: i64) -> Seq<ConversationDto> {
    let i = conv_index(s, cid);
    if 0 <= i < s.len() {
        s.update(i, ConversationDto { last_read_sequence: v, ..s[i] })
    } else {
        s
    }
}

/// The state after a read receipt for `m` is sent, when `m` is someone else's message with
/// a sequence, in the open conversation, and the request queue has room; the conversation
/// is then marked read up to that sequence.
pub open spec fn auto_mark_read_app(a: AppView, m: MessageDto) -> AppView {
    let cid = m.conversation_id;
    if a.view.cid == Some(cid) && Some(m.author_id) != a.session.user_id && m.sequence_num is Some
        && a.outgoing.len() < OUTGOING_CAPACITY {
        let s = m.sequence_num.unwrap();
        AppView {
            outgoing: a.outgoing.push(Outgoing::MarkRead { conversation_id: cid, sequence_num: s }),
            data: DataModel {
                conversations: match a.data.conversations {
                    Some(l) => Some(set_last_read(l, cid, s as i64)),
                    None => None,
                },
                conversation_unread_counts: a.data.conversation_unread_counts.insert(cid, 0),
                ..a.data
            },
            ..a
        }
    } else {
        a
    }
}

/// The state after `m` is added in its place to the cache of its conversation (which is
/// created if needed), followed by the automatic read receipt.
pub open spec fn cache_insert_app(a: AppView, m: MessageDto) -> AppView {
    let cid = m.conversation_id;
    let a1 = AppView {
        data: DataModel {
            conversation_messages: a.data.conversation_messages.insert(
                cid,
                sorted_insert(cache_of(a.data.conversation_messages, cid), m),
            ),
            ..a.data
        },
        ..a
    };
    auto_mark_read_app(a1, m)
}

/// Whether `m` is already in the cache of its conversation.
pub open spec fn cached(a: AppView, m: MessageDto) -> bool {
    has_id(cache_of(a.data.conversation_messages, m.conversation_id), m.id)
}

/// The state after `m` is shown in its place in the open conversation, unless it is there.
pub open spec fn ui_insert_app(a: AppView, m: MessageDto) -> AppView {
    if has_id(a.view.messages, m.id) {
        a
    } else {
        AppView { view: ChatModel { messages: sorted_insert(a.view.messages, m), ..a.view }, ..a }
    }
}

/// `x + 1` without overflow.
pub open spec fn inc_i64(x: i64) -> i64 {
    if x < i64::MAX { (x + 1) as i64 } else { x }
}

/// The unread count of `cid` (0 when it has none).
pub open spec fn unread_of(m: Map<u128, i64>, cid: u128) -> i64 {
    if m.contains_key(cid) { m[cid] } else { 0 }
}

/// The state after the unread count of `cid` grows by one.
pub open spec fn bump_unread_app(a: AppView, cid: u128) -> AppView {
    AppView {
        data: DataModel {
            conversation_unread_counts: a.data.conversation_unread_counts.insert(
                cid,
                inc_i64(unread_of(a.data.conversation_unread_counts, cid)),
            ),
            ..a.data
        },
        ..a
    }
}

/// The state after a message `m` of conversation `cid` is shown, if `cid` is open, or else
/// counted as unread, if someone else wrote it.
pub open spec fn display_app(a: AppView, cid: u128, m: MessageDto) -> AppView {
    if a.view.cid == Some(cid) {
        ui_insert_app(a, m)
    } else if Some(m.author_id) != a.session.user_id {
        bump_unread_app(a, cid)
    } else {
        a
    }
}

/// The state after the buffered messages that follow sequence `s` in `cid` without
/// interruption are taken out of the buffer and delivered in order: each recorded, cached
/// and displayed.
pub open spec fn drain_app(a: AppView, cid: u128, s: u64) -> AppView {
    let b = mbuf(a.buffers.messages, cid);
    let start = s + 1;
    let a1 = AppView { buffers: BuffersModel { messages: set_buf(a.buffers.messages, cid, without_run(b, start)), ..a.buffers }, ..a };
    deliver_all_app(a1, cid, run(b, start))
}

/// The state after the buffered message `m` of `cid`, already taken out of the buffer,
/// is recorded, cached and displayed, as an in-order message would be.
pub open spec fn deliver_msg_app(a: AppView, cid: u128, m: MessageDto) -> AppView {
    let mseq = match m.sequence_num {
        Some(x) => x,
        None => 0,
    };
    let a2 = conv_seq_app(a, cid, mseq);
    if cached(a2, m) {
        a2
    } else {
        display_app(cache_insert_app(a2, m), cid, m)
    }
}

/// The state after the buffered messages `ms` of `cid` are delivered, in order.
pub open spec fn deliver_all_app(a: AppView, cid: u128, ms: Seq<MessageDto>) -> AppView
    decreases ms.len(),
{
    if ms.len() == 0 {
        a
    } else {
        deliver_msg_app(deliver_all_app(a, cid, ms.drop_last()), cid, ms.last())
    }
}

/// Strings and values that the handling of one message creates.
pub ghost struct IncomingLits {
    pub sys: MessageDto,
    pub conv: ConversationDto,
    pub reason: String,
}

/// Whether the created values are the right ones for a message that reached the
/// in-order stage in state `a` (after its sequence was recorded).
pub open spec fn lits_ok(a: AppView, msg: MessageDto, w: IncomingLits) -> bool {
    let cid = msg.conversation_id;
    &&& w.reason@ == "messaggio_conversazione_sconosciuta"@
    &&& a.stubs.dm_stubs.contains_key(cid) ==> {
        let target = a.stubs.dm_stubs[cid].0;
        &&& is_dm_conversion(w.conv, msg, target, a.session.user_id)
        &&& is_system_msg(w.sys, chat_active_text(target@), 0)
    }
}

/// The handling of a message whose sequence is in order (or which has none).
pub open spec fn in_order_app(a: AppView, msg: MessageDto, w: IncomingLits) -> AppView {
    let cid = msg.conversation_id;
    let a1 = dedup_app(count_event_app(a), cid);
    let stub = a1.stubs.dm_stubs.contains_key(cid);
    let a2 = if stub { convert_app(a1, msg, w.sys, w.conv) } else { a1 };
    let a3 = if !stub && !conv_listed(a2, cid) { unknown_app(a2, cid, w.reason) } else { a2 };
    if cached(a3, msg) {
        a3
    } else {
        let a4 = display_app(cache_insert_app(a3, msg), cid, msg);
        match msg.sequence_num {
            Some(s) => drain_app(a4, cid, s),
            None => a4,
        }
    }
}

/// Whether an incoming message reaches the in-order handling: it is valid, and its
/// sequence, if it has one, is the one expected next in its conversation.
pub open spec fn reaches_in_order(a: AppView, msg: MessageDto) -> bool {
    let expected = seq_or_zero(a.seq.conversation_sequences_confirmed, msg.conversation_id) + 1;
    &&& spec_valid_incoming(msg)
    &&& match msg.sequence_num {
        Some(s) => s == expected,
        None => true,
    }
}

/// What becomes of an incoming message that does not reach the in-order handling: an
/// invalid one, or one already confirmed, is dropped; one ahead of its turn is recorded
/// and kept in the reorder buffer.
pub open spec fn out_of_order_app(a: AppView, msg: MessageDto) -> AppView {
    let cid = msg.conversation_id;
    let expected = seq_or_zero(a.seq.conversation_sequences_confirmed, cid) + 1;
    match msg.sequence_num {
        Some(s) if spec_valid_incoming(msg) && s > expected => buffer_msg_app(conv_seq_app(a, cid, s), msg),
        _ => a,
    }
}

/// The state in which the in-order handling starts, when it is reached.
pub open spec fn in_order_start(a: AppView, msg: MessageDto) -> AppView {
    match msg.sequence_num {
        Some(s) => conv_seq_app(a, msg.conversation_id, s),
        None => a,
    }
}

/// Counts one more received event.
fn count_event(state: &mut AppState)
    ensures
        final(state)@ == count_event_app(old(state)@),
{
    state.seq.sequence_stats.total_events_received = incr64(state.seq.sequence_stats.total_events_received);
}

/// Drops duplicate conversations from the list when `cid` occurs in it more than once.
fn dedup_conversations_for(state: &mut AppState, cid: u128)
    ensures
        final(state)@ == dedup_app(old(state)@, cid),
{
    if let Some(convs) = state.data.conversations.take() {
        if count_conversations(&convs, cid) > 1 {
            state.data.conversations = Some(dedup_conversations(convs));
        } else {
            state.data.conversations = Some(convs);
        }
    }
}

/// Turns the DM stub of `msg`'s conversation into the real conversation, and says so.
fn convert_dm_stub(state: &mut AppState, msg: &MessageDto)
    requires
        old(state)@.stubs.dm_stubs.contains_key(msg.conversation_id),
    ensures
        exists|sys: MessageDto, conv: ConversationDto| #![trigger convert_app(old(state)@, *msg, sys, conv)] {
            let target = old(state)@.stubs.dm_stubs[msg.conversation_id].0;
            &&& is_dm_conversion(conv, *msg, target, old(state)@.session.user_id)
            &&& is_system_msg(sys, chat_active_text(target@), 0)
            &&& final(state)@ == convert_app(old(state)@, *msg, sys, conv)
        },
{
    let cid = msg.conversation_id;
    let target = match state.stubs.dm_stubs.remove(&cid) {
        Some(entry) => entry.0,
        None => String::new(),
    };
    let user = match state.session.user_id {
        Some(u) => u,
        None => 0,
    };
    let title = if msg.author_id == user { target.clone() } else { msg.author_username.clone() };
    let new_conv = ConversationDto {
        id: cid,
        kind: String::from_str("dm"),
        title,
        owner_id: user,
        created_at: msg.created_at,
        last_read_sequence: 0,
        last_activity: msg.created_at,
        last_msg_seq: match msg.sequence_num {
            Some(s) => s as i64,
            None => 0,
        },
    };
    let ghost conv = new_conv;
    match state.data.conversations.take() {
        Some(convs) => {
            let mut kept = without_conversation(convs, cid);
            kept.push(new_conv);
            state.data.conversations = Some(kept);
        },
        None => {
            let mut v = Vec::new();
            v.push(new_conv);
            state.data.conversations = Some(v);
        },
    }
    let text = join3("Chat con ", target.as_str(), " ora attiva!");
    let sys = MessageDto::system_message(text);
    let ghost g = sys;
    proof {
        let a = old(state)@;
        let a1 = AppView {
            stubs: StubsModel { dm_stubs: a.stubs.dm_stubs.remove(cid), ..a.stubs },
            data: DataModel {
                conversations: Some(match a.data.conversations {
                    Some(l) => remove_conv(l, cid).push(conv),
                    None => seq![conv],
                }),
                ..a.data
            },
            ..a
        };
        assert(state@.data.conversations == a1.data.conversations);
        assert(state@ == a1);
    }
    push_system_message(state, sys);
    assert(is_dm_conversion(conv, *msg, old(state)@.stubs.dm_stubs[cid].0, old(state)@.session.user_id));
    assert(is_system_msg(g, chat_active_text(old(state)@.stubs.dm_stubs[cid].0@), 0));
    assert(state@ == convert_app(old(state)@, *msg, g, conv));
}

/// Asks for the unknown conversation `cid` to be fetched, and gives it an unread count.
fn request_unknown_fetch(state: &mut AppState, cid: u128, reason: String)
    ensures
        final(state)@ == unknown_app(old(state)@, cid, reason),
{
    state.send_ui_event(UiEvent::TriggerConversationFetch(cid, reason));
    if !state.data.conversation_unread_counts.contains_key(&cid) {
        state.data.conversation_unread_counts.insert(cid, 0);
    }
}

/// Sends the read receipt for `msg` when it is someone else's message in the open
/// conversation, and marks the conversation read up to it.
fn check_and_send_auto_mark_read(state: &mut AppState, msg: &MessageDto)
    ensures
        final(state)@ == auto_mark_read_app(old(state)@, *msg),
{
    let cid = msg.conversation_id;
    if state.view.cid != Some(cid) {
        return;
    }
    if Some(msg.author_id) == state.session.user_id {
        return;
    }
    let seq = match msg.sequence_num {
        Some(s) => s,
        None => {
            return;
        },
    };
    if !state.try_send_outgoing(Outgoing::MarkRead { conversation_id: cid, sequence_num: seq }) {
        return;
    }
    if let Some(mut convs) = state.data.conversations.take() {
        let i = find_conversation(&convs, cid);
        if i < convs.len() {
            let mut c = convs[i].duplicate();
            c.last_read_sequence = seq as i64;
            convs.set(i, c);
        }
        state.data.conversations = Some(convs);
    }
    state.data.conversation_unread_counts.insert(cid, 0);
}

/// Adds `msg` in its place to the cache of its conversation and sends the automatic read
/// receipt; returns false, changing nothing, when the message is already cached.
fn update_message_cache(state: &mut AppState, msg: &MessageDto) -> (added: bool)
    ensures
        added == !cached(old(state)@, *msg),
        final(state)@ == (if added { cache_insert_app(old(state)@, *msg) } else { old(state)@ }),
{
    let cid = msg.conversation_id;
    let mut cache = take_cache(&mut state.data.conversation_messages, cid);
    if contains_id(&cache, msg.id) {
        state.data.conversation_messages.insert(cid, cache);
        proof {
            assert(state@.data.conversation_messages =~= old(state)@.data.conversation_messages);
        }
        return false;
    }
    let copy = msg.duplicate();
    insert_sorted(&mut cache, copy);
    state.data.conversation_messages.insert(cid, cache);
    proof {
        assert(state@.data.conversation_messages =~= old(state)@.data.conversation_messages.insert(
            cid, sorted_insert(cache_of(old(state)@.data.conversation_messages, cid), *msg)));
    }
    check_and_send_auto_mark_read(state, msg);
    true
}

/// Shows `msg` in its place in the open conversation, unless it is already shown.
fn update_ui_messages(state: &mut AppState, msg: MessageDto)
    ensures
        final(state)@ == ui_insert_app(old(state)@, msg),
{
    if contains_id(&state.view.messages, msg.id) {
        return;
    }
    insert_sorted(&mut state.view.messages, msg);
}

/// Counts one more unread message in `cid`.
fn bump_unread(state: &mut AppState, cid: u128)
    ensures
        final(state)@ == bump_unread_app(old(state)@, cid),
{
    let current = match state.data.conversation_unread_counts.get(&cid) {
        Some(v) => *v,
        None => 0,
    };
    let next = if current < i64::MAX { current + 1 } else { current };
    state.data.conversation_unread_counts.insert(cid, next);
}

/// Shows `msg` if `cid` is open, or counts it as unread if someone else wrote it.
pub(crate) fn display_message(state: &mut AppState, cid: u128, msg: MessageDto)
    ensures
        final(state)@ == display_app(old(state)@, cid, msg),
{
    if state.view.cid == Some(cid) {
        update_ui_messages(state, msg);
    } else if Some(msg.author_id) != state.session.user_id {
        bump_unread(state, cid);
    }
}

/// Records, caches and displays the buffered message `msg` of `cid`.
fn deliver_one(state: &mut AppState, cid: u128, msg: MessageDto)
    ensures
        final(state)@ == deliver_msg_app(old(state)@, cid, msg),
{
    let mseq = match msg.sequence_num {
        Some(x) => x,
        None => 0,
    };
    SequenceHandler::update_conversation_sequence(state, cid, mseq);
    if update_message_cache(state, &msg) {
        display_message(state, cid, msg);
    }
}

/// Delivers the buffered messages `ms` of `cid`, in order.
pub(crate) fn deliver_all(state: &mut AppState, cid: u128, ms: Vec<MessageDto>)
    ensures
        final(state)@ == deliver_all_app(old(state)@, cid, ms@),
{
    let mut i: usize = 0;
    while i < ms.len()
        invariant
            i <= ms.len(),
            state@ == deliver_all_app(old(state)@, cid, ms@.take(i as int)),
        decreases ms.len() - i,
    {
        proof {
            assert(ms@.take(i + 1).drop_last() =~= ms@.take(i as int));
            assert(ms@.take(i + 1).last() == ms@[i as int]);
        }
        deliver_one(state, cid, ms[i].duplicate());
        i = i + 1;
    }
    proof {
        assert(ms@.take(ms.len() as int) =~= ms@);
    }
}

/// Takes the buffered messages that follow sequence `seq` in `cid` without interruption,
/// and records, caches and displays each in order.
fn drain_next(state: &mut AppState, cid: u128, seq: u64)
    ensures
        final(state)@ == drain_app(old(state)@, cid, seq),
{
    let following = BufferHandler::take_run_after(state, cid, seq);
    deliver_all(state, cid, following);
}

/// The in-order handling of `msg`.
fn handle_in_order(state: &mut AppState, msg: MessageDto)
    ensures
        exists|w: IncomingLits| #![trigger in_order_app(old(state)@, msg, w)]
            lits_ok(old(state)@, msg, w) && final(state)@ == in_order_app(old(state)@, msg, w),
{
    let cid = msg.conversation_id;
    let reason = String::from_str("messaggio_conversazione_sconosciuta");
    let ghost a = old(state)@;
    count_event(state);
    dedup_conversations_for(state, cid);
    let ghost a1 = state@;
    let is_stub = state.stubs.dm_stubs.contains_key(&cid);
    let ghost mut w = IncomingLits { sys: msg, conv: arbitrary(), reason };
    if is_stub {
        convert_dm_stub(state, &msg);
        proof {
            let target = a1.stubs.dm_stubs[cid].0;
            let pair = choose|sys: MessageDto, conv: ConversationDto| #![trigger convert_app(a1, msg, sys, conv)] {
                &&& is_dm_conversion(conv, msg, target, a1.session.user_id)
                &&& is_system_msg(sys, chat_active_text(target@), 0)
                &&& state@ == convert_app(a1, msg, sys, conv)
            };
            w = IncomingLits { sys: pair.0, conv: pair.1, reason };
        }
    }
    let ghost a2 = state@;
    let listed = match &state.data.conversations {
        Some(convs) => contains_conversation(convs, cid),
        None => false,
    };
    if !is_stub && !listed {
        request_unknown_fetch(state, cid, reason);
    }
    let ghost a3 = state@;
    assert(lits_ok(a, msg, w));
    if !update_message_cache(state, &msg) {
        assert(state@ == in_order_app(a, msg, w));
        return;
    }
    let seq = msg.sequence_num;
    display_message(state, cid, msg);
    if let Some(s) = seq {
        drain_next(state, cid, s);
    }
    assert(state@ == in_order_app(a, msg, w));
}

/// `b` is `a` after the message `msg` arrived over the WebSocket: handled in order when
/// it reaches that stage, otherwise buffered, skipped or refused.
pub open spec fn incoming_rel(a: AppView, b: AppView, msg: MessageDto) -> bool {
    &&& reaches_in_order(a, msg) ==> exists|w: IncomingLits| #![trigger in_order_app(in_order_start(a, msg), msg, w)] {
        let start = in_order_start(a, msg);
        lits_ok(start, msg, w) && b == in_order_app(start, msg, w)
    }
    &&& !reaches_in_order(a, msg) ==> b == out_of_order_app(a, msg)
}

/// Handles a message that arrived over the WebSocket.
pub fn handle_incoming_message(state: &mut AppState, msg: MessageDto)
    ensures
        incoming_rel(old(state)@, final(state)@, msg),
{
    if !validate_incoming_message(&msg) {
        return;
    }
    let cid = msg.conversation_id;
    if let Some(seq) = msg.sequence_num {
        let confirmed = get_seq(&state.seq.conversation_sequences_confirmed, cid);
        if confirmed < u64::MAX && seq > confirmed + 1 {
            SequenceHandler::update_conversation_sequence(state, cid, seq);
            BufferHandler::buffer_message_for_reorder(state, msg);
            return;
        } else if confirmed == u64::MAX || seq < confirmed + 1 {
            return;
        }
        SequenceHandler::update_conversation_sequence(state, cid, seq);
    }
    handle_in_order(state, msg);
}

/// Handling of the WebSocket events.
pub struct WebSocketHandler;

impl WebSocketHandler {
    /// Handles a WebSocket event: the control channel is ready; the connection is up, and
    /// the recovery state is reset; the connection is down, with the same reset; an error,
    /// which changes nothing; a message, handled by `handle_incoming_message`.
    pub fn handle(state: &mut AppState, event: UiEvent)
        ensures
            match event {
                UiEvent::WsControlReady => final(state)@ == (AppView {
                    ws: crate::state::WsState { has_ws_control: true, ..old(state)@.ws },
                    ..old(state)@
                }),
                UiEvent::WsConnected => final(state)@ == crate::sequence::reset_app(AppView {
                    ws: crate::state::WsState { ws_status: crate::model::WsStatus::Connected, ..old(state)@.ws },
                    ..old(state)@
                }),
                UiEvent::WsDisconnected => final(state)@ == crate::sequence::reset_app(AppView {
                    ws: crate::state::WsState { ws_status: crate::model::WsStatus::Disconnected, ..old(state)@.ws },
                    ..old(state)@
                }),
                UiEvent::WsIncoming(msg) => incoming_rel(old(state)@, final(state)@, msg),
                _ => final(state)@ == old(state)@,
            },
    {
        match event {
            UiEvent::WsControlReady => {
                state.ws.has_ws_control = true;
            },
            UiEvent::WsConnected => {
                state.ws.ws_status = crate::model::WsStatus::Connected;
                SequenceHandler::reset_sequence_system(state);
            },
            UiEvent::WsDisconnected => {
                state.ws.ws_status = crate::model::WsStatus::Disconnected;
                SequenceHandler::reset_sequence_on_disconnect(state);
            },
            UiEvent::WsIncoming(msg) => {
                handle_incoming_message(state, msg);
            },
            _ => {},
        }
    }
}

} // verus!
