//! Handlers for conversation events: initial state, loading, opening, creation, deletion.
use std::collections::HashMap;
use vstd::prelude::*;
use crate::cache::{cache_of, contains_id, copy_messages, dedup_messages, dedup_msgs, has_id, sort_messages, sort_msgs, take_vec};
use crate::convlist::{contains_conversation, has_conv, newest_first, remove_conv, sort_newest_first, without_conversation};
use crate::external::{parse_uuid, parsed_uuid};
use crate::text::join3;
use crate::helpers::{add_system_message, conv_index, find_conversation, is_system_msg, push_system_app};
use crate::maps::map_keys;
use crate::model::{ConversationDto, ConversationFetch, MessageDto, Outgoing, Page, ParticipantInfo};
use crate::incoming::conv_seq_app;
use crate::sequence::SequenceHandler;
use crate::stubs::with_dm_stub;
use crate::resume::{max_seq, max_sequence};
use crate::state::{AppState, OUTGOING_CAPACITY};
use crate::incoming::set_last_read;
use crate::view::{seq_map_view, AppView, ChatModel, DataModel, SeqModel, StubsModel};

verus! {

/// `max(0, a - b)`, computed without overflow (the difference saturates).
pub open spec fn unread_diff(a: i64, b: i64) -> i64 {
    let d = a - b;
    if d <= 0 { 0 } else if d > i64::MAX { i64::MAX } else { d as i64 }
}

pub fn unread_difference(a: i64, b: i64) -> (r: i64)
    ensures
        r == unread_diff(a, b),
{
    let d: i128 = a as i128 - b as i128;
    if d <= 0 {
        0
    } else if d > i64::MAX as i128 {
        i64::MAX
    } else {
        d as i64
    }
}

/// The unread count of a conversation from its cached messages: how far the last cached
/// sequence is beyond the last read one.
pub open spec fn initial_unread(cache: Map<u128, Seq<MessageDto>>, c: ConversationDto) -> i64 {
    match max_seq(cache_of(cache, c.id)) {
        Some(l) => unread_diff(l as i64, c.last_read_sequence),
        None => 0,
    }
}

/// The sequence maps with every conversation of `convs` that has a last message set to it.
pub open spec fn seed_seqs(m: Map<u128, u64>, convs: Seq<ConversationDto>) -> Map<u128, u64>
    decreases convs.len(),
{
    if convs.len() == 0 {
        m
    } else {
        let r = seed_seqs(m, convs.drop_last());
        let c = convs.last();
        if c.last_msg_seq > 0 { r.insert(c.id, c.last_msg_seq as u64) } else { r }
    }
}

/// The unread counts computed for each conversation of `convs`.
pub open spec fn seed_unread(m: Map<u128, i64>, cache: Map<u128, Seq<MessageDto>>, convs: Seq<ConversationDto>) -> Map<u128, i64>
    decreases convs.len(),
{
    if convs.len() == 0 {
        m
    } else {
        seed_unread(m, cache, convs.drop_last()).insert(convs.last().id, initial_unread(cache, convs.last()))
    }
}

/// The ids of the conversations in `convs`.
pub open spec fn conv_ids(convs: Seq<ConversationDto>) -> Set<u128> {
    Set::new(|id: u128| has_conv(convs, id))
}

/// The text announcing how many conversations were synchronised.
pub open spec fn synced_text(n: nat) -> Seq<char> {
    "Sincronizzate "@ + crate::text::decimal(n) + " conversazioni"@
}

/// The state after the server's initial state: user sequence, conversations, their
/// sequences and unread counts, stubs that became real; then the announcement `sys`.
pub open spec fn initial_state_app(a: AppView, convs: Seq<ConversationDto>, user_sequence: u64, sys: MessageDto) -> AppView {
    let a1 = AppView {
        seq: SeqModel {
            user_sequence_confirmed: user_sequence,
            user_sequence_received: user_sequence,
            conversation_sequences: seed_seqs(a.seq.conversation_sequences, convs),
            conversation_sequences_confirmed: seed_seqs(a.seq.conversation_sequences_confirmed, convs),
            ..a.seq
        },
        data: DataModel {
            conversations: Some(convs),
            conversation_unread_counts: seed_unread(Map::empty(), a.data.conversation_messages, convs),
            ..a.data
        },
        stubs: StubsModel { dm_stubs: a.stubs.dm_stubs.remove_keys(conv_ids(convs)), ..a.stubs },
        ..a
    };
    let a2 = push_system_app(a1, sys);
    if a2.view.cid is Some && a2.view.messages.len() == 0 {
        AppView { data: DataModel { request_conversations_refresh: true, ..a2.data }, ..a2 }
    } else {
        a2
    }
}

/// The list with conversation `c` put in place of the first one with its id, or appended.
pub open spec fn upsert_conv(s: Seq<ConversationDto>, c: ConversationDto) -> Seq<ConversationDto> {
    let i = conv_index(s, c.id);
    if 0 <= i < s.len() { s.update(i, c) } else { s.push(c) }
}

/// `upsert_conv` on an optional list (a missing list becomes `[c]`).
pub open spec fn upsert_conv_opt(s: Option<Seq<ConversationDto>>, c: ConversationDto) -> Option<Seq<ConversationDto>> {
    match s {
        Some(l) => Some(upsert_conv(l, c)),
        None => Some(seq![c]),
    }
}

/// The state after the last message of conversation `cid` is reported: the conversation's
/// activity and unread count follow it, and it is added to the cache.
pub open spec fn last_message_app(a: AppView, cid: u128, m: MessageDto) -> AppView {
    let a1 = match a.data.conversations {
        Some(l) if conv_index(l, cid) < l.len() => {
            let i = conv_index(l, cid);
            let c = l[i];
            let c2 = ConversationDto { last_activity: if c.last_activity >= m.created_at { c.last_activity } else { m.created_at }, ..c };
            AppView {
                data: DataModel {
                    conversations: Some(l.update(i, c2)),
                    conversation_unread_counts: match m.sequence_num {
                        Some(s) => a.data.conversation_unread_counts.insert(cid, unread_diff(s as i64, c.last_read_sequence)),
                        None => a.data.conversation_unread_counts,
                    },
                    ..a.data
                },
                ..a
            }
        },
        _ => a,
    };
    AppView {
        data: DataModel {
            conversation_messages: a1.data.conversation_messages.insert(cid, cache_of(a1.data.conversation_messages, cid).push(m)),
            ..a1.data
        },
        ..a1
    }
}

/// The state with the sequence of `cid` set to `s` in both sequence maps.
pub open spec fn both_seqs_app(a: AppView, cid: u128, s: u64) -> AppView {
    AppView {
        seq: SeqModel {
            conversation_sequences: a.seq.conversation_sequences.insert(cid, s),
            conversation_sequences_confirmed: a.seq.conversation_sequences_confirmed.insert(cid, s),
            ..a.seq
        },
        ..a
    }
}

/// The title of conversation `cid` in the list, or `dflt` when it is not listed.
pub open spec fn listed_title(l: Option<Seq<ConversationDto>>, cid: u128, dflt: Seq<char>) -> Seq<char> {
    match l {
        Some(s) if conv_index(s, cid) < s.len() => s[conv_index(s, cid)].title@,
        _ => dflt,
    }
}

/// The announcement that older messages can still be loaded.
pub open spec fn more_available_text() -> Seq<char> {
    "Caricati messaggi recenti (altri disponibili)"@
}

/// The state after `msgs` become the cache of conversation `cid`, whose sequences then
/// follow the highest sequence among them.
pub open spec fn store_messages_app(a: AppView, cid: u128, msgs: Seq<MessageDto>) -> AppView {
    let a1 = AppView {
        data: DataModel { conversation_messages: a.data.conversation_messages.insert(cid, msgs), ..a.data },
        ..a
    };
    match max_seq(msgs) {
        Some(m) => both_seqs_app(a1, cid, m),
        None => a1,
    }
}

/// The state after the messages of conversation `cid` arrived: sorted, they become its
/// cache and, when it is open, the messages shown; its sequences follow the highest one.
pub open spec fn messages_received_app(a: AppView, cid: u128, msgs: Seq<MessageDto>) -> AppView {
    let sorted = sort_msgs(msgs);
    let a2 = store_messages_app(a, cid, sorted);
    if a2.view.cid == Some(cid) {
        AppView {
            view: ChatModel {
                messages: sorted,
                conv_title: listed_title(a2.data.conversations, cid, a2.view.conv_title),
                ..a2.view
            },
            ..a2
        }
    } else {
        a2
    }
}

/// The announcement that conversation titled `title` was confirmed.
pub open spec fn confirmed_text(title: Seq<char>) -> Seq<char> {
    "Conversazione '"@ + title + "' confermata"@
}

/// The stub that a confirmation names by its client id, when that id is a UUID.
pub open spec fn stub_of(client_temp_id: Option<String>) -> Option<u128> {
    match client_temp_id {
        Some(t) => parsed_uuid(t@),
        None => None,
    }
}

/// The state without DM stub `u`: its sequences and its entry in the list go too.
pub open spec fn drop_stub_app(a: AppView, u: u128) -> AppView {
    AppView {
        stubs: StubsModel { dm_stubs: a.stubs.dm_stubs.remove(u), ..a.stubs },
        seq: SeqModel {
            conversation_sequences: a.seq.conversation_sequences.remove(u),
            conversation_sequences_confirmed: a.seq.conversation_sequences_confirmed.remove(u),
            ..a.seq
        },
        data: DataModel {
            conversations: match a.data.conversations {
                Some(l) => Some(remove_conv(l, u)),
                None => None,
            },
            ..a.data
        },
        ..a
    }
}

/// The list after a confirmed conversation `c` is put in it, replacing any entry with its
/// id, newest first.
pub open spec fn with_confirmed(l: Option<Seq<ConversationDto>>, c: ConversationDto) -> Seq<ConversationDto> {
    match l {
        Some(s) => newest_first(remove_conv(s, c.id).push(c)),
        None => seq![c],
    }
}

/// The state after the server confirmed conversation `c` with messages `msgs`, for the
/// stub `stub` if the client named one (before the announcement).
pub open spec fn confirmed_app(a: AppView, c: ConversationDto, msgs: Seq<MessageDto>, stub: Option<u128>) -> AppView {
    let was_active = stub is Some && a.view.cid == stub;
    let a1 = match stub {
        Some(u) if a.stubs.dm_stubs.contains_key(u) => drop_stub_app(a, u),
        _ => a,
    };
    let a2 = AppView {
        data: DataModel { conversations: Some(with_confirmed(a1.data.conversations, c)), ..a1.data },
        ..a1
    };
    let a3 = if msgs.len() > 0 {
        let b = AppView {
            data: DataModel { conversation_messages: a2.data.conversation_messages.insert(c.id, msgs), ..a2.data },
            ..a2
        };
        match msgs.last().sequence_num {
            Some(s) => both_seqs_app(b, c.id, s),
            None => b,
        }
    } else {
        a2
    };
    if was_active {
        AppView { view: ChatModel { cid: Some(c.id), conv_title: c.title@, messages: msgs, ..a3.view }, ..a3 }
    } else if a3.view.cid == Some(c.id) {
        AppView { view: ChatModel { messages: msgs, ..a3.view }, ..a3 }
    } else {
        a3
    }
}

/// A page of older messages holds this many; a shorter page is the last one.
pub const OLDER_PAGE_SIZE: usize = 30;

/// The state after a page of older messages arrived for the open conversation: they go
/// before the shown ones, duplicates are dropped, and the whole is sorted and cached.
pub open spec fn older_loaded_app(a: AppView, older: Seq<MessageDto>) -> AppView {
    let a0 = AppView { view: ChatModel { is_loading_more: false, ..a.view }, ..a };
    match a0.view.cid {
        None => a0,
        Some(cid) => if older.len() == 0 {
            AppView { view: ChatModel { has_more_messages: a0.view.has_more_messages.insert(cid, false), ..a0.view }, ..a0 }
        } else {
            let more = if older.len() < OLDER_PAGE_SIZE {
                a0.view.has_more_messages.insert(cid, false)
            } else {
                a0.view.has_more_messages
            };
            let all = sort_msgs(dedup_msgs(older + a0.view.messages));
            AppView {
                view: ChatModel { has_more_messages: more, messages: all, ..a0.view },
                data: DataModel { conversation_messages: a0.data.conversation_messages.insert(cid, all), ..a0.data },
                ..a0
            }
        },
    }
}

/// `opt.unwrap_or(0)`-style lookup that leaves an existing entry alone and adds 0 otherwise.
pub open spec fn or_zero(m: Map<u128, u64>, cid: u128) -> Map<u128, u64> {
    if m.contains_key(cid) { m } else { m.insert(cid, 0) }
}

/// The state after conversation `cid` is opened, before its cache is consulted.
pub open spec fn open_base_app(a: AppView, cid: u128) -> AppView {
    AppView {
        view: ChatModel {
            cid: Some(cid),
            page: Page::Chat,
            messages: Seq::empty(),
            is_loading_more: false,
            has_more_messages: a.view.has_more_messages.insert(cid, true),
            ..a.view
        },
        seq: SeqModel {
            conversation_sequences: or_zero(a.seq.conversation_sequences, cid),
            conversation_sequences_confirmed: or_zero(a.seq.conversation_sequences_confirmed, cid),
            ..a.seq
        },
        data: DataModel {
            conversation_unread_counts: if a.data.conversation_unread_counts.contains_key(cid) {
                a.data.conversation_unread_counts.insert(cid, 0)
            } else {
                a.data.conversation_unread_counts
            },
            ..a.data
        },
        ..a
    }
}

/// The state after conversation `cid` is opened: its cached messages are shown, its
/// sequences follow the highest of them, and a read receipt up to it is sent when the
/// request queue has room, marking the conversation read locally.
pub open spec fn opened_app(a: AppView, cid: u128) -> AppView {
    let a1 = open_base_app(a, cid);
    if a1.data.conversation_messages.contains_key(cid) {
        let cached = a1.data.conversation_messages[cid];
        let a2 = AppView { view: ChatModel { messages: cached, ..a1.view }, ..a1 };
        match max_seq(cached) {
            Some(m) => {
                let a3 = both_seqs_app(a2, cid, m);
                if a3.outgoing.len() < OUTGOING_CAPACITY {
                    AppView {
                        outgoing: a3.outgoing.push(Outgoing::MarkRead { conversation_id: cid, sequence_num: m }),
                        data: DataModel {
                            conversations: match a3.data.conversations {
                                Some(l) => Some(set_last_read(l, cid, m as i64)),
                                None => None,
                            },
                            ..a3.data
                        },
                        ..a3
                    }
                } else {
                    a3
                }
            },
            None => a2,
        }
    } else {
        a1
    }
}

/// The state after conversation `cid` was deleted: it leaves the list, the cache, the
/// sequences and the stubs; if it was open, the list is shown; the list is refreshed.
pub open spec fn deleted_conversation_app(a: AppView, cid: u128) -> AppView {
    let a1 = AppView {
        data: DataModel {
            conversations: match a.data.conversations {
                Some(l) => Some(remove_conv(l, cid)),
                None => None,
            },
            conversation_messages: a.data.conversation_messages.remove(cid),
            request_conversations_refresh: true,
            ..a.data
        },
        seq: SeqModel {
            conversation_sequences: a.seq.conversation_sequences.remove(cid),
            conversation_sequences_confirmed: a.seq.conversation_sequences_confirmed.remove(cid),
            is_recovering_messages: a.seq.is_recovering_messages.remove(cid),
            ..a.seq
        },
        stubs: StubsModel { dm_stubs: a.stubs.dm_stubs.remove(cid), ..a.stubs },
        ..a
    };
    if a.view.cid == Some(cid) {
        AppView { view: ChatModel { cid: None, messages: Seq::empty(), page: Page::Conversations, ..a1.view }, ..a1 }
    } else {
        a1
    }
}

/// The greeting shown in a new DM stub with `target`.
pub open spec fn stub_ready_text(target: Seq<char>) -> Seq<char> {
    "Chat con "@ + target + " pronta. Invia il primo messaggio per iniziare!"@
}

/// The state after the DM stub `stub_id` towards `target` was created at time `t` and
/// opened, greeted by the system message `sys`.
pub open spec fn stub_created_app(a: AppView, stub_id: u128, target: String, t: i64, sys: MessageDto) -> AppView {
    AppView {
        stubs: StubsModel { dm_stubs: a.stubs.dm_stubs.insert(stub_id, (target, t)), ..a.stubs },
        view: ChatModel { cid: Some(stub_id), page: Page::Chat, messages: seq![sys], conv_title: target@, ..a.view },
        data: DataModel { conversation_messages: a.data.conversation_messages.insert(stub_id, seq![sys]), ..a.data },
        ..a
    }
}

/// Whether `convs` holds a DM titled `target`.
pub open spec fn has_dm_titled(convs: Seq<ConversationDto>, target: Seq<char>) -> bool {
    exists|i: int| 0 <= i < convs.len() && (#[trigger] convs[i]).kind@ == "dm"@ && convs[i].title@ == target
}

/// The DM stubs whose target has a DM in `convs`: the server has created them.
pub open spec fn realised_stubs(stubs: Map<u128, (String, i64)>, convs: Seq<ConversationDto>) -> Set<u128> {
    Set::new(|id: u128| stubs.contains_key(id) && has_dm_titled(convs, stubs[id].0@))
}

/// The maps with the sequences of each conversation of `all` set to the highest sequence
/// among its messages, where it has one.
pub open spec fn top_sequences(all: Map<u128, Seq<MessageDto>>) -> Map<u128, u64> {
    Map::new(|id: u128| all.contains_key(id) && max_seq(all[id]) is Some, |id: u128| max_seq(all[id]).unwrap())
}

/// The state after every conversation's messages were loaded at once.
pub open spec fn all_loaded_app(a: AppView, all: Map<u128, Seq<MessageDto>>) -> AppView {
    let a1 = AppView {
        data: DataModel { conversation_messages: all, ..a.data },
        seq: SeqModel {
            conversation_sequences: a.seq.conversation_sequences.union_prefer_right(top_sequences(all)),
            conversation_sequences_confirmed: a.seq.conversation_sequences_confirmed.union_prefer_right(top_sequences(all)),
            ..a.seq
        },
        ..a
    };
    match a1.view.cid {
        Some(cid) if all.contains_key(cid) => AppView { view: ChatModel { messages: all[cid], ..a1.view }, ..a1 },
        _ => a1,
    }
}

/// The state after a conversation and its messages were fetched: the conversation is put
/// in the list, its messages cached (and shown if it is open), its sequences set from
/// them when they have a positive one, and its DM stub dropped.
pub open spec fn complete_fetched_app(a: AppView, c: ConversationDto, msgs: Seq<MessageDto>) -> AppView {
    let a1 = AppView { data: DataModel { conversations: upsert_conv_opt(a.data.conversations, c), ..a.data }, ..a };
    let top = match max_seq(msgs) {
        Some(m) => m,
        None => 0,
    };
    let a2 = if top > 0 { both_seqs_app(a1, c.id, top) } else { a1 };
    let a3 = AppView {
        data: DataModel { conversation_messages: a2.data.conversation_messages.insert(c.id, msgs), ..a2.data },
        stubs: StubsModel { dm_stubs: a2.stubs.dm_stubs.remove(c.id), ..a2.stubs },
        ..a2
    };
    if a3.view.cid == Some(c.id) {
        AppView { view: ChatModel { messages: msgs, ..a3.view }, ..a3 }
    } else {
        a3
    }
}

/// `b` is `a` after the messages `msgs` of conversation `cid` arrived; when it is open
/// and more can be loaded, that is announced.
pub open spec fn messages_received_rel(a: AppView, b: AppView, cid: u128, msgs: Seq<MessageDto>, has_more: bool) -> bool {
    if a.view.cid == Some(cid) && has_more {
        exists|sys: MessageDto|
            is_system_msg(sys, more_available_text(), 0) && b == #[trigger] push_system_app(messages_received_app(a, cid, msgs), sys)
    } else {
        b == messages_received_app(a, cid, msgs)
    }
}

/// Puts conversation `c` in place of the first one with its id, or appends it.
fn upsert_conversation(state: &mut AppState, c: ConversationDto)
    ensures
        final(state)@ == (AppView {
            data: DataModel { conversations: upsert_conv_opt(old(state)@.data.conversations, c), ..old(state)@.data },
            ..old(state)@
        }),
{
    match state.data.conversations.take() {
        Some(mut l) => {
            let i = find_conversation(&l, c.id);
            if i < l.len() {
                l.set(i, c);
            } else {
                l.push(c);
            }
            state.data.conversations = Some(l);
        },
        None => {
            let mut v = Vec::new();
            v.push(c);
            state.data.conversations = Some(v);
        },
    }
}

/// Sets the sequence of `cid` to `s` in both sequence maps.
fn set_both_sequences(state: &mut AppState, cid: u128, s: u64)
    ensures
        final(state)@ == (AppView {
            seq: SeqModel {
                conversation_sequences: old(state)@.seq.conversation_sequences.insert(cid, s),
                conversation_sequences_confirmed: old(state)@.seq.conversation_sequences_confirmed.insert(cid, s),
                ..old(state)@.seq
            },
            ..old(state)@
        }),
{
    state.seq.conversation_sequences.insert(cid, s);
    state.seq.conversation_sequences_confirmed.insert(cid, s);
}

/// Sets, in `m`, the sequence of every conversation of `convs` that has a last message.
fn seed_sequence_map(m: &mut HashMap<u128, u64>, convs: &Vec<ConversationDto>)
    ensures
        final(m)@ == seed_seqs(old(m)@, convs@),
{
    let mut i: usize = 0;
    while i < convs.len()
        invariant
            i <= convs.len(),
            m@ == seed_seqs(old(m)@, convs@.take(i as int)),
        decreases convs.len() - i,
    {
        proof {
            assert(convs@.take(i + 1).drop_last() =~= convs@.take(i as int));
        }
        let c = &convs[i];
        if c.last_msg_seq > 0 {
            m.insert(c.id, c.last_msg_seq as u64);
        }
        i = i + 1;
    }
    proof {
        assert(convs@.take(convs.len() as int) =~= convs@);
    }
}

/// Sets, in `m`, the unread count of every conversation of `convs` from the cache.
fn seed_unread_counts(m: &mut HashMap<u128, i64>, cache: &HashMap<u128, Vec<MessageDto>>, convs: &Vec<ConversationDto>)
    ensures
        final(m)@ == seed_unread(old(m)@, seq_map_view(cache@), convs@),
{
    let mut i: usize = 0;
    while i < convs.len()
        invariant
            i <= convs.len(),
            m@ == seed_unread(old(m)@, seq_map_view(cache@), convs@.take(i as int)),
        decreases convs.len() - i,
    {
        proof {
            assert(convs@.take(i + 1).drop_last() =~= convs@.take(i as int));
        }
        let c = &convs[i];
        let unread = match cache.get(&c.id) {
            Some(msgs) => match max_sequence(msgs) {
                Some(l) => unread_difference(l as i64, c.last_read_sequence),
                None => 0,
            },
            None => 0,
        };
        m.insert(c.id, unread);
        i = i + 1;
    }
    proof {
        assert(convs@.take(convs.len() as int) =~= convs@);
    }
}

/// Removes from `stubs` every stub whose id is that of a conversation of `convs`.
fn drop_listed_stubs(stubs: &mut HashMap<u128, (String, i64)>, convs: &Vec<ConversationDto>)
    ensures
        final(stubs)@ == old(stubs)@.remove_keys(conv_ids(convs@)),
{
    let mut i: usize = 0;
    while i < convs.len()
        invariant
            i <= convs.len(),
            stubs@ == old(stubs)@.remove_keys(conv_ids(convs@.take(i as int))),
        decreases convs.len() - i,
    {
        let ghost p = convs@.take(i as int);
        let ghost q = convs@.take(i + 1);
        let _ = stubs.remove(&convs[i].id);
        proof {
            assert(conv_ids(q) =~= conv_ids(p).insert(convs@[i as int].id)) by {
                assert forall|id: u128| has_conv(q, id) == (has_conv(p, id) || id == convs@[i as int].id) by {
                    if has_conv(q, id) {
                        let j = choose|j: int| 0 <= j < q.len() && (#[trigger] q[j]).id == id;
                        if j < i {
                            assert(p[j] == q[j]);
                        }
                    }
                    if has_conv(p, id) {
                        let j = choose|j: int| 0 <= j < p.len() && (#[trigger] p[j]).id == id;
                        assert(q[j] == p[j]);
                    }
                    if id == convs@[i as int].id {
                        assert(q[i as int] == convs@[i as int]);
                    }
                }
            }
            assert(stubs@ =~= old(stubs)@.remove_keys(conv_ids(q)));
        }
        i = i + 1;
    }
    proof {
        assert(convs@.take(convs.len() as int) =~= convs@);
    }
}

/// Makes `msgs` the cache of conversation `cid`, and sets its sequences to the highest
/// sequence among them.
fn store_messages(state: &mut AppState, cid: u128, msgs: Vec<MessageDto>)
    ensures
        final(state)@ == store_messages_app(old(state)@, cid, msgs@),
{
    let top = max_sequence(&msgs);
    state.data.conversation_messages.insert(cid, msgs);
    proof {
        assert(state@.data.conversation_messages =~= old(state)@.data.conversation_messages.insert(cid, msgs@));
    }
    if let Some(m) = top {
        set_both_sequences(state, cid, m);
    }
}

/// Removes DM stub `u`, its sequences and its entry in the list.
fn drop_stub(state: &mut AppState, u: u128)
    ensures
        final(state)@ == drop_stub_app(old(state)@, u),
{
    let _ = state.stubs.dm_stubs.remove(&u);
    state.seq.conversation_sequences.remove(&u);
    state.seq.conversation_sequences_confirmed.remove(&u);
    if let Some(l) = state.data.conversations.take() {
        state.data.conversations = Some(without_conversation(l, u));
    }
}

/// Puts the confirmed conversation `c` in the list, replacing any entry with its id, and
/// sorts the list newest first.
fn place_confirmed(state: &mut AppState, c: &ConversationDto)
    ensures
        final(state)@ == (AppView {
            data: DataModel { conversations: Some(with_confirmed(old(state)@.data.conversations, *c)), ..old(state)@.data },
            ..old(state)@
        }),
{
    match state.data.conversations.take() {
        Some(l) => {
            let mut rest = without_conversation(l, c.id);
            rest.push(c.duplicate());
            state.data.conversations = Some(sort_newest_first(rest));
        },
        None => {
            let mut v = Vec::new();
            v.push(c.duplicate());
            state.data.conversations = Some(v);
        },
    }
}

/// Caches the messages of a confirmed conversation and sets its sequences from the last one.
fn cache_confirmed(state: &mut AppState, cid: u128, msgs: &Vec<MessageDto>)
    ensures
        final(state)@ == (if msgs@.len() > 0 {
            let b = AppView {
                data: DataModel {
                    conversation_messages: old(state)@.data.conversation_messages.insert(cid, msgs@),
                    ..old(state)@.data
                },
                ..old(state)@
            };
            match msgs@.last().sequence_num {
                Some(s) => both_seqs_app(b, cid, s),
                None => b,
            }
        } else {
            old(state)@
        }),
{
    if msgs.len() > 0 {
        let last = msgs[msgs.len() - 1].sequence_num;
        state.data.conversation_messages.insert(cid, copy_messages(msgs));
        proof {
            assert(state@.data.conversation_messages =~= old(state)@.data.conversation_messages.insert(cid, msgs@));
        }
        if let Some(s) = last {
            set_both_sequences(state, cid, s);
        }
    }
}

/// Shows the cached messages of `cid`, which was just opened; sends a read receipt up to
/// the highest of them and marks the conversation read when the queue takes it.
fn show_opened(state: &mut AppState, cid: u128)
    ensures
        final(state)@ == (if old(state)@.data.conversation_messages.contains_key(cid) {
            let cached = old(state)@.data.conversation_messages[cid];
            let a2 = AppView { view: ChatModel { messages: cached, ..old(state)@.view }, ..old(state)@ };
            match max_seq(cached) {
                Some(m) => {
                    let a3 = both_seqs_app(a2, cid, m);
                    if a3.outgoing.len() < OUTGOING_CAPACITY {
                        AppView {
                            outgoing: a3.outgoing.push(Outgoing::MarkRead { conversation_id: cid, sequence_num: m }),
                            data: DataModel {
                                conversations: match a3.data.conversations {
                                    Some(l) => Some(set_last_read(l, cid, m as i64)),
                                    None => None,
                                },
                                ..a3.data
                            },
                            ..a3
                        }
                    } else {
                        a3
                    }
                },
                None => a2,
            }
        } else {
            old(state)@
        }),
{
    let (shown, top) = match state.data.conversation_messages.get(&cid) {
        Some(cached) => (Some(copy_messages(cached)), max_sequence(cached)),
        None => (None, None),
    };
    if let Some(msgs) = shown {
        state.view.messages = msgs;
        if let Some(m) = top {
            set_both_sequences(state, cid, m);
            let sent = state.try_send_outgoing(Outgoing::MarkRead { conversation_id: cid, sequence_num: m });
            if sent {
                if let Some(mut l) = state.data.conversations.take() {
                    let i = find_conversation(&l, cid);
                    if i < l.len() {
                        let mut c = l[i].duplicate();
                        c.last_read_sequence = m as i64;
                        l.set(i, c);
                    }
                    state.data.conversations = Some(l);
                }
            }
        }
    }
}

/// Adds a zero entry for `cid` to a sequence map that has none.
pub(crate) fn ensure_sequence_entry(m: &mut HashMap<u128, u64>, cid: u128)
    ensures
        final(m)@ == or_zero(old(m)@, cid),
{
    if !m.contains_key(&cid) {
        m.insert(cid, 0);
    }
}

/// Whether `convs` holds a DM titled `target`.
fn contains_dm_titled(convs: &Vec<ConversationDto>, target: &String) -> (r: bool)
    ensures
        r == has_dm_titled(convs@, target@),
{
    let dm = String::from_str("dm");
    let mut i: usize = 0;
    while i < convs.len()
        invariant
            i <= convs.len(),
            dm@ == "dm"@,
            forall|j: int| 0 <= j < i ==> !((#[trigger] convs@[j]).kind@ == "dm"@ && convs@[j].title@ == target@),
        decreases convs.len() - i,
    {
        if convs[i].kind == dm && convs[i].title == *target {
            return true;
        }
        i = i + 1;
    }
    false
}

/// Removes the DM stubs whose target has a DM in `convs`.
fn drop_realised_stubs(stubs: &mut HashMap<u128, (String, i64)>, convs: &Vec<ConversationDto>)
    ensures
        final(stubs)@ == old(stubs)@.remove_keys(realised_stubs(old(stubs)@, convs@)),
{
    let keys = map_keys(stubs);
    let ghost orig = stubs@;
    let ghost done = realised_stubs(orig, convs@);
    let mut i: usize = 0;
    while i < keys.len()
        invariant
            i <= keys.len(),
            keys@.to_set() == orig.dom(),
            keys@.no_duplicates(),
            done == realised_stubs(orig, convs@),
            stubs@ == orig.remove_keys(done.intersect(keys@.take(i as int).to_set())),
        decreases keys.len() - i,
    {
        let k = keys[i];
        proof {
            assert(keys@.take(i + 1).to_set() =~= keys@.take(i as int).to_set().insert(k)) by {
                assert(keys@.take(i + 1) =~= keys@.take(i as int).push(k));
                keys@.take(i as int).lemma_push_to_set_commute(k);
            }
            assert(orig.contains_key(k)) by {
                assert(keys@.to_set().contains(k));
            }
            assert(!keys@.take(i as int).to_set().contains(k)) by {
                if keys@.take(i as int).to_set().contains(k) {
                    let j = choose|j: int| 0 <= j < i && keys@.take(i as int)[j] == k;
                    assert(keys@[j] == keys@[i as int]);
                }
            }
        }
        let matched = match stubs.get(&k) {
            Some(entry) => contains_dm_titled(convs, &entry.0),
            None => false,
        };
        if matched {
            let _ = stubs.remove(&k);
        }
        proof {
            assert(stubs@ =~= orig.remove_keys(done.intersect(keys@.take(i + 1).to_set())));
        }
        i = i + 1;
    }
    proof {
        assert(keys@.take(keys.len() as int) =~= keys@);
        assert(done.intersect(keys@.to_set()) =~= done);
    }
}

/// Sets, in `m`, the sequence of each conversation of `all` to the highest sequence among
/// its messages, where it has one.
fn seed_top_sequences(m: &mut HashMap<u128, u64>, all: &HashMap<u128, Vec<MessageDto>>)
    ensures
        final(m)@ == old(m)@.union_prefer_right(top_sequences(seq_map_view(all@))),
{
    let keys = map_keys(all);
    let ghost orig = m@;
    let ghost top = top_sequences(seq_map_view(all@));
    let mut i: usize = 0;
    while i < keys.len()
        invariant
            i <= keys.len(),
            keys@.to_set() == all@.dom(),
            top == top_sequences(seq_map_view(all@)),
            m@ == orig.union_prefer_right(top.restrict(keys@.take(i as int).to_set())),
        decreases keys.len() - i,
    {
        let k = keys[i];
        proof {
            assert(keys@.take(i + 1) =~= keys@.take(i as int).push(k));
            keys@.take(i as int).lemma_push_to_set_commute(k);
        }
        if let Some(v) = all.get(&k) {
            if let Some(s) = max_sequence(v) {
                m.insert(k, s);
            }
        }
        proof {
            assert(m@ =~= orig.union_prefer_right(top.restrict(keys@.take(i + 1).to_set())));
        }
        i = i + 1;
    }
    proof {
        assert(keys@.take(keys.len() as int) =~= keys@);
        assert(top.restrict(keys@.to_set()) =~= top);
    }
}

/// Handling of conversation events.
pub struct ConversationHandler;

impl ConversationHandler {
    /// The server's initial state arrived.
    pub fn handle_initial_state_received(state: &mut AppState, conversations: Vec<ConversationDto>, user_sequence: u64)
        ensures
            exists|sys: MessageDto|
                is_system_msg(sys, synced_text(conversations@.len()), 0)
                    && final(state)@ == initial_state_app(old(state)@, conversations@, user_sequence, sys),
    {
        state.seq.user_sequence_confirmed = user_sequence;
        state.seq.user_sequence_received = user_sequence;
        seed_sequence_map(&mut state.seq.conversation_sequences, &conversations);
        seed_sequence_map(&mut state.seq.conversation_sequences_confirmed, &conversations);
        state.data.conversation_unread_counts.clear();
        seed_unread_counts(&mut state.data.conversation_unread_counts, &state.data.conversation_messages, &conversations);
        drop_listed_stubs(&mut state.stubs.dm_stubs, &conversations);
        let n = conversations.len();
        state.data.conversations = Some(conversations);
        let ghost a = old(state)@;
        let ghost a1 = state@;
        proof {
            assert(a1 == AppView {
                seq: SeqModel {
                    user_sequence_confirmed: user_sequence,
                    user_sequence_received: user_sequence,
                    conversation_sequences: seed_seqs(a.seq.conversation_sequences, state.data.conversations.unwrap()@),
                    conversation_sequences_confirmed: seed_seqs(a.seq.conversation_sequences_confirmed, state.data.conversations.unwrap()@),
                    ..a.seq
                },
                data: DataModel {
                    conversations: Some(state.data.conversations.unwrap()@),
                    conversation_unread_counts: seed_unread(Map::empty(), a.data.conversation_messages, state.data.conversations.unwrap()@),
                    ..a.data
                },
                stubs: StubsModel { dm_stubs: a.stubs.dm_stubs.remove_keys(conv_ids(state.data.conversations.unwrap()@)), ..a.stubs },
                ..a
            });
        }
        let text = crate::text::join3("Sincronizzate ", crate::text::u64_to_text(n as u64).as_str(), " conversazioni");
        add_system_message(state, text);
        let ghost sys = choose|sys: MessageDto| is_system_msg(sys, text@, 0) && state@ == push_system_app(a1, sys);
        if state.view.cid.is_some() && state.view.messages.len() == 0 {
            state.data.request_conversations_refresh = true;
        }
        proof {
            assert(text@ == synced_text(n as nat));
            assert(state@ == initial_state_app(a, a1.data.conversations.unwrap(), user_sequence, sys));
        }
    }

    /// The messages of conversation `conversation_id` arrived.
    pub fn handle_conversation_messages_received(
        state: &mut AppState,
        conversation_id: u128,
        messages: Vec<MessageDto>,
        has_more: bool,
    )
        ensures
            messages_received_rel(old(state)@, final(state)@, conversation_id, messages@, has_more),
    {
        let sorted = sort_messages(messages);
        let shown = copy_messages(&sorted);
        store_messages(state, conversation_id, sorted);
        if state.view.cid == Some(conversation_id) {
            state.view.messages = shown;
            if let Some(l) = &state.data.conversations {
                let i = find_conversation(l, conversation_id);
                if i < l.len() {
                    state.view.conv_title = l[i].title.clone();
                }
            }
            let ghost a2 = state@;
            proof {
                assert(a2 == messages_received_app(old(state)@, conversation_id, messages@));
            }
            if has_more {
                let text = String::from_str("Caricati messaggi recenti (altri disponibili)");
                add_system_message(state, text);
                let ghost sys = choose|sys: MessageDto| is_system_msg(sys, text@, 0) && state@ == push_system_app(a2, sys);
                assert(is_system_msg(sys, more_available_text(), 0));
            }
        }
    }

    /// The server confirmed conversation `conversation`, created for the stub whose id it
    /// was given (`stub`, when there was one), with its first messages.
    pub fn apply_conversation_confirmed(
        state: &mut AppState,
        conversation: ConversationDto,
        messages: Vec<MessageDto>,
        stub: Option<u128>,
    )
        ensures
            exists|sys: MessageDto|
                is_system_msg(sys, confirmed_text(conversation.title@), 0)
                    && final(state)@ == push_system_app(confirmed_app(old(state)@, conversation, messages@, stub), sys),
    {
        let was_active = match stub {
            Some(u) => state.view.cid == Some(u),
            None => false,
        };
        if let Some(u) = stub {
            if state.stubs.dm_stubs.contains_key(&u) {
                drop_stub(state, u);
            }
        }
        place_confirmed(state, &conversation);
        cache_confirmed(state, conversation.id, &messages);
        if was_active {
            state.view.cid = Some(conversation.id);
            state.view.conv_title = conversation.title.clone();
            state.view.messages = messages;
        } else if state.view.cid == Some(conversation.id) {
            state.view.messages = messages;
        }
        let ghost a3 = state@;
        proof {
            assert(a3 == confirmed_app(old(state)@, conversation, messages@, stub));
        }
        let text = join3("Conversazione '", conversation.title.as_str(), "' confermata");
        add_system_message(state, text);
        let ghost sys = choose|sys: MessageDto| is_system_msg(sys, text@, 0) && state@ == push_system_app(a3, sys);
        assert(is_system_msg(sys, confirmed_text(conversation.title@), 0));
    }

    /// The server confirmed conversation `conversation`; `client_temp_id` is the id the
    /// client gave the stub it was created from, if any.
    pub fn handle_conversation_confirmed(
        state: &mut AppState,
        conversation: ConversationDto,
        messages: Vec<MessageDto>,
        client_temp_id: Option<String>,
    )
        ensures
            exists|sys: MessageDto|
                is_system_msg(sys, confirmed_text(conversation.title@), 0)
                    && final(state)@ == push_system_app(
                        confirmed_app(old(state)@, conversation, messages@, stub_of(client_temp_id)),
                        sys,
                    ),
    {
        let stub = match &client_temp_id {
            Some(t) => parse_uuid(t.as_str()),
            None => None,
        };
        Self::apply_conversation_confirmed(state, conversation, messages, stub);
    }

    /// A page of older messages arrived for the open conversation.
    pub fn handle_older_messages_loaded(state: &mut AppState, new_messages: Vec<MessageDto>)
        ensures
            final(state)@ == older_loaded_app(old(state)@, new_messages@),
    {
        state.view.is_loading_more = false;
        let cid = match state.view.cid {
            Some(c) => c,
            None => return,
        };
        if new_messages.len() == 0 {
            state.view.has_more_messages.insert(cid, false);
            return;
        }
        if new_messages.len() < OLDER_PAGE_SIZE {
            state.view.has_more_messages.insert(cid, false);
        }
        let mut all = new_messages;
        let mut shown = take_vec(&mut state.view.messages);
        all.append(&mut shown);
        let sorted = sort_messages(dedup_messages(all));
        state.view.messages = copy_messages(&sorted);
        state.data.conversation_messages.insert(cid, sorted);
        proof {
            assert(state@.data.conversation_messages =~= old(state)@.data.conversation_messages.insert(
                cid, sort_msgs(dedup_msgs(new_messages@ + old(state)@.view.messages))));
        }
    }

    /// Loading older messages failed.
    pub fn handle_loading_error(state: &mut AppState)
        ensures
            final(state)@ == (AppView { view: ChatModel { is_loading_more: false, ..old(state)@.view }, ..old(state)@ }),
    {
        state.view.is_loading_more = false;
    }

    /// Conversation `cid` was opened.
    pub fn handle_opened(state: &mut AppState, cid: u128)
        ensures
            final(state)@ == opened_app(old(state)@, cid),
    {
        state.view.cid = Some(cid);
        state.view.page = Page::Chat;
        state.view.messages = Vec::new();
        state.view.is_loading_more = false;
        state.view.has_more_messages.insert(cid, true);
        ensure_sequence_entry(&mut state.seq.conversation_sequences, cid);
        ensure_sequence_entry(&mut state.seq.conversation_sequences_confirmed, cid);
        if state.data.conversation_unread_counts.contains_key(&cid) {
            state.data.conversation_unread_counts.insert(cid, 0);
        }
        show_opened(state, cid);
    }

    /// Conversation `cid` was deleted.
    pub fn handle_conversation_deleted(state: &mut AppState, cid: u128)
        ensures
            final(state)@ == deleted_conversation_app(old(state)@, cid),
    {
        if let Some(l) = state.data.conversations.take() {
            state.data.conversations = Some(without_conversation(l, cid));
        }
        let _ = state.data.conversation_messages.remove(&cid);
        proof {
            assert(state@.data.conversation_messages =~= old(state)@.data.conversation_messages.remove(cid));
        }
        state.seq.conversation_sequences.remove(&cid);
        state.seq.conversation_sequences_confirmed.remove(&cid);
        let _ = state.seq.is_recovering_messages.remove(&cid);
        if state.view.cid == Some(cid) {
            state.view.cid = None;
            state.view.messages = Vec::new();
            state.view.page = Page::Conversations;
        }
        let _ = state.stubs.dm_stubs.remove(&cid);
        state.data.request_conversations_refresh = true;
    }

    /// Conversation `cid` was created and is opened.
    pub fn handle_conversation_created(state: &mut AppState, cid: u128)
        ensures
            final(state)@ == (AppView {
                view: ChatModel { cid: Some(cid), page: Page::Chat, messages: Seq::empty(), ..old(state)@.view },
                data: DataModel { request_conversations_refresh: true, ..old(state)@.data },
                ..old(state)@
            }),
    {
        state.view.cid = Some(cid);
        state.view.page = Page::Chat;
        state.view.messages = Vec::new();
        state.data.request_conversations_refresh = true;
    }

    /// The DM stub `stub_id` towards `target_username` was created; it is opened.
    pub fn handle_dm_stub_created(state: &mut AppState, stub_id: u128, target_username: String)
        ensures
            exists|t: i64, sys: MessageDto|
                is_system_msg(sys, stub_ready_text(target_username@), 0)
                    && final(state)@ == #[trigger] stub_created_app(old(state)@, stub_id, target_username, t, sys),
    {
        let ghost a = old(state)@;
        state.add_dm_stub(stub_id, target_username.clone());
        let ghost t = choose|t: i64| state@ == with_dm_stub(a, stub_id, target_username, t);
        state.view.cid = Some(stub_id);
        state.view.page = Page::Chat;
        let sys = MessageDto::system_message(join3("Chat con ", target_username.as_str(), " pronta. Invia il primo messaggio per iniziare!"));
        let mut cache = Vec::new();
        cache.push(sys.duplicate());
        state.data.conversation_messages.insert(stub_id, cache);
        state.view.conv_title = target_username;
        let mut shown = Vec::new();
        let ghost g = sys;
        shown.push(sys);
        state.view.messages = shown;
        proof {
            assert(state@.data.conversation_messages =~= a.data.conversation_messages.insert(stub_id, seq![g]));
            assert(state@.view.messages =~= seq![g]);
            assert(state@ == stub_created_app(a, stub_id, state.view.conv_title, t, g));
        }
    }

    /// The conversation list was loaded; DM stubs whose DM now exists are dropped.
    pub fn handle_conversations_loaded(state: &mut AppState, conversations: Vec<ConversationDto>)
        ensures
            final(state)@ == (AppView {
                stubs: StubsModel {
                    dm_stubs: old(state)@.stubs.dm_stubs.remove_keys(realised_stubs(old(state)@.stubs.dm_stubs, conversations@)),
                    ..old(state)@.stubs
                },
                data: DataModel { conversations: Some(conversations@), ..old(state)@.data },
                ..old(state)@
            }),
    {
        drop_realised_stubs(&mut state.stubs.dm_stubs, &conversations);
        state.data.conversations = Some(conversations);
    }

    /// The messages of every conversation were loaded.
    pub fn handle_all_messages_loaded(state: &mut AppState, all_messages: HashMap<u128, Vec<MessageDto>>)
        ensures
            final(state)@ == all_loaded_app(old(state)@, seq_map_view(all_messages@)),
    {
        seed_top_sequences(&mut state.seq.conversation_sequences, &all_messages);
        seed_top_sequences(&mut state.seq.conversation_sequences_confirmed, &all_messages);
        let shown = match state.view.cid {
            Some(cid) => match all_messages.get(&cid) {
                Some(v) => Some(copy_messages(v)),
                None => None,
            },
            None => None,
        };
        state.data.conversation_messages = all_messages;
        if let Some(v) = shown {
            state.view.messages = v;
        }
    }

    /// The messages of the open conversation were refreshed.
    pub fn handle_refreshed_msgs(state: &mut AppState, messages: Vec<MessageDto>)
        ensures
            final(state)@ == (match old(state)@.view.cid {
                Some(cid) => {
                    let a1 = AppView {
                        view: ChatModel { messages: messages@, ..old(state)@.view },
                        data: DataModel {
                            conversation_messages: old(state)@.data.conversation_messages.insert(cid, messages@),
                            ..old(state)@.data
                        },
                        ..old(state)@
                    };
                    match max_seq(messages@) {
                        Some(m) => conv_seq_app(a1, cid, m),
                        None => a1,
                    }
                },
                None => AppView { view: ChatModel { messages: messages@, ..old(state)@.view }, ..old(state)@ },
            }),
    {
        let copy = copy_messages(&messages);
        let top = max_sequence(&messages);
        state.view.messages = messages;
        if let Some(cid) = state.view.cid {
            state.data.conversation_messages.insert(cid, copy);
            proof {
                assert(state@.data.conversation_messages =~= old(state)@.data.conversation_messages.insert(cid, copy@));
            }
            if let Some(m) = top {
                SequenceHandler::update_conversation_sequence(state, cid, m);
            }
        }
    }

    /// A single conversation was loaded.
    pub fn handle_single_conversation_loaded(state: &mut AppState, conv: ConversationDto)
        ensures
            final(state)@ == (AppView {
                data: DataModel { conversations: upsert_conv_opt(old(state)@.data.conversations, conv), ..old(state)@.data },
                ..old(state)@
            }),
    {
        upsert_conversation(state, conv);
    }

    /// The initial load is complete.
    pub fn handle_initial_load_complete(state: &mut AppState)
        ensures
            final(state)@ == (AppView {
                data: DataModel { is_initial_load_complete: true, is_loading: false, ..old(state)@.data },
                ..old(state)@
            }),
    {
        state.data.is_initial_load_complete = true;
        state.data.is_loading = false;
    }

    /// Progress of the initial load; it is only worth a log line.
    pub fn handle_loading_progress(msg: String) {
        let _ = msg;
    }

    /// A full fetch of conversation `cid` was asked for; it is made, with the session's
    /// server and token, when the user is logged in.
    pub fn handle_trigger_conversation_fetch(state: &AppState, cid: u128, reason: String) -> (r: Option<ConversationFetch>)
        ensures
            r == (match state.session.token {
                Some(token) => Some(ConversationFetch { base: state.session.base, token, conversation_id: cid }),
                None => None,
            }),
    {
        let _ = reason;
        match &state.session.token {
            Some(token) => Some(ConversationFetch {
                base: state.session.base.clone(),
                token: token.clone(),
                conversation_id: cid,
            }),
            None => None,
        }
    }

    /// A conversation was fetched together with its messages.
    pub fn handle_conversation_complete_fetched(state: &mut AppState, conv: ConversationDto, messages: Vec<MessageDto>)
        ensures
            final(state)@ == complete_fetched_app(old(state)@, conv, messages@),
    {
        let id = conv.id;
        upsert_conversation(state, conv);
        let top = match max_sequence(&messages) {
            Some(m) => m,
            None => 0,
        };
        if top > 0 {
            set_both_sequences(state, id, top);
        }
        let copy = copy_messages(&messages);
        state.data.conversation_messages.insert(id, copy);
        proof {
            assert(state@.data.conversation_messages =~= old(state)@.data.conversation_messages.insert(id, messages@));
        }
        let _ = state.stubs.dm_stubs.remove(&id);
        if state.view.cid == Some(id) {
            state.view.messages = messages;
        }
    }

    /// The conversation list should be refreshed.
    pub fn handle_conversation_list_updated(state: &mut AppState)
        ensures
            final(state)@ == (AppView {
                data: DataModel { request_conversations_refresh: true, ..old(state)@.data },
                ..old(state)@
            }),
    {
        state.data.request_conversations_refresh = true;
    }

    /// The members of conversation `conversation_id` were loaded.
    pub fn handle_members_loaded(state: &mut AppState, conversation_id: u128, members: Vec<ParticipantInfo>)
        ensures
            final(state)@ == (AppView {
                data: DataModel {
                    members_list: old(state)@.data.members_list.insert(conversation_id, members@),
                    is_loading_members: false,
                    ..old(state)@.data
                },
                ..old(state)@
            }),
    {
        state.data.members_list.insert(conversation_id, members);
        state.data.is_loading_members = false;
        proof {
            assert(state@.data.members_list =~= old(state)@.data.members_list.insert(conversation_id, members@));
        }
    }

    /// Conversation `cid` was closed: if it is the open one, the list is shown again.
    pub fn handle_closed(state: &mut AppState, cid: u128)
        ensures
            final(state)@ == (if old(state)@.view.cid == Some(cid) {
                AppView {
                    view: ChatModel { cid: None, page: Page::Conversations, messages: Seq::empty(), ..old(state)@.view },
                    ..old(state)@
                }
            } else {
                old(state)@
            }),
    {
        if state.view.cid == Some(cid) {
            state.view.cid = None;
            state.view.page = Page::Conversations;
            state.view.messages = Vec::new();
        }
    }

    /// The last message of conversation `conversation_id` was reported.
    pub fn handle_last_message_update(state: &mut AppState, conversation_id: u128, message: MessageDto)
        ensures
            final(state)@ == last_message_app(old(state)@, conversation_id, message),
    {
        if let Some(mut l) = state.data.conversations.take() {
            let i = find_conversation(&l, conversation_id);
            if i < l.len() {
                let mut c = l[i].duplicate();
                let last_read = c.last_read_sequence;
                c.last_activity = if c.last_activity >= message.created_at { c.last_activity } else { message.created_at };
                l.set(i, c);
                if let Some(s) = message.sequence_num {
                    state.data.conversation_unread_counts.insert(conversation_id, unread_difference(s as i64, last_read));
                }
            }
            state.data.conversations = Some(l);
        }
        let ghost mid = state@;
        let mut cache = match state.data.conversation_messages.remove(&conversation_id) {
            Some(c) => c,
            None => Vec::new(),
        };
        cache.push(message);
        state.data.conversation_messages.insert(conversation_id, cache);
        proof {
            assert(state@.data.conversation_messages =~= mid.data.conversation_messages.insert(
                conversation_id, cache_of(mid.data.conversation_messages, conversation_id).push(message)));
        }
    }
}

} // verus!
