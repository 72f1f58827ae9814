//! Replays from the server after a gap: user events and conversation messages.
use vstd::prelude::*;
use crate::cache::{
    cache_of, client_index, contains_id, find_client_message, has_client_id, has_id, sort_messages, sort_msgs,
    take_cache, take_vec,
};
use crate::incoming::conv_seq_app;
use crate::messages::{drop_pending, find_pending, pending_index, remove_pending};
use crate::model::{MessageDto, Outgoing, UiEvent, UserEventData};
use crate::sequence::{user_seq_step, SequenceHandler};
use crate::state::{get_seq, AppState, SequenceStats, OUTGOING_CAPACITY};
use crate::view::{AppView, BuffersModel, ChatModel, DataModel, PendingModel, SeqModel};

verus! {

/// `x - 1`, staying at zero.
pub open spec fn dec_sat(x: u32) -> u32 {
    if x > 0 { (x - 1) as u32 } else { 0 }
}

/// `x + n`, staying at the maximum.
pub open spec fn add_sat(x: u32, n: nat) -> u32 {
    if x + n <= u32::MAX { (x + n) as u32 } else { u32::MAX }
}

/// The state after one replayed user event is recorded and passed on for handling.
pub open spec fn replay_event_app(a: AppView, ev: UserEventData) -> AppView {
    let r = user_seq_step(a.seq, a.outgoing, ev.sequence);
    AppView {
        seq: r.0,
        outgoing: r.1,
        ui_events: a.ui_events.push(UiEvent::UserNotification {
            sequence: ev.sequence,
            event_type: ev.event_type,
            event_data: ev.event_data,
            conversation_id: ev.conversation_id,
            recovery: true,
        }),
        ..a
    }
}

/// The state after the replayed user events are recorded and passed on, in order.
pub open spec fn replay_events_app(a: AppView, evs: Seq<UserEventData>) -> AppView
    decreases evs.len(),
{
    if evs.len() == 0 {
        a
    } else {
        replay_event_app(replay_events_app(a, evs.drop_last()), evs.last())
    }
}

/// The state after a read receipt for the open conversation, up to its last received
/// sequence, is queued (if the conversation has a sequence and the queue has room).
pub open spec fn mark_open_read_app(a: AppView) -> AppView {
    match a.view.cid {
        Some(c) if a.seq.conversation_sequences.contains_key(c) => AppView {
            outgoing: if a.outgoing.len() < OUTGOING_CAPACITY {
                a.outgoing.push(Outgoing::MarkRead { conversation_id: c, sequence_num: a.seq.conversation_sequences[c] })
            } else {
                a.outgoing
            },
            ..a
        },
        _ => a,
    }
}

/// The state after a user events replay of `evs` arrives.
pub open spec fn user_events_resume_app(a: AppView, evs: Seq<UserEventData>) -> AppView {
    let a1 = AppView {
        seq: SeqModel {
            is_recovering_user_events: false,
            pending_resume_requests: dec_sat(a.seq.pending_resume_requests),
            stats: SequenceStats { events_recovered: add_sat(a.seq.stats.events_recovered, evs.len()), ..a.seq.stats },
            ..a.seq
        },
        ..a
    };
    mark_open_read_app(replay_events_app(a1, evs))
}

/// Queues a read receipt for the open conversation up to its last received sequence.
fn mark_open_conversation_read(state: &mut AppState)
    ensures
        final(state)@ == mark_open_read_app(old(state)@),
{
    if let Some(c) = state.view.cid {
        match state.seq.conversation_sequences.get(&c) {
            Some(s) => {
                let seq = *s;
                let _ = state.try_send_outgoing(Outgoing::MarkRead { conversation_id: c, sequence_num: seq });
            },
            None => {},
        }
    }
}

/// The highest sequence among the messages that have one.
pub open spec fn max_seq(s: Seq<MessageDto>) -> Option<u64>
    decreases s.len(),
{
    if s.len() == 0 {
        None
    } else {
        let rest = max_seq(s.drop_last());
        match (rest, s.last().sequence_num) {
            (Some(a), Some(b)) => Some(if a >= b { a } else { b }),
            (None, Some(b)) => Some(b),
            (r, None) => r,
        }
    }
}

/// `messages.iter().filter_map(|m| m.sequence_num).max()`.
pub fn max_sequence(s: &Vec<MessageDto>) -> (r: Option<u64>)
    ensures
        r == max_seq(s@),
{
    let mut best: Option<u64> = None;
    let mut i: usize = 0;
    while i < s.len()
        invariant
            i <= s.len(),
            best == max_seq(s@.take(i as int)),
        decreases s.len() - i,
    {
        proof {
            assert(s@.take(i + 1).drop_last() =~= s@.take(i as int));
            assert(s@.take(i + 1).last() == s@[i as int]);
        }
        best = match (best, s[i].sequence_num) {
            (Some(a), Some(b)) => Some(if a >= b { a } else { b }),
            (None, Some(b)) => Some(b),
            (r, None) => r,
        };
        i = i + 1;
    }
    proof {
        assert(s@.take(s.len() as int) =~= s@);
    }
    best
}

/// Whether message `id` was already known for `cid`: cached, or on screen while `cid` is open.
pub open spec fn known_before(a: AppView, cid: u128, id: u128) -> bool {
    ||| has_id(cache_of(a.data.conversation_messages, cid), id)
    ||| (a.view.cid == Some(cid) && has_id(a.view.messages, id))
}

/// The replayed messages that were not known before, in order.
pub open spec fn fresh_msgs(a: AppView, cid: u128, s: Seq<MessageDto>) -> Seq<MessageDto>
    decreases s.len(),
{
    if s.len() == 0 {
        Seq::empty()
    } else if known_before(a, cid, s.last().id) {
        fresh_msgs(a, cid, s.drop_last())
    } else {
        fresh_msgs(a, cid, s.drop_last()).push(s.last())
    }
}

/// The optimistic copy that a replayed message `m` replaces, as its id and client id: the
/// pending message under `m`'s client id, or else, when `cid` is open, the first message on
/// screen carrying that client id.
pub open spec fn removal_for(a: AppView, cid: u128, m: MessageDto) -> Option<(u128, String)> {
    match m.client_msg_id {
        Some(k) => {
            let p = a.pending.pending_confirmations;
            let pi = pending_index(p, k@);
            if pi < p.len() {
                Some((p[pi].1.id, k))
            } else if a.view.cid == Some(cid) && client_index(a.view.messages, k@) < a.view.messages.len() {
                Some((a.view.messages[client_index(a.view.messages, k@)].id, k))
            } else {
                None
            }
        },
        None => None,
    }
}

/// The optimistic copies that the fresh messages replace, in order.
pub open spec fn removals(a: AppView, cid: u128, fresh: Seq<MessageDto>) -> Seq<(u128, String)>
    decreases fresh.len(),
{
    if fresh.len() == 0 {
        Seq::empty()
    } else {
        match removal_for(a, cid, fresh.last()) {
            Some(r) => removals(a, cid, fresh.drop_last()).push(r),
            None => removals(a, cid, fresh.drop_last()),
        }
    }
}

/// The client ids of the fresh messages that were pending, in order.
pub open spec fn pending_keys(a: AppView, fresh: Seq<MessageDto>) -> Seq<String>
    decreases fresh.len(),
{
    if fresh.len() == 0 {
        Seq::empty()
    } else {
        match fresh.last().client_msg_id {
            Some(k) if pending_index(a.pending.pending_confirmations, k@) < a.pending.pending_confirmations.len() =>
                pending_keys(a, fresh.drop_last()).push(k),
            _ => pending_keys(a, fresh.drop_last()),
        }
    }
}

/// `s` without the message of id `oid` and without the messages carrying client id `k`.
pub open spec fn remove_pair(s: Seq<MessageDto>, oid: u128, k: Seq<char>) -> Seq<MessageDto>
    decreases s.len(),
{
    if s.len() == 0 {
        Seq::empty()
    } else if s.last().id == oid || has_client_id(s.last(), k) {
        remove_pair(s.drop_last(), oid, k)
    } else {
        remove_pair(s.drop_last(), oid, k).push(s.last())
    }
}

/// `s` after each removal in turn.
pub open spec fn apply_removals(s: Seq<MessageDto>, rems: Seq<(u128, String)>) -> Seq<MessageDto>
    decreases rems.len(),
{
    if rems.len() == 0 {
        s
    } else {
        remove_pair(apply_removals(s, rems.drop_last()), rems.last().0, rems.last().1@)
    }
}

/// The pending confirmations without those under any of `keys`.
pub open spec fn remove_pending_all(p: Seq<(String, MessageDto)>, keys: Seq<String>) -> Seq<(String, MessageDto)>
    decreases keys.len(),
{
    if keys.len() == 0 {
        p
    } else {
        remove_pending(remove_pending_all(p, keys.drop_last()), keys.last()@)
    }
}

/// The state after the optimistic copies replaced by `fresh` are dropped.
pub open spec fn drop_replaced_app(a: AppView, cid: u128, fresh: Seq<MessageDto>) -> AppView {
    drop_replaced_with(a, cid, removals(a, cid, fresh), pending_keys(a, fresh))
}

/// The state after the optimistic copies `rems` are dropped and the pending client ids
/// `keys` are settled.
pub open spec fn drop_replaced_with(a: AppView, cid: u128, rems: Seq<(u128, String)>, keys: Seq<String>) -> AppView {
    AppView {
        pending: PendingModel {
            pending_confirmations: remove_pending_all(a.pending.pending_confirmations, keys),
            ..a.pending
        },
        view: if a.view.cid == Some(cid) {
            ChatModel { messages: apply_removals(a.view.messages, rems), ..a.view }
        } else {
            a.view
        },
        data: if a.data.conversation_messages.contains_key(cid) {
            DataModel {
                conversation_messages: a.data.conversation_messages.insert(
                    cid,
                    apply_removals(a.data.conversation_messages[cid], rems),
                ),
                ..a.data
            }
        } else {
            a.data
        },
        ..a
    }
}

/// The state after the fresh messages are added to the cache and, if `cid` is open, to the
/// screen, both sorted; the buffer of `cid` is dropped and, if open, it is marked read.
pub open spec fn add_fresh_app(a: AppView, cid: u128, fresh: Seq<MessageDto>) -> AppView {
    let a1 = AppView {
        data: DataModel {
            conversation_messages: a.data.conversation_messages.insert(
                cid,
                if a.data.conversation_messages.contains_key(cid) {
                    sort_msgs(a.data.conversation_messages[cid] + fresh)
                } else {
                    fresh
                },
            ),
            ..a.data
        },
        view: if a.view.cid == Some(cid) {
            ChatModel { messages: sort_msgs(a.view.messages + fresh), ..a.view }
        } else {
            a.view
        },
        buffers: BuffersModel { messages: a.buffers.messages.remove(cid), ..a.buffers },
        ..a
    };
    if a1.view.cid == Some(cid) { mark_open_read_app(a1) } else { a1 }
}

/// The state after the server replayed the messages `msgs` of conversation `cid`.
pub open spec fn messages_resume_app(a: AppView, cid: u128, msgs: Seq<MessageDto>) -> AppView {
    let a1 = AppView {
        seq: SeqModel {
            is_recovering_messages: a.seq.is_recovering_messages.insert(cid, false),
            pending_resume_requests: dec_sat(a.seq.pending_resume_requests),
            ..a.seq
        },
        ..a
    };
    let a2 = match max_seq(msgs) {
        Some(m) => conv_seq_app(a1, cid, m),
        None => a1,
    };
    let fresh = fresh_msgs(a2, cid, msgs);
    let a3 = drop_replaced_app(a2, cid, fresh);
    if fresh.len() == 0 { a3 } else { add_fresh_app(a3, cid, fresh) }
}

/// `s` without the message of id `oid` and without the messages carrying client id `k`.
fn retain_not_pair(s: Vec<MessageDto>, oid: u128, k: &String) -> (r: Vec<MessageDto>)
    ensures
        r@ == remove_pair(s@, oid, k@),
{
    let mut out: Vec<MessageDto> = Vec::new();
    let mut i: usize = 0;
    while i < s.len()
        invariant
            i <= s.len(),
            out@ == remove_pair(s@.take(i as int), oid, k@),
        decreases s.len() - i,
    {
        proof {
            assert(s@.take(i + 1).drop_last() =~= s@.take(i as int));
            assert(s@.take(i + 1).last() == s@[i as int]);
        }
        if !(s[i].id == oid || crate::cache::carries_client_id(&s[i], k)) {
            out.push(s[i].duplicate());
        }
        i = i + 1;
    }
    proof {
        assert(s@.take(s.len() as int) =~= s@);
    }
    out
}

/// `s` after each removal in turn.
fn apply_removals_vec(s: Vec<MessageDto>, rems: &Vec<(u128, String)>) -> (r: Vec<MessageDto>)
    ensures
        r@ == apply_removals(s@, rems@),
{
    let mut cur = s;
    let mut i: usize = 0;
    while i < rems.len()
        invariant
            i <= rems.len(),
            cur@ == apply_removals(s@, rems@.take(i as int)),
        decreases rems.len() - i,
    {
        proof {
            assert(rems@.take(i + 1).drop_last() =~= rems@.take(i as int));
            assert(rems@.take(i + 1).last() == rems@[i as int]);
        }
        cur = retain_not_pair(cur, rems[i].0, &rems[i].1);
        i = i + 1;
    }
    proof {
        assert(rems@.take(rems.len() as int) =~= rems@);
    }
    cur
}

/// Whether message `id` is known for `cid` (cached, or on screen while `cid` is open).
fn is_known(state: &AppState, cid: u128, id: u128) -> (r: bool)
    ensures
        r == known_before(state@, cid, id),
{
    let in_cache = match state.data.conversation_messages.get(&cid) {
        Some(c) => contains_id(c, id),
        None => false,
    };
    in_cache || (state.view.cid == Some(cid) && contains_id(&state.view.messages, id))
}

/// Splits the replayed messages into the fresh ones, the optimistic copies they replace and
/// the pending client ids they settle.
fn classify_replay(state: &AppState, cid: u128, msgs: Vec<MessageDto>)
    -> (r: (Vec<MessageDto>, Vec<(u128, String)>, Vec<String>))
    ensures
        r.0@ == fresh_msgs(state@, cid, msgs@),
        r.1@ == removals(state@, cid, fresh_msgs(state@, cid, msgs@)),
        r.2@ == pending_keys(state@, fresh_msgs(state@, cid, msgs@)),
{
    let ghost a = state@;
    let ghost all = msgs@;
    let mut fresh: Vec<MessageDto> = Vec::new();
    let mut rems: Vec<(u128, String)> = Vec::new();
    let mut keys: Vec<String> = Vec::new();
    let mut rest = msgs;
    let n0 = rest.len();
    assert(all.len() == n0);
    let mut k: usize = 0;
    while rest.len() > 0
        invariant
            k + rest.len() == all.len(),
            all.len() <= usize::MAX,
            rest@ == all.skip(k as int),
            fresh@ == fresh_msgs(a, cid, all.take(k as int)),
            rems@ == removals(a, cid, fresh@),
            keys@ == pending_keys(a, fresh@),
            state@ == a,
        decreases rest.len(),
    {
        let m = rest.remove(0);
        proof {
            assert(all.take(k + 1).drop_last() =~= all.take(k as int));
            assert(all.take(k + 1).last() == m);
            assert(rest@ =~= all.skip(k + 1));
        }
        if !is_known(state, cid, m.id) {
            let ghost f0 = fresh@;
            match &m.client_msg_id {
                Some(key) => {
                    let pi = find_pending(&state.pending.pending_confirmations, key);
                    if pi < state.pending.pending_confirmations.len() {
                        rems.push((state.pending.pending_confirmations[pi].1.id, key.clone()));
                        keys.push(key.clone());
                    } else if state.view.cid == Some(cid) {
                        let ui = find_client_message(&state.view.messages, key);
                        if ui < state.view.messages.len() {
                            rems.push((state.view.messages[ui].id, key.clone()));
                        }
                    }
                },
                None => {},
            }
            fresh.push(m);
            proof {
                assert(fresh@.drop_last() =~= f0);
            }
        }
        k = k + 1;
    }
    proof {
        assert(all.take(k as int) =~= all);
    }
    (fresh, rems, keys)
}

/// Drops the optimistic copies `rems` and settles the pending client ids `keys`.
fn drop_replaced(state: &mut AppState, cid: u128, rems: &Vec<(u128, String)>, keys: &Vec<String>)
    ensures
        final(state)@ == drop_replaced_with(old(state)@, cid, rems@, keys@),
{
    let ghost a = old(state)@;
    let mut i: usize = 0;
    while i < keys.len()
        invariant
            i <= keys.len(),
            state@ == (AppView {
                pending: PendingModel {
                    pending_confirmations: remove_pending_all(a.pending.pending_confirmations, keys@.take(i as int)),
                    ..a.pending
                },
                ..a
            }),
        decreases keys.len() - i,
    {
        proof {
            assert(keys@.take(i + 1).drop_last() =~= keys@.take(i as int));
            assert(keys@.take(i + 1).last() == keys@[i as int]);
        }
        drop_pending(state, &keys[i]);
        i = i + 1;
    }
    proof {
        assert(keys@.take(keys.len() as int) =~= keys@);
    }
    if state.view.cid == Some(cid) {
        let msgs = take_vec(&mut state.view.messages);
        state.view.messages = apply_removals_vec(msgs, rems);
    }
    let ghost before = state@;
    match state.data.conversation_messages.remove(&cid) {
        Some(cache) => {
            let kept = apply_removals_vec(cache, rems);
            state.data.conversation_messages.insert(cid, kept);
            proof {
                assert(state@.data.conversation_messages =~= before.data.conversation_messages.insert(
                    cid, apply_removals(before.data.conversation_messages[cid], rems@)));
            }
        },
        None => {
            proof {
                assert(state@.data.conversation_messages =~= before.data.conversation_messages);
            }
        },
    }
}

/// Adds the fresh messages to the cache and, if `cid` is open, to the screen, both sorted;
/// drops the buffer of `cid` and, if open, marks it read.
fn add_fresh(state: &mut AppState, cid: u128, fresh: Vec<MessageDto>)
    ensures
        final(state)@ == add_fresh_app(old(state)@, cid, fresh@),
{
    let ghost a = old(state)@;
    let mut copy: Vec<MessageDto> = Vec::new();
    let mut i: usize = 0;
    while i < fresh.len()
        invariant
            i <= fresh.len(),
            copy@ == fresh@.take(i as int),
        decreases fresh.len() - i,
    {
        copy.push(fresh[i].duplicate());
        proof {
            assert(copy@ =~= fresh@.take(i + 1));
        }
        i = i + 1;
    }
    proof {
        assert(copy@ =~= fresh@);
    }
    match state.data.conversation_messages.remove(&cid) {
        Some(cache) => {
            let mut all = cache;
            let mut more = copy;
            all.append(&mut more);
            let sorted = sort_messages(all);
            state.data.conversation_messages.insert(cid, sorted);
        },
        None => {
            state.data.conversation_messages.insert(cid, copy);
        },
    }
    proof {
        assert(state@.data.conversation_messages =~= a.data.conversation_messages.insert(
            cid,
            if a.data.conversation_messages.contains_key(cid) {
                sort_msgs(a.data.conversation_messages[cid] + fresh@)
            } else {
                fresh@
            },
        ));
    }
    if state.view.cid == Some(cid) {
        let mut msgs = take_vec(&mut state.view.messages);
        let mut more = fresh;
        msgs.append(&mut more);
        state.view.messages = sort_messages(msgs);
    }
    let _ = state.buffers.message_reorder_buffer.remove(&cid);
    proof {
        assert(state@.buffers.messages =~= a.buffers.messages.remove(cid));
    }
    if state.view.cid == Some(cid) {
        mark_open_conversation_read(state);
    }
}

impl SequenceHandler {
    /// The server replayed the user events `events`: the replay is over, and each event is
    /// recorded and passed on for handling, then the open conversation is marked read.
    pub fn handle_user_events_resume(state: &mut AppState, events: Vec<UserEventData>)
        ensures
            final(state)@ == user_events_resume_app(old(state)@, events@),
    {
        let ghost a = old(state)@;
        let ghost evs = events@;
        state.seq.is_recovering_user_events = false;
        state.seq.pending_resume_requests = state.seq.pending_resume_requests.saturating_sub(1);
        let n = events.len();
        let add: u32 = if n > 4294967295usize { 4294967295u32 } else { n as u32 };
        state.seq.sequence_stats.events_recovered = state.seq.sequence_stats.events_recovered.saturating_add(add);
        let ghost a1 = state@;
        assert(a1 == AppView {
            seq: SeqModel {
                is_recovering_user_events: false,
                pending_resume_requests: dec_sat(a.seq.pending_resume_requests),
                stats: SequenceStats { events_recovered: add_sat(a.seq.stats.events_recovered, evs.len()), ..a.seq.stats },
                ..a.seq
            },
            ..a
        });
        let mut rest = events;
        let mut k: usize = 0;
        while rest.len() > 0
            invariant
                k + rest.len() == evs.len(),
                evs.len() <= usize::MAX,
                rest@ == evs.skip(k as int),
                state@ == replay_events_app(a1, evs.take(k as int)),
            decreases rest.len(),
        {
            let ev = rest.remove(0);
            proof {
                assert(evs.take(k + 1).drop_last() =~= evs.take(k as int));
                assert(evs.take(k + 1).last() == ev);
                assert(rest@ =~= evs.skip(k + 1));
            }
            let ghost before = state@;
            Self::update_user_sequence(state, ev.sequence);
            state.send_ui_event(UiEvent::UserNotification {
                sequence: ev.sequence,
                event_type: ev.event_type,
                event_data: ev.event_data,
                conversation_id: ev.conversation_id,
                recovery: true,
            });
            proof {
                assert(state@ == replay_event_app(before, ev));
            }
            k = k + 1;
        }
        proof {
            assert(evs.take(k as int) =~= evs);
        }
        mark_open_conversation_read(state);
    }

    /// The server replayed the messages `messages` of `conversation_id`: the replay is
    /// over; messages already known are skipped, the others replace their optimistic
    /// copies and are added, sorted, to the cache and to the screen.
    pub fn handle_messages_resume(state: &mut AppState, conversation_id: u128, messages: Vec<MessageDto>)
        ensures
            final(state)@ == messages_resume_app(old(state)@, conversation_id, messages@),
    {
        let ghost a = old(state)@;
        state.seq.is_recovering_messages.insert(conversation_id, false);
        state.seq.pending_resume_requests = state.seq.pending_resume_requests.saturating_sub(1);
        proof {
            assert(state@.seq.is_recovering_messages =~= a.seq.is_recovering_messages.insert(conversation_id, false));
        }
        if let Some(m) = max_sequence(&messages) {
            Self::update_conversation_sequence(state, conversation_id, m);
        }
        let (fresh, rems, keys) = classify_replay(state, conversation_id, messages);
        drop_replaced(state, conversation_id, &rems, &keys);
        if fresh.len() == 0 {
            return;
        }
        add_fresh(state, conversation_id, fresh);
    }
}

} // verus!
