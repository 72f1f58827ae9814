//! Outcomes of sent messages: confirmation by the server, failure, deletion.
use vstd::prelude::*;
use crate::cache::{
    cache_of, client_index, contains_id, find_client_message, find_message, has_id, msg_index, remove_client,
    remove_msg_id, retain_not_client, retain_not_id, sort_messages, sort_msgs, take_cache, take_vec,
};
use crate::helpers::{add_system_message, is_system_msg, push_system_app};
use crate::incoming::conv_seq_app;
use crate::model::{MessageDto, Outgoing};
use crate::sequence::SequenceHandler;
use crate::state::AppState;
use crate::view::{AppView, ChatModel, DataModel, PendingModel};

use crate::laws::{keys_distinct, lemma_remove_pending_distinct};

verus! {

/// The index of the first pending confirmation under client id `key` (the length when none).
pub open spec fn pending_index(p: Seq<(String, MessageDto)>, key: Seq<char>) -> int
    decreases p.len(),
{
    if p.len() == 0 || p[0].0@ == key {
        0
    } else {
        1 + pending_index(p.drop_first(), key)
    }
}

/// The pending confirmations without those under client id `key`.
pub open spec fn remove_pending(p: Seq<(String, MessageDto)>, key: Seq<char>) -> Seq<(String, MessageDto)>
    decreases p.len(),
{
    if p.len() == 0 {
        Seq::empty()
    } else if p.last().0@ == key {
        remove_pending(p.drop_last(), key)
    } else {
        remove_pending(p.drop_last(), key).push(p.last())
    }
}

pub(crate) proof fn lemma_pending_index(p: Seq<(String, MessageDto)>, key: Seq<char>, i: int)
    requires
        0 <= i <= p.len(),
        forall|j: int| 0 <= j < i ==> (#[trigger] p[j]).0@ != key,
        i == p.len() || p[i].0@ == key,
    ensures
        pending_index(p, key) == i,
    decreases p.len(),
{
    if p.len() > 0 && p[0].0@ != key {
        let t = p.drop_first();
        assert forall|j: int| 0 <= j < i - 1 implies (#[trigger] t[j]).0@ != key by {
            assert(t[j] == p[j + 1]);
        }
        if i < p.len() {
            assert(t[i - 1] == p[i]);
        }
        lemma_pending_index(t, key, i - 1);
    }
}

/// The index of the first pending confirmation under `key`, or the length.
pub fn find_pending(p: &Vec<(String, MessageDto)>, key: &String) -> (i: usize)
    ensures
        i == pending_index(p@, key@),
        i <= p.len(),
{
    let mut i: usize = 0;
    while i < p.len() && p[i].0 != *key
        invariant
            i <= p.len(),
            forall|j: int| 0 <= j < i ==> (#[trigger] p@[j]).0@ != key@,
        decreases p.len() - i,
    {
        i = i + 1;
    }
    proof {
        lemma_pending_index(p@, key@, i as int);
    }
    i
}

/// Drops the pending confirmations under client id `key`.
pub fn drop_pending(state: &mut AppState, key: &String)
    ensures
        final(state)@ == (AppView {
            pending: PendingModel {
                pending_confirmations: remove_pending(old(state)@.pending.pending_confirmations, key@),
                ..old(state)@.pending
            },
            ..old(state)@
        }),
        keys_distinct(old(state)@.pending.pending_confirmations) ==> keys_distinct(
            final(state)@.pending.pending_confirmations,
        ),
{
    proof {
        if keys_distinct(state@.pending.pending_confirmations) {
            lemma_remove_pending_distinct(state@.pending.pending_confirmations, key@);
        }
    }
    let p = take_vec(&mut state.pending.pending_confirmations);
    let mut out: Vec<(String, MessageDto)> = Vec::new();
    let mut i: usize = 0;
    while i < p.len()
        invariant
            i <= p.len(),
            out@ == remove_pending(p@.take(i as int), key@),
        decreases p.len() - i,
    {
        proof {
            assert(p@.take(i + 1).drop_last() =~= p@.take(i as int));
            assert(p@.take(i + 1).last() == p@[i as int]);
        }
        if p[i].0 != *key {
            let k = p[i].0.clone();
            let m = p[i].1.duplicate();
            out.push((k, m));
        }
        i = i + 1;
    }
    proof {
        assert(p@.take(p.len() as int) =~= p@);
    }
    state.pending.pending_confirmations = out;
}

/// `m` as the server confirmed it: its server id, its sequence, confirmed.
pub open spec fn confirmed_as(m: MessageDto, server_id: u128, sequence: Option<u64>) -> MessageDto {
    MessageDto { id: server_id, sequence_num: sequence, is_confirmed: Some(true), ..m }
}

/// `s` with the first message carrying client id `key` confirmed.
pub open spec fn confirm_in(s: Seq<MessageDto>, key: Seq<char>, server_id: u128, sequence: Option<u64>) -> Seq<MessageDto> {
    let i = client_index(s, key);
    if 0 <= i < s.len() { s.update(i, confirmed_as(s[i], server_id, sequence)) } else { s }
}

/// `s` with the first message of id `id` marked as not confirmed.
pub open spec fn mark_failed_in(s: Seq<MessageDto>, id: u128) -> Seq<MessageDto> {
    let i = msg_index(s, id);
    if 0 <= i < s.len() { s.update(i, MessageDto { is_confirmed: Some(false), ..s[i] }) } else { s }
}

/// The state after a confirmation for a message that already arrived through a resume:
/// the optimistic copies under client id `key` are dropped, and it no longer waits.
pub open spec fn confirmation_known_app(a: AppView, key: Seq<char>) -> AppView {
    AppView {
        view: ChatModel { messages: remove_client(a.view.messages, key), ..a.view },
        data: match a.view.cid {
            Some(cid) if a.data.conversation_messages.contains_key(cid) => DataModel {
                conversation_messages: a.data.conversation_messages.insert(
                    cid,
                    remove_client(a.data.conversation_messages[cid], key),
                ),
                ..a.data
            },
            _ => a.data,
        },
        pending: PendingModel {
            pending_confirmations: remove_pending(a.pending.pending_confirmations, key),
            ..a.pending
        },
        ..a
    }
}

/// The state after the pending message sent under client id `key`, in conversation `conv`,
/// is confirmed as `server_id` with `sequence`: on screen, then in the cache (sorted again
/// when a sequence came), then in the sequence system.
pub open spec fn confirmation_pending_app(a: AppView, key: Seq<char>, conv: u128, server_id: u128, sequence: Option<u64>) -> AppView {
    let a_p = AppView {
        pending: PendingModel {
            pending_confirmations: remove_pending(a.pending.pending_confirmations, key),
            ..a.pending
        },
        ..a
    };
    if client_index(a.view.messages, key) >= a.view.messages.len() {
        a_p
    } else {
        let a2 = AppView {
            view: ChatModel { messages: confirm_in(a.view.messages, key, server_id, sequence), ..a.view },
            ..a_p
        };
        let a3 = if a.data.conversation_messages.contains_key(conv) {
            let c = confirm_in(a.data.conversation_messages[conv], key, server_id, sequence);
            AppView {
                data: DataModel {
                    conversation_messages: a.data.conversation_messages.insert(
                        conv,
                        if sequence is Some { sort_msgs(c) } else { c },
                    ),
                    ..a.data
                },
                ..a2
            }
        } else {
            a2
        };
        match sequence {
            Some(s) => conv_seq_app(a3, conv, s),
            None => a3,
        }
    }
}

/// The state after the server confirms the message sent under client id `key` as
/// `server_id`, with sequence `sequence`; a confirmation for no known message changes nothing.
pub open spec fn confirmation_app(a: AppView, key: Seq<char>, server_id: u128, sequence: Option<u64>) -> AppView {
    let p = a.pending.pending_confirmations;
    if has_id(a.view.messages, server_id) {
        confirmation_known_app(a, key)
    } else if pending_index(p, key) < p.len() {
        confirmation_pending_app(a, key, p[pending_index(p, key)].1.conversation_id, server_id, sequence)
    } else {
        a
    }
}

/// The state after the message `id` failed to send: it is marked as not confirmed, on
/// screen and in its conversation's cache, and no longer waits for confirmation.
pub open spec fn send_failed_app(a: AppView, id: u128) -> AppView {
    let i = msg_index(a.view.messages, id);
    if i >= a.view.messages.len() || a.view.messages[i].conversation_id == 0 {
        a
    } else {
        let m = a.view.messages[i];
        let conv = m.conversation_id;
        let a1 = AppView {
            view: ChatModel { messages: mark_failed_in(a.view.messages, id), ..a.view },
            data: if a.data.conversation_messages.contains_key(conv) {
                DataModel {
                    conversation_messages: a.data.conversation_messages.insert(
                        conv,
                        mark_failed_in(a.data.conversation_messages[conv], id),
                    ),
                    ..a.data
                }
            } else {
                a.data
            },
            ..a
        };
        match m.client_msg_id {
            Some(k) => AppView {
                pending: PendingModel {
                    pending_confirmations: remove_pending(a.pending.pending_confirmations, k@),
                    ..a.pending
                },
                ..a1
            },
            None => a1,
        }
    }
}

/// The state after message `message_id` of `conversation_id` was deleted.
pub open spec fn deleted_app(a: AppView, message_id: u128, conversation_id: u128) -> AppView {
    AppView {
        view: if a.view.cid == Some(conversation_id) {
            ChatModel { messages: remove_msg_id(a.view.messages, message_id), ..a.view }
        } else {
            a.view
        },
        data: if a.data.conversation_messages.contains_key(conversation_id) {
            DataModel {
                conversation_messages: a.data.conversation_messages.insert(
                    conversation_id,
                    remove_msg_id(a.data.conversation_messages[conversation_id], message_id),
                ),
                ..a.data
            }
        } else {
            a.data
        },
        ..a
    }
}

/// Marks the first message of id `id` in `v` as not confirmed.
pub(crate) fn mark_failed(v: &mut Vec<MessageDto>, id: u128)
    ensures
        final(v)@ == mark_failed_in(old(v)@, id),
{
    let i = find_message(v, id);
    if i < v.len() {
        let mut m = v[i].duplicate();
        m.is_confirmed = Some(false);
        v.set(i, m);
    }
}

/// Confirms the first message carrying client id `key` in `v`.
fn confirm_client(v: &mut Vec<MessageDto>, key: &String, server_id: u128, sequence: Option<u64>)
    ensures
        final(v)@ == confirm_in(old(v)@, key@, server_id, sequence),
{
    let i = find_client_message(v, key);
    if i < v.len() {
        let mut m = v[i].duplicate();
        m.id = server_id;
        m.sequence_num = sequence;
        m.is_confirmed = Some(true);
        v.set(i, m);
    }
}

/// Drops the optimistic copies under client id `key`, which the server's own copy replaces.
fn drop_optimistic(state: &mut AppState, key: &String)
    ensures
        final(state)@ == confirmation_known_app(old(state)@, key@),
{
    let ghost a = old(state)@;
    let msgs = take_vec(&mut state.view.messages);
    state.view.messages = retain_not_client(msgs, key);
    drop_pending(state, key);
    if let Some(cid) = state.view.cid {
        match state.data.conversation_messages.remove(&cid) {
            Some(cache) => {
                let kept = retain_not_client(cache, key);
                state.data.conversation_messages.insert(cid, kept);
                proof {
                    assert(state@.data.conversation_messages =~= a.data.conversation_messages.insert(
                        cid, remove_client(a.data.conversation_messages[cid], key@)));
                }
            },
            None => {
                proof {
                    assert(state@.data.conversation_messages =~= a.data.conversation_messages);
                }
            },
        }
    }
}

/// Confirms the pending message sent under client id `key` in conversation `conversation_id`.
fn apply_confirmation(state: &mut AppState, key: &String, conversation_id: u128, server_msg_id: u128, sequence: Option<u64>)
    ensures
        final(state)@ == confirmation_pending_app(old(state)@, key@, conversation_id, server_msg_id, sequence),
{
    let ghost a = old(state)@;
    drop_pending(state, key);
    let ui = find_client_message(&state.view.messages, key);
    if ui >= state.view.messages.len() {
        return;
    }
    confirm_client(&mut state.view.messages, key, server_msg_id, sequence);
    match state.data.conversation_messages.remove(&conversation_id) {
        Some(mut cache) => {
            confirm_client(&mut cache, key, server_msg_id, sequence);
            let cache = if sequence.is_some() { sort_messages(cache) } else { cache };
            state.data.conversation_messages.insert(conversation_id, cache);
            proof {
                let c = confirm_in(a.data.conversation_messages[conversation_id], key@, server_msg_id, sequence);
                assert(state@.data.conversation_messages =~= a.data.conversation_messages.insert(
                    conversation_id, if sequence is Some { sort_msgs(c) } else { c }));
            }
        },
        None => {
            proof {
                assert(state@.data.conversation_messages =~= a.data.conversation_messages);
            }
        },
    }
    if let Some(seq) = sequence {
        SequenceHandler::update_conversation_sequence(state, conversation_id, seq);
    }
}

/// Handling of message outcomes.
pub struct MessageHandler;

impl MessageHandler {
    /// A message failed to send: marks it as not confirmed and stops waiting for it.
    pub fn handle_message_send_failed(state: &mut AppState, msg_id: u128)
        ensures
            final(state)@ == send_failed_app(old(state)@, msg_id),
    {
        let i = find_message(&state.view.messages, msg_id);
        if i >= state.view.messages.len() {
            return;
        }
        let conversation_id = state.view.messages[i].conversation_id;
        if conversation_id == 0 {
            return;
        }
        let client = crate::model::clone_opt_string(&state.view.messages[i].client_msg_id);
        mark_failed(&mut state.view.messages, msg_id);
        match state.data.conversation_messages.remove(&conversation_id) {
            Some(mut cache) => {
                mark_failed(&mut cache, msg_id);
                state.data.conversation_messages.insert(conversation_id, cache);
                proof {
                    assert(state@.data.conversation_messages =~= old(state)@.data.conversation_messages.insert(
                        conversation_id, mark_failed_in(old(state)@.data.conversation_messages[conversation_id], msg_id)));
                }
            },
            None => {
                proof {
                    assert(state@.data.conversation_messages =~= old(state)@.data.conversation_messages);
                }
            },
        }
        if let Some(k) = client {
            drop_pending(state, &k);
        }
    }

    /// The server confirmed the message sent under `client_msg_id` as `server_msg_id`.
    pub fn handle_message_confirmation(
        state: &mut AppState,
        client_msg_id: String,
        server_msg_id: u128,
        sequence: Option<u64>,
        status: String,
    )
        ensures
            final(state)@ == confirmation_app(old(state)@, client_msg_id@, server_msg_id, sequence),
    {
        if contains_id(&state.view.messages, server_msg_id) {
            drop_optimistic(state, &client_msg_id);
            return;
        }
        let pi = find_pending(&state.pending.pending_confirmations, &client_msg_id);
        if pi >= state.pending.pending_confirmations.len() {
            return;
        }
        let conversation_id = state.pending.pending_confirmations[pi].1.conversation_id;
        apply_confirmation(state, &client_msg_id, conversation_id, server_msg_id, sequence);
    }

    /// Asks the server, directly over the WebSocket, for the messages of `conversation_id`,
    /// and says so in the open conversation; without a WebSocket nothing happens.
    pub fn request_conversation_messages(state: &mut AppState, conversation_id: u128) -> (request: Option<u128>)
        ensures
            request == (if old(state)@.ws.has_ws_control { Some(conversation_id) } else { None }),
            !old(state)@.ws.has_ws_control ==> final(state)@ == old(state)@,
            old(state)@.ws.has_ws_control ==> exists|sys: MessageDto|
                is_system_msg(sys, "Caricamento messaggi..."@, 0) && final(state)@ == push_system_app(old(state)@, sys),
    {
        if state.ws.has_ws_control {
            add_system_message(state, String::from_str("Caricamento messaggi..."));
            Some(conversation_id)
        } else {
            None
        }
    }

    /// Message `message_id` of `conversation_id` was deleted: removes it from the screen
    /// and from the cache.
    pub fn handle_message_deleted(state: &mut AppState, message_id: u128, conversation_id: u128)
        ensures
            final(state)@ == deleted_app(old(state)@, message_id, conversation_id),
    {
        if state.view.cid == Some(conversation_id) {
            let msgs = take_vec(&mut state.view.messages);
            state.view.messages = retain_not_id(msgs, message_id);
        }
        match state.data.conversation_messages.remove(&conversation_id) {
            Some(cache) => {
                let kept = retain_not_id(cache, message_id);
                state.data.conversation_messages.insert(conversation_id, kept);
                proof {
                    assert(state@.data.conversation_messages =~= old(state)@.data.conversation_messages.insert(
                        conversation_id, remove_msg_id(old(state)@.data.conversation_messages[conversation_id], message_id)));
                }
            },
            None => {
                proof {
                    assert(state@.data.conversation_messages =~= old(state)@.data.conversation_messages);
                }
            },
        }
    }
}

} // verus!
