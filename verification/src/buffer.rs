//! Reorder buffers: messages and user events that arrive ahead of their sequence wait
//! here until the ones before them have arrived.
use std::collections::BTreeMap;
use vstd::prelude::*;
use crate::model::{MessageDto, NotificationData};
use crate::state::{get_seq, seq_or_zero, AppState};
use crate::view::{AppView, BuffersModel};

verus! {

/// The messages buffered for `cid`, by sequence.
pub open spec fn msg_buffer(bufs: Map<u128, BTreeMap<u64, MessageDto>>, cid: u128) -> Map<u64, MessageDto> {
    if bufs.contains_key(cid) { bufs[cid]@ } else { Map::empty() }
}

/// The buffers of all conversations, with that of `cid` replaced by `b` (dropped when empty).
pub open spec fn set_buf(m: Map<u128, Map<u64, MessageDto>>, cid: u128, b: Map<u64, MessageDto>) -> Map<u128, Map<u64, MessageDto>> {
    if b.is_empty() { m.remove(cid) } else { m.insert(cid, b) }
}

/// The buffer of `cid` in a view of the buffers (empty when there is none).
pub open spec fn mbuf(m: Map<u128, Map<u64, MessageDto>>, cid: u128) -> Map<u64, MessageDto> {
    if m.contains_key(cid) { m[cid] } else { Map::empty() }
}

/// The state after keeping `msg` for later, if it arrived ahead of its turn.
pub open spec fn buffer_msg_app(a: AppView, msg: MessageDto) -> AppView {
    let cid = msg.conversation_id;
    let expected = seq_or_zero(a.seq.conversation_sequences_confirmed, cid) + 1;
    match msg.sequence_num {
        Some(s) if s > expected => AppView {
            buffers: BuffersModel {
                messages: a.buffers.messages.insert(cid, mbuf(a.buffers.messages, cid).insert(s, msg)),
                ..a.buffers
            },
            ..a
        },
        _ => a,
    }
}

/// How many consecutive sequences, from `start` on, the buffer holds.
pub open spec fn run_len<V>(b: Map<u64, V>, start: int) -> nat
    decreases u64::MAX + 1 - start,
{
    if 0 <= start <= u64::MAX && b.contains_key(start as u64) {
        1 + run_len(b, start + 1)
    } else {
        0
    }
}

/// The buffered entries of the run that starts at `start`, in order.
pub open spec fn run<V>(b: Map<u64, V>, start: int) -> Seq<V> {
    Seq::new(run_len(b, start), |i: int| b[(start + i) as u64])
}

/// The buffer without the run that starts at `start`.
pub open spec fn without_run<V>(b: Map<u64, V>, start: int) -> Map<u64, V> {
    b.remove_keys(Set::new(|k: u64| start <= k < start + run_len(b, start)))
}

/// The user events of a run, flattened in order.
pub open spec fn flatten_run(b: Map<u64, Seq<NotificationData>>, start: int) -> Seq<NotificationData>
    decreases u64::MAX + 1 - start,
{
    if 0 <= start <= u64::MAX && b.contains_key(start as u64) {
        b[start as u64] + flatten_run(b, start + 1)
    } else {
        Seq::empty()
    }
}

proof fn lemma_run_len_step<V>(b: Map<u64, V>, start: int)
    requires
        0 <= start <= u64::MAX,
        b.contains_key(start as u64),
    ensures
        run_len(b, start) == 1 + run_len(b, start + 1),
{
}

/// Handling of the reorder buffers.
pub struct BufferHandler;

impl BufferHandler {
    /// Takes out of the buffer of `conversation_id` the messages that now come in order:
    /// those whose sequences follow the confirmed one without interruption.
    pub fn try_deliver_buffered_messages(state: &mut AppState, conversation_id: u128) -> (delivered: Vec<MessageDto>)
        ensures
            ({
                let a = old(state)@;
                let b = mbuf(a.buffers.messages, conversation_id);
                let start = seq_or_zero(a.seq.conversation_sequences_confirmed, conversation_id) + 1;
                &&& delivered@ == run(b, start)
                &&& final(state)@ == (AppView {
                    buffers: BuffersModel { messages: set_buf(a.buffers.messages, conversation_id, without_run(b, start)), ..a.buffers },
                    ..a
                })
            }),
    {
        let confirmed = get_seq(&state.seq.conversation_sequences_confirmed, conversation_id);
        Self::take_run_after(state, conversation_id, confirmed)
    }

    /// Takes out of the buffer of `conversation_id` the messages whose sequences follow
    /// `after` without interruption, in order.
    pub fn take_run_after(state: &mut AppState, conversation_id: u128, after: u64) -> (delivered: Vec<MessageDto>)
        ensures
            ({
                let a = old(state)@;
                let b = mbuf(a.buffers.messages, conversation_id);
                let start = after + 1;
                &&& delivered@ == run(b, start)
                &&& final(state)@ == (AppView {
                    buffers: BuffersModel { messages: set_buf(a.buffers.messages, conversation_id, without_run(b, start)), ..a.buffers },
                    ..a
                })
            }),
    {
        let ghost b = msg_buffer(state.buffers.message_reorder_buffer@, conversation_id);
        let ghost a = state@;
        assert(b == mbuf(a.buffers.messages, conversation_id));
        let confirmed = after;
        let ghost start = confirmed + 1;
        let mut delivered: Vec<MessageDto> = Vec::new();
        let taken = state.buffers.message_reorder_buffer.remove(&conversation_id);
        match taken {
            None => {
                proof {
                    assert(b == Map::<u64, MessageDto>::empty());
                    assert(run_len(b, start) == 0);
                    assert(delivered@ =~= run(b, start));
                    assert(without_run(b, start) =~= b);
                    assert(b.is_empty());
                    assert(state@.buffers.messages =~= set_buf(a.buffers.messages, conversation_id, without_run(b, start)));
                }
                delivered
            },
            Some(mut buffer) => {
                let mut next: u128 = confirmed as u128 + 1;
                loop
                    invariant
                        start <= next <= u64::MAX + 1,
                        buffer@ == b.remove_keys(Set::new(|k: u64| start <= k < next)),
                        forall|k: u64| start <= k < next ==> #[trigger] b.contains_key(k),
                        delivered@ == Seq::new((next - start) as nat, |i: int| b[(start + i) as u64]),
                        run_len(b, start) == (next - start) + run_len(b, next as int),
                    ensures
                        buffer@ == b.remove_keys(Set::new(|k: u64| start <= k < next)),
                        delivered@ == Seq::new((next - start) as nat, |i: int| b[(start + i) as u64]),
                        run_len(b, start) == next - start,
                    decreases u64::MAX + 1 - next,
                {
                    if next > u64::MAX as u128 {
                        break;
                    }
                    let key = next as u64;
                    match buffer.remove(&key) {
                        Some(msg) => {
                            proof {
                                lemma_run_len_step(b, next as int);
                            }
                            delivered.push(msg);
                            proof {
                                assert(buffer@ =~= b.remove_keys(Set::new(|k: u64| start <= k < next + 1)));
                                assert(delivered@ =~= Seq::new((next + 1 - start) as nat, |i: int| b[(start + i) as u64]));
                            }
                            next = next + 1;
                        },
                        None => {
                            proof {
                                assert(buffer@ =~= b.remove_keys(Set::new(|k: u64| start <= k < next)));
                            }
                            break;
                        },
                    }
                }
                proof {
                    assert(without_run(b, start) =~= buffer@);
                    assert(delivered@ =~= run(b, start));
                }
                let ghost rest = buffer@;
                if !buffer.is_empty() {
                    state.buffers.message_reorder_buffer.insert(conversation_id, buffer);
                    proof {
                        assert(state@.buffers.messages =~= a.buffers.messages.insert(conversation_id, rest));
                    }
                } else {
                    proof {
                        assert(state@.buffers.messages =~= a.buffers.messages.remove(conversation_id));
                    }
                }
                delivered
            },
        }
    }

    /// Keeps a message that arrived ahead of its turn (its sequence is beyond the one
    /// expected next) in the buffer of its conversation; any other message is left out.
    pub fn buffer_message_for_reorder(state: &mut AppState, msg: MessageDto)
        ensures
            final(state)@ == buffer_msg_app(old(state)@, msg),
    {
        if let Some(seq) = msg.sequence_num {
            let cid = msg.conversation_id;
            let confirmed = get_seq(&state.seq.conversation_sequences_confirmed, cid);
            if confirmed < u64::MAX && seq > confirmed + 1 {
                let mut inner = match state.buffers.message_reorder_buffer.remove(&cid) {
                    Some(b) => b,
                    None => BTreeMap::new(),
                };
                let ghost m = msg;
                inner.insert(seq, msg);
                let ghost ib = inner@;
                state.buffers.message_reorder_buffer.insert(cid, inner);
                proof {
                    assert(ib =~= mbuf(old(state)@.buffers.messages, cid).insert(seq, m));
                    assert(state@.buffers.messages =~= old(state)@.buffers.messages.insert(cid, ib));
                }
            }
        }
    }

    /// Keeps a user event that arrived ahead of its turn in the user event buffer,
    /// after any other event already kept under the same sequence.
    pub fn buffer_user_event_for_reorder(state: &mut AppState, seq: u64, event: NotificationData)
        ensures
            ({
                let a = old(state)@;
                let ev = a.buffers.user_events;
                final(state)@ == if seq > a.seq.user_sequence_confirmed + 1 {
                    AppView {
                        buffers: BuffersModel {
                            user_events: ev.insert(seq, (if ev.contains_key(seq) { ev[seq] } else { Seq::empty() }).push(event)),
                            ..a.buffers
                        },
                        ..a
                    }
                } else {
                    a
                }
            }),
    {
        let confirmed = state.seq.user_sequence_confirmed;
        if confirmed < u64::MAX && seq > confirmed + 1 {
            let mut events = match state.buffers.user_event_reorder_buffer.remove(&seq) {
                Some(v) => v,
                None => Vec::new(),
            };
            let ghost e = event;
            events.push(event);
            let ghost es = events@;
            state.buffers.user_event_reorder_buffer.insert(seq, events);
            proof {
                let ev = old(state)@.buffers.user_events;
                assert(es =~= (if ev.contains_key(seq) { ev[seq] } else { Seq::empty() }).push(e));
                assert(state@.buffers.user_events =~= ev.insert(seq, es));
            }
        }
    }

    /// Takes out of the user event buffer the events that now come in order: those whose
    /// sequences follow the confirmed user sequence without interruption.
    pub fn try_deliver_buffered_user_events(state: &mut AppState) -> (delivered: Vec<NotificationData>)
        ensures
            ({
                let a = old(state)@;
                let start = a.seq.user_sequence_confirmed + 1;
                &&& delivered@ == flatten_run(a.buffers.user_events, start)
                &&& final(state)@ == (AppView {
                    buffers: BuffersModel { user_events: without_run(a.buffers.user_events, start), ..a.buffers },
                    ..a
                })
            }),
    {
        let ghost b = state@.buffers.user_events;
        let ghost start = state.seq.user_sequence_confirmed + 1;
        let mut delivered: Vec<NotificationData> = Vec::new();
        let mut next: u128 = state.seq.user_sequence_confirmed as u128 + 1;
        loop
            invariant
                start <= next <= u64::MAX + 1,
                state@.buffers.user_events == b.remove_keys(Set::new(|k: u64| start <= k < next)),
                forall|k: u64| start <= k < next ==> #[trigger] b.contains_key(k),
                delivered@ + flatten_run(b, next as int) == flatten_run(b, start),
                run_len(b, start) == (next - start) + run_len(b, next as int),
                state@ == (AppView { buffers: BuffersModel { user_events: state@.buffers.user_events, ..old(state)@.buffers }, ..old(state)@ }),
            ensures
                state@.buffers.user_events == b.remove_keys(Set::new(|k: u64| start <= k < next)),
                delivered@ == flatten_run(b, start),
                run_len(b, start) == next - start,
                state@ == (AppView { buffers: BuffersModel { user_events: state@.buffers.user_events, ..old(state)@.buffers }, ..old(state)@ }),
            decreases u64::MAX + 1 - next,
        {
            if next > u64::MAX as u128 {
                proof {
                    assert(delivered@ =~= delivered@ + flatten_run(b, next as int));
                }
                break;
            }
            let key = next as u64;
            let ghost before_map = state@.buffers.user_events;
            let ghost raw_before = state.buffers.user_event_reorder_buffer@;
            match state.buffers.user_event_reorder_buffer.remove(&key) {
                Some(events) => {
                    proof {
                        assert(raw_before.contains_key(key));
                        assert(before_map.contains_key(key));
                        assert(before_map[key] == raw_before[key]@);
                        assert(b.contains_key(key));
                        assert(events@ == b[key]);
                        lemma_run_len_step(b, next as int);
                        assert(flatten_run(b, next as int) == b[key] + flatten_run(b, next + 1));
                    }
                    let ghost before = delivered@;
                    let mut events = events;
                    delivered.append(&mut events);
                    proof {
                        assert(delivered@ == before + b[key]);
                        assert(before + flatten_run(b, next as int) == before + b[key] + flatten_run(b, next + 1)) by {
                            assert(before + (b[key] + flatten_run(b, next + 1)) =~= before + b[key] + flatten_run(b, next + 1));
                        }
                        assert(state@.buffers.user_events =~= before_map.remove(key));
                        assert(state@.buffers.user_events =~= b.remove_keys(Set::new(|k: u64| start <= k < next + 1)));
                    }
                    next = next + 1;
                },
                None => {
                    proof {
                        assert(!raw_before.contains_key(key));
                        assert(!before_map.contains_key(key));
                        assert(state@.buffers.user_events =~= before_map);
                        assert(!b.contains_key(key));
                        assert(delivered@ =~= delivered@ + flatten_run(b, next as int));
                    }
                    break;
                },
            }
        }
        proof {
            assert(without_run(b, start) =~= state@.buffers.user_events);
        }
        delivered
    }

    /// Takes the message with sequence `expected_seq` out of the buffer of
    /// `conversation_id`, if it is there; an emptied buffer is dropped.
    pub fn get_next_buffered_message(state: &mut AppState, conversation_id: u128, expected_seq: u64) -> (r: Option<MessageDto>)
        ensures
            ({
                let a = old(state)@;
                let b = mbuf(a.buffers.messages, conversation_id);
                &&& r == (if b.contains_key(expected_seq) { Some(b[expected_seq]) } else { None })
                &&& final(state)@ == if b.contains_key(expected_seq) {
                    AppView {
                        buffers: BuffersModel { messages: set_buf(a.buffers.messages, conversation_id, b.remove(expected_seq)), ..a.buffers },
                        ..a
                    }
                } else {
                    a
                }
            }),
    {
        let ghost a = state@;
        let ghost b = mbuf(a.buffers.messages, conversation_id);
        match state.buffers.message_reorder_buffer.remove(&conversation_id) {
            None => {
                proof {
                    assert(state@.buffers.messages =~= a.buffers.messages);
                }
                None
            },
            Some(mut inner) => {
                proof {
                    assert(inner@ == b);
                }
                let r = inner.remove(&expected_seq);
                match r {
                    Some(msg) => {
                        let ghost rest = inner@;
                        if !inner.is_empty() {
                            state.buffers.message_reorder_buffer.insert(conversation_id, inner);
                            proof {
                                assert(state@.buffers.messages =~= a.buffers.messages.insert(conversation_id, rest));
                            }
                        } else {
                            proof {
                                assert(state@.buffers.messages =~= a.buffers.messages.remove(conversation_id));
                            }
                        }
                        Some(msg)
                    },
                    None => {
                        let ghost same = inner@;
                        state.buffers.message_reorder_buffer.insert(conversation_id, inner);
                        proof {
                            assert(a.buffers.messages.contains_key(conversation_id));
                            assert(same =~= b);
                            assert(a.buffers.messages[conversation_id] == b);
                            assert(state@.buffers.messages =~= a.buffers.messages);
                        }
                        None
                    },
                }
            },
        }
    }
}

} // verus!
