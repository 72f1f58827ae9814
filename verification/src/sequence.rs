//! The dual sequence system: gap detection on the user event stream and on the
//! message stream of each conversation, and the resume requests that repair gaps.
use vstd::prelude::*;
use crate::model::{GapInfo, Outgoing, UiEvent, UserEventData};
use crate::state::{
    get_seq, inc32, inc64, incr32, incr64, seq_or_zero, AppState, SequenceStats, OUTGOING_CAPACITY,
};
use crate::view::{AppView, BuffersModel, SeqModel};

verus! {

/// How many events may be missing from the user stream before a resume is requested at once.
pub const USER_GAP_RESUME_THRESHOLD: u64 = 3;

/// How many messages may be missing from a conversation before a resume is requested at once.
pub const MESSAGES_GAP_RESUME_THRESHOLD: u64 = 5;

/// How many events or messages a resume request asks for.
pub const RESUME_LIMIT: i64 = 100;

/// The request queue after trying to add `o`: the queue is bounded, and a full queue drops it.
pub open spec fn enqueue(q: Seq<Outgoing>, o: Outgoing) -> Seq<Outgoing> {
    if q.len() < OUTGOING_CAPACITY { q.push(o) } else { q }
}

/// Whether a messages resume is under way for `cid`.
pub open spec fn recovering_messages(m: SeqModel, cid: u128) -> bool {
    m.is_recovering_messages.contains_key(cid) && m.is_recovering_messages[cid]
}

/// Asking the server to replay the user events from `from`, unless a replay is under way.
pub open spec fn user_resume_step(m: SeqModel, q: Seq<Outgoing>, from: u64) -> (SeqModel, Seq<Outgoing>) {
    if m.is_recovering_user_events {
        (m, q)
    } else {
        (
            SeqModel { is_recovering_user_events: true, pending_resume_requests: inc32(m.pending_resume_requests), ..m },
            enqueue(q, Outgoing::RequestUserResume { from_sequence: from, limit: RESUME_LIMIT }),
        )
    }
}

/// Asking the server to replay the messages of `cid` from `from`, unless a replay is under way.
pub open spec fn messages_resume_step(m: SeqModel, q: Seq<Outgoing>, cid: u128, from: u64) -> (SeqModel, Seq<Outgoing>) {
    if recovering_messages(m, cid) {
        (m, q)
    } else {
        (
            SeqModel {
                is_recovering_messages: m.is_recovering_messages.insert(cid, true),
                pending_resume_requests: inc32(m.pending_resume_requests),
                ..m
            },
            enqueue(q, Outgoing::RequestMessagesResume { conversation_id: cid, from_sequence: from, limit: RESUME_LIMIT }),
        )
    }
}

/// Whether `sequence` leaves a gap after `current`: some sequences in between were not seen.
pub open spec fn is_gap(current: u64, sequence: u64) -> bool {
    sequence > current + 1
}

/// The number of sequences missing between `current` and `sequence`.
pub open spec fn gap_size(current: u64, sequence: u64) -> int {
    sequence - current - 1
}

/// One user event with sequence `seq` arrives.
pub open spec fn user_seq_step(m: SeqModel, q: Seq<Outgoing>, seq: u64) -> (SeqModel, Seq<Outgoing>) {
    let cur = m.user_sequence_received;
    let gap = is_gap(cur, seq);
    let m1 = if gap {
        SeqModel { stats: SequenceStats { gaps_detected: inc32(m.stats.gaps_detected), ..m.stats }, ..m }
    } else {
        m
    };
    let r2 = if gap && gap_size(cur, seq) >= USER_GAP_RESUME_THRESHOLD {
        user_resume_step(m1, q, cur)
    } else {
        (m1, q)
    };
    let m2 = r2.0;
    let m3 = if seq > m2.user_sequence_received {
        SeqModel {
            user_sequence_received: seq,
            stats: SequenceStats { total_events_received: inc64(m2.stats.total_events_received), ..m2.stats },
            ..m2
        }
    } else {
        m2
    };
    let m4 = if seq == m3.user_sequence_confirmed + 1 {
        SeqModel { user_sequence_confirmed: seq, ..m3 }
    } else {
        m3
    };
    (m4, r2.1)
}

/// One message with sequence `seq` arrives in conversation `cid`.
pub open spec fn conv_seq_step(m: SeqModel, q: Seq<Outgoing>, cid: u128, seq: u64) -> (SeqModel, Seq<Outgoing>) {
    let cur = seq_or_zero(m.conversation_sequences, cid);
    let gap = is_gap(cur, seq);
    let m1 = if gap {
        SeqModel { stats: SequenceStats { gaps_detected: inc32(m.stats.gaps_detected), ..m.stats }, ..m }
    } else {
        m
    };
    let r2 = if gap && gap_size(cur, seq) >= MESSAGES_GAP_RESUME_THRESHOLD {
        messages_resume_step(m1, q, cid, cur)
    } else {
        (m1, q)
    };
    let m2 = r2.0;
    let m3 = if seq > cur {
        SeqModel { conversation_sequences: m2.conversation_sequences.insert(cid, seq), ..m2 }
    } else {
        m2
    };
    let conf = seq_or_zero(m3.conversation_sequences_confirmed, cid);
    let m4 = if seq == conf + 1 {
        SeqModel { conversation_sequences_confirmed: m3.conversation_sequences_confirmed.insert(cid, seq), ..m3 }
    } else {
        m3
    };
    (m4, r2.1)
}

/// The sequence state after a reset: no recovery under way, counters at zero, buffers
/// emptied elsewhere; the sequences themselves are kept.
pub open spec fn reset_model(m: SeqModel) -> SeqModel {
    SeqModel {
        is_recovering_user_events: false,
        is_recovering_messages: Map::empty(),
        pending_resume_requests: 0,
        stats: SequenceStats::zero(),
        ..m
    }
}

/// The confirmed user sequence never passes the received one.
pub open spec fn user_order_ok(m: SeqModel) -> bool {
    m.user_sequence_confirmed <= m.user_sequence_received
}

/// In every conversation, the confirmed sequence never passes the received one.
pub open spec fn conv_order_ok(m: SeqModel) -> bool {
    forall|cid: u128|
        seq_or_zero(#[trigger] m.conversation_sequences_confirmed, cid) <= seq_or_zero(m.conversation_sequences, cid)
}

/// Law: a user event keeps the confirmed sequence at or below the received one; the
/// received sequence becomes the larger of the old one and the event's; neither decreases.
pub proof fn lemma_user_step_order(m: SeqModel, q: Seq<Outgoing>, seq: u64)
    requires
        user_order_ok(m),
    ensures
        user_order_ok(user_seq_step(m, q, seq).0),
        user_seq_step(m, q, seq).0.user_sequence_received == (if seq > m.user_sequence_received { seq } else { m.user_sequence_received }),
        user_seq_step(m, q, seq).0.user_sequence_confirmed >= m.user_sequence_confirmed,
{
}

/// Law: while a user events resume is under way, no further one is requested, and the
/// request queue is left alone.
pub proof fn lemma_user_step_no_second_resume(m: SeqModel, q: Seq<Outgoing>, seq: u64)
    requires
        m.is_recovering_user_events,
    ensures
        user_seq_step(m, q, seq).1 == q,
        user_seq_step(m, q, seq).0.pending_resume_requests == m.pending_resume_requests,
{
}

/// Law: a user event that leaves a gap of at least the threshold, while no resume is
/// under way, queues a resume from the last received sequence (when the queue has room).
pub proof fn lemma_user_step_large_gap_resumes(m: SeqModel, q: Seq<Outgoing>, seq: u64)
    requires
        !m.is_recovering_user_events,
        is_gap(m.user_sequence_received, seq),
        gap_size(m.user_sequence_received, seq) >= USER_GAP_RESUME_THRESHOLD,
        q.len() < OUTGOING_CAPACITY,
    ensures
        user_seq_step(m, q, seq).1 == q.push(Outgoing::RequestUserResume { from_sequence: m.user_sequence_received, limit: RESUME_LIMIT }),
        user_seq_step(m, q, seq).0.is_recovering_user_events,
{
}

/// Law: an event that arrives in order, with nothing missing before it, is both received
/// and confirmed, and no gap is counted.
pub proof fn lemma_user_step_in_order(m: SeqModel, q: Seq<Outgoing>, seq: u64)
    requires
        m.user_sequence_confirmed == m.user_sequence_received,
        seq == m.user_sequence_received + 1,
    ensures
        user_seq_step(m, q, seq).0.user_sequence_confirmed == seq,
        user_seq_step(m, q, seq).0.user_sequence_received == seq,
        user_seq_step(m, q, seq).0.stats.gaps_detected == m.stats.gaps_detected,
        user_seq_step(m, q, seq).1 == q,
{
}

/// Law: a conversation message with sequence `seq` confirms `seq` exactly when it comes
/// right after the confirmed sequence of its conversation, and otherwise leaves the
/// confirmed sequence as it was, whatever was received before; the received sequence
/// becomes the larger of the old one and `seq`.
pub proof fn lemma_conv_step_confirms(m: SeqModel, q: Seq<Outgoing>, cid: u128, seq: u64)
    ensures
        ({
            let old_conf = seq_or_zero(m.conversation_sequences_confirmed, cid);
            let new_conf = seq_or_zero(conv_seq_step(m, q, cid, seq).0.conversation_sequences_confirmed, cid);
            &&& seq == old_conf + 1 ==> new_conf == seq
            &&& seq != old_conf + 1 ==> new_conf == old_conf
        }),
        seq_or_zero(conv_seq_step(m, q, cid, seq).0.conversation_sequences, cid) == (if seq > seq_or_zero(
            m.conversation_sequences,
            cid,
        ) {
            seq
        } else {
            seq_or_zero(m.conversation_sequences, cid)
        }),
{
}

/// Law: a conversation message keeps, in every conversation, the confirmed sequence at
/// or below the received one, and touches the sequences of no other conversation.
pub proof fn lemma_conv_step_order(m: SeqModel, q: Seq<Outgoing>, cid: u128, seq: u64)
    requires
        conv_order_ok(m),
    ensures
        conv_order_ok(conv_seq_step(m, q, cid, seq).0),
        forall|other: u128| other != cid ==> {
            &&& seq_or_zero(#[trigger] conv_seq_step(m, q, cid, seq).0.conversation_sequences, other)
                == seq_or_zero(m.conversation_sequences, other)
            &&& seq_or_zero(conv_seq_step(m, q, cid, seq).0.conversation_sequences_confirmed, other)
                == seq_or_zero(m.conversation_sequences_confirmed, other)
        },
        seq_or_zero(conv_seq_step(m, q, cid, seq).0.conversation_sequences, cid) >= seq_or_zero(m.conversation_sequences, cid),
{
    let r = conv_seq_step(m, q, cid, seq).0;
    assert forall|c: u128| seq_or_zero(#[trigger] r.conversation_sequences_confirmed, c) <= seq_or_zero(r.conversation_sequences, c) by {
        assert(seq_or_zero(m.conversation_sequences_confirmed, c) <= seq_or_zero(m.conversation_sequences, c));
    }
}

/// The state after a reset of the sequence system: `reset_model`, with both reorder
/// buffers emptied.
pub open spec fn reset_app(a: AppView) -> AppView {
    AppView {
        seq: reset_model(a.seq),
        buffers: BuffersModel { messages: Map::empty(), user_events: Map::empty() },
        ..a
    }
}

/// Entry points of the dual sequence system.
pub struct SequenceHandler;

impl SequenceHandler {
    /// Sets the user sequence from the server's initial state.
    pub fn set_initial_user_sequence(state: &mut AppState, sequence: u64)
        ensures
            final(state).seq@ == (SeqModel {
                user_sequence_confirmed: sequence,
                user_sequence_received: sequence,
                ..old(state).seq@
            }),
            *final(state) == (AppState { seq: final(state).seq, ..*old(state) }),
    {
        state.seq.user_sequence_confirmed = sequence;
        state.seq.user_sequence_received = sequence;
    }

    /// Asks the server to replay the user events from `from_sequence`, unless a replay
    /// is already under way.
    pub fn request_user_events_resume(state: &mut AppState, from_sequence: u64)
        ensures
            (final(state).seq@, final(state).outgoing@)
                == user_resume_step(old(state).seq@, old(state).outgoing@, from_sequence),
            *final(state) == (AppState { seq: final(state).seq, outgoing: final(state).outgoing, ..*old(state) }),
    {
        if state.seq.is_recovering_user_events {
            return;
        }
        state.seq.is_recovering_user_events = true;
        state.seq.pending_resume_requests = incr32(state.seq.pending_resume_requests);
        let _ = state.try_send_outgoing(
            Outgoing::RequestUserResume { from_sequence, limit: RESUME_LIMIT },
        );
    }

    /// Asks the server to replay the messages of `conversation_id` from `from_sequence`,
    /// unless a replay for that conversation is already under way.
    pub fn request_messages_resume(state: &mut AppState, conversation_id: u128, from_sequence: u64)
        ensures
            (final(state).seq@, final(state).outgoing@)
                == messages_resume_step(old(state).seq@, old(state).outgoing@, conversation_id, from_sequence),
            *final(state) == (AppState { seq: final(state).seq, outgoing: final(state).outgoing, ..*old(state) }),
    {
        let recovering = match state.seq.is_recovering_messages.get(&conversation_id) {
            Some(b) => *b,
            None => false,
        };
        if recovering {
            return;
        }
        state.seq.is_recovering_messages.insert(conversation_id, true);
        state.seq.pending_resume_requests = incr32(state.seq.pending_resume_requests);
        let _ = state.try_send_outgoing(
            Outgoing::RequestMessagesResume { conversation_id, from_sequence, limit: RESUME_LIMIT },
        );
        proof {
            assert(final(state).seq@.is_recovering_messages =~= old(state).seq@.is_recovering_messages.insert(conversation_id, true));
        }
    }

    /// Records a user event with sequence `sequence`: detects a gap, requests a resume for
    /// a large one, and advances the received and confirmed sequences.
    pub fn update_user_sequence(state: &mut AppState, sequence: u64)
        ensures
            (final(state).seq@, final(state).outgoing@) == user_seq_step(old(state).seq@, old(state).outgoing@, sequence),
            *final(state) == (AppState { seq: final(state).seq, outgoing: final(state).outgoing, ..*old(state) }),
    {
        let current = state.seq.user_sequence_received;
        if sequence > current && sequence - current > 1 {
            let gap_size = sequence - current - 1;
            state.seq.sequence_stats.gaps_detected = incr32(state.seq.sequence_stats.gaps_detected);
            if gap_size >= USER_GAP_RESUME_THRESHOLD {
                Self::request_user_events_resume(state, current);
            }
        }
        if sequence > state.seq.user_sequence_received {
            state.seq.user_sequence_received = sequence;
            state.seq.sequence_stats.total_events_received = incr64(state.seq.sequence_stats.total_events_received);
        }
        if state.seq.user_sequence_confirmed < u64::MAX && sequence == state.seq.user_sequence_confirmed + 1 {
            state.seq.user_sequence_confirmed = sequence;
        }
    }

    /// Records a message with sequence `sequence` in `conversation_id`: detects a gap,
    /// requests a resume for a large one, and advances the conversation's sequences.
    pub fn update_conversation_sequence(state: &mut AppState, conversation_id: u128, sequence: u64)
        ensures
            (final(state).seq@, final(state).outgoing@)
                == conv_seq_step(old(state).seq@, old(state).outgoing@, conversation_id, sequence),
            *final(state) == (AppState { seq: final(state).seq, outgoing: final(state).outgoing, ..*old(state) }),
    {
        let current = get_seq(&state.seq.conversation_sequences, conversation_id);
        if sequence > current && sequence - current > 1 {
            let gap_size = sequence - current - 1;
            state.seq.sequence_stats.gaps_detected = incr32(state.seq.sequence_stats.gaps_detected);
            if gap_size >= MESSAGES_GAP_RESUME_THRESHOLD {
                Self::request_messages_resume(state, conversation_id, current);
            }
        }
        let ghost mid = state.seq@;
        if sequence > current {
            state.seq.conversation_sequences.insert(conversation_id, sequence);
        }
        let ghost mid2 = state.seq@;
        let confirmed = get_seq(&state.seq.conversation_sequences_confirmed, conversation_id);
        if confirmed < u64::MAX && sequence == confirmed + 1 {
            state.seq.conversation_sequences_confirmed.insert(conversation_id, sequence);
        }
        proof {
            if sequence > current {
                assert(mid2 == (SeqModel { conversation_sequences: mid.conversation_sequences.insert(conversation_id, sequence), ..mid }));
            } else {
                assert(mid2 == mid);
            }
        }
    }

    /// Handles the server's pong: counts it, clears the missed pings, and asks for a
    /// resume when the server reports a gap in the user events.
    pub fn handle_pong(
        state: &mut AppState,
        current_user_sequence: u64,
        gaps_detected: bool,
        user_events_gap: Option<GapInfo>,
    )
        ensures
            ({
                let m1 = SeqModel {
                    stats: SequenceStats { pong_count: inc32(old(state).seq@.stats.pong_count), ..old(state).seq@.stats },
                    missed_pings: 0,
                    ..old(state).seq@
                };
                match user_events_gap {
                    Some(g) if g.detected => {
                        let m2 = SeqModel { stats: SequenceStats { gaps_detected: inc32(m1.stats.gaps_detected), ..m1.stats }, ..m1 };
                        (final(state).seq@, final(state).outgoing@) == user_resume_step(m2, old(state).outgoing@, g.client_seq)
                    },
                    _ => final(state).seq@ == m1 && final(state).outgoing@ == old(state).outgoing@,
                }
            }),
            *final(state) == (AppState { seq: final(state).seq, outgoing: final(state).outgoing, ..*old(state) }),
    {
        state.seq.sequence_stats.pong_count = incr32(state.seq.sequence_stats.pong_count);
        state.seq.missed_pings = 0;
        if let Some(gap) = user_events_gap {
            if gap.detected {
                state.seq.sequence_stats.gaps_detected = incr32(state.seq.sequence_stats.gaps_detected);
                Self::request_user_events_resume(state, gap.client_seq);
            }
        }
    }

    /// Resets the recovery state and the counters, and empties both reorder buffers;
    /// the sequences themselves are kept.
    pub fn reset_sequence_system(state: &mut AppState)
        ensures
            final(state)@ == reset_app(old(state)@),
    {
        state.seq.is_recovering_user_events = false;
        state.seq.is_recovering_messages.clear();
        state.seq.pending_resume_requests = 0;
        state.seq.sequence_stats = SequenceStats::new();
        state.buffers.message_reorder_buffer.clear();
        state.buffers.user_event_reorder_buffer.clear();
        proof {
            assert(state.seq@.is_recovering_messages =~= Map::empty());
            assert(state@.buffers.messages =~= Map::empty());
            assert(state@.buffers.user_events =~= Map::empty());
        }
    }

    /// On a WebSocket disconnection: the same reset, keeping the sequences for the next session.
    pub fn reset_sequence_on_disconnect(state: &mut AppState)
        ensures
            final(state)@ == reset_app(old(state)@),
    {
        Self::reset_sequence_system(state);
    }

    /// A manual ping: counts it and, when the WebSocket is up, gives the ping to send
    /// directly on it (bypassing the rate limiter), carrying the confirmed user sequence.
    pub fn send_ping(state: &mut AppState) -> (ping: Option<Outgoing>)
        ensures
            final(state).seq@ == (SeqModel {
                stats: SequenceStats { ping_count: inc32(old(state).seq@.stats.ping_count), ..old(state).seq@.stats },
                ..old(state).seq@
            }),
            ping == (if old(state).ws.has_ws_control {
                Some(Outgoing::Ping { user_sequence: Some(old(state).seq.user_sequence_confirmed) })
            } else {
                None
            }),
            *final(state) == (AppState { seq: final(state).seq, ..*old(state) }),
    {
        let user_seq = state.seq.user_sequence_confirmed;
        state.seq.sequence_stats.ping_count = incr32(state.seq.sequence_stats.ping_count);
        if state.ws.has_ws_control {
            Some(Outgoing::Ping { user_sequence: Some(user_seq) })
        } else {
            None
        }
    }
}

} // verus!
