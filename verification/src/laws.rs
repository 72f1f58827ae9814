//! Properties that hold across the library's operations.
use vstd::prelude::*;
use vstd::seq_lib::{to_multiset_build, to_multiset_insert, to_multiset_remove};
use crate::buffer::{run, run_len, without_run};
use crate::chat::{pending_set, sent_app};
use crate::messages::{confirmation_app, pending_index, remove_pending};
use crate::cache::{cache_of, has_id, insert_pos, lemma_insert_pos_bounds, lemma_stable_pos_bounds, msg_less, sort_msgs, sorted_insert, stable_pos};
use crate::connection::{failed_model, retry_delay_ms, ConnModel, MAX_CONSECUTIVE_FAILURES};
use crate::convlist::{dedup_convs, has_conv, lemma_dedup_ids, lemma_newer_pos_bounds, newer, newer_pos, newest_first};
use crate::helpers::{conv_index, moved_to_top};
use crate::model::{ConversationDto, MessageDto, NotificationData};
use crate::panels::{answers_search, search_results};
use crate::helpers::spec_valid_incoming;
use crate::incoming::{conv_listed, in_order_app, incoming_rel, reaches_in_order, cached, IncomingLits};
use crate::resume::{add_fresh_app, apply_removals, drop_replaced_app, fresh_msgs, known_before, messages_resume_app, remove_pair};
use crate::view::{AppView, BuffersModel};
use crate::conversations::{initial_state_app, seed_seqs};
use crate::notifications::{new_message_app, processed, with_conv_seq, notification_step, recovery_count_app, event_mark_read_app, user_notification_rel, seq_recorded_app, deliver_rel, all_buffered, delivery_trace};
use crate::buffer::flatten_run;
use crate::state::seq_or_zero;
use crate::checks::{has_name, set_insert, still_waiting};
use crate::forms::set_remove;
use crate::resume::remove_pending_all;
use crate::link::{inc_fail, link_step_spec, LinkAction, LinkEvent, LinkState, SendKind, MAX_LINK_FAILURES, PONG_TIMEOUT_MS};

verus! {

/// Sorting messages keeps exactly the messages it was given.
pub proof fn lemma_sort_msgs_permutation(s: Seq<MessageDto>)
    ensures
        sort_msgs(s).to_multiset() == s.to_multiset(),
    decreases s.len(),
{
    if s.len() > 0 {
        let p = s.drop_last();
        lemma_sort_msgs_permutation(p);
        let r = sort_msgs(p);
        lemma_stable_pos_bounds(r, s.last());
        assert(sort_msgs(s) == r.insert(stable_pos(r, s.last()), s.last()));
        to_multiset_insert(r, stable_pos(r, s.last()), s.last());
        assert(p.push(s.last()) =~= s);
        to_multiset_build(p, s.last());
        assert(sort_msgs(s).to_multiset() =~= s.to_multiset());
    } else {
        assert(sort_msgs(s) =~= s);
    }
}

proof fn lemma_newer_pos_spot(r: Seq<ConversationDto>, e: ConversationDto)
    ensures
        forall|j: int| 0 <= j < newer_pos(r, e) ==> !newer(e, #[trigger] r[j]),
        newer_pos(r, e) < r.len() ==> newer(e, r[newer_pos(r, e)]),
    decreases r.len(),
{
    lemma_newer_pos_bounds(r, e);
    if r.len() > 0 && !newer(e, r[0]) {
        let t = r.drop_first();
        lemma_newer_pos_spot(t, e);
        lemma_newer_pos_bounds(t, e);
        assert forall|j: int| 0 <= j < newer_pos(r, e) implies !newer(e, #[trigger] r[j]) by {
            if j > 0 {
                assert(r[j] == t[j - 1]);
            }
        }
        if newer_pos(r, e) < r.len() {
            assert(r[newer_pos(r, e)] == t[newer_pos(t, e)]);
        }
    }
}

/// Sorting the conversation list newest first keeps exactly its conversations, and
/// leaves no conversation before one created later.
pub proof fn lemma_newest_first(s: Seq<ConversationDto>)
    ensures
        newest_first(s).to_multiset() == s.to_multiset(),
        forall|i: int, j: int| 0 <= i < j < newest_first(s).len() ==>
            (#[trigger] newest_first(s)[i]).created_at >= (#[trigger] newest_first(s)[j]).created_at,
    decreases s.len(),
{
    if s.len() > 0 {
        let p = s.drop_last();
        let e = s.last();
        lemma_newest_first(p);
        let r = newest_first(p);
        let k = newer_pos(r, e);
        lemma_newer_pos_bounds(r, e);
        lemma_newer_pos_spot(r, e);
        let n = r.insert(k, e);
        assert(n == newest_first(s));
        to_multiset_insert(r, k, e);
        assert(p.push(e) =~= s);
        to_multiset_build(p, e);
        assert(newest_first(s).to_multiset() =~= s.to_multiset());
        assert forall|i: int, j: int| 0 <= i < j < n.len() implies (#[trigger] n[i]).created_at >= (#[trigger] n[j]).created_at by {
            if j < k {
                assert(n[i] == r[i] && n[j] == r[j]);
            } else if j == k {
                assert(n[j] == e);
                assert(n[i] == r[i]);
                assert(!newer(e, r[i]));
            } else if i == k {
                assert(n[i] == e);
                assert(n[j] == r[j - 1]);
                assert(newer(e, r[k]));
                if j - 1 > k {
                    assert(r[k].created_at >= r[j - 1].created_at);
                }
            } else if i < k {
                assert(n[i] == r[i]);
                assert(n[j] == r[j - 1]);
            } else {
                assert(n[i] == r[i - 1]);
                assert(n[j] == r[j - 1]);
            }
        }
    } else {
        assert(newest_first(s) =~= s);
    }
}

/// Moving a conversation to the top keeps exactly the list's conversations, and puts it
/// first when it is in the list.
pub proof fn lemma_moved_to_top(s: Seq<ConversationDto>, id: u128)
    ensures
        moved_to_top(s, id).to_multiset() == s.to_multiset(),
        has_conv(s, id) ==> moved_to_top(s, id)[0].id == id,
{
    let p = conv_index(s, id);
    crate::helpers::lemma_conv_index_spot(s, id);
    if 0 < p < s.len() {
        broadcast use vstd::multiset::group_multiset_axioms;
        to_multiset_remove(s, p);
        to_multiset_insert(s.remove(p), 0, s[p]);
        assert(s.contains(s[p]));
        vstd::seq_lib::to_multiset_contains(s, s[p]);
        assert(s.to_multiset().remove(s[p]).insert(s[p]) =~= s.to_multiset());
    }
}

/// After duplicates are dropped, no two conversations of the list share an id, and every
/// id of the list is still there.
pub proof fn lemma_dedup_unique(s: Seq<ConversationDto>)
    ensures
        forall|i: int, j: int| 0 <= i < j < dedup_convs(s).len() ==> (#[trigger] dedup_convs(s)[i]).id != (#[trigger] dedup_convs(s)[j]).id,
        forall|id: u128| has_conv(dedup_convs(s), id) == has_conv(s, id),
    decreases s.len(),
{
    lemma_dedup_ids(s);
    if s.len() > 0 {
        let p = s.drop_last();
        lemma_dedup_unique(p);
        lemma_dedup_ids(p);
        let d = dedup_convs(p);
        if !has_conv(p, s.last().id) {
            let n = d.push(s.last());
            assert forall|i: int, j: int| 0 <= i < j < n.len() implies (#[trigger] n[i]).id != (#[trigger] n[j]).id by {
                if j == d.len() {
                    assert(n[i] == d[i]);
                    if d[i].id == s.last().id {
                        assert(has_conv(d, s.last().id));
                    }
                } else {
                    assert(n[i] == d[i] && n[j] == d[j]);
                }
            }
        }
    }
}

/// Each search result answers the search, and a search never finds more conversations
/// than the list holds.
pub proof fn lemma_search_results(s: Seq<ConversationDto>, q: Seq<char>)
    ensures
        search_results(s, q).len() <= s.len(),
        forall|i: int| 0 <= i < search_results(s, q).len() ==> answers_search(#[trigger] search_results(s, q)[i], q),
    decreases s.len(),
{
    if s.len() > 0 {
        lemma_search_results(s.drop_last(), q);
        let r = search_results(s.drop_last(), q);
        if answers_search(s.last(), q) {
            assert forall|i: int| 0 <= i < r.push(s.last()).len() implies answers_search(#[trigger] r.push(s.last())[i], q) by {
                if i < r.len() {
                    assert(r.push(s.last())[i] == r[i]);
                }
            }
        }
    }
}

/// The wait before retrying never shrinks as failures accumulate.
pub proof fn lemma_backoff_grows(f: u32, g: u32)
    requires
        1 <= f <= g,
    ensures
        retry_delay_ms(f) <= retry_delay_ms(g),
{
}

/// From a clean state, five failures in a row are retried, with growing waits, and the
/// sixth logs the user out.
pub proof fn lemma_sixth_failure_logs_out(m: ConnModel)
    requires
        m.consecutive_failures == 0,
    ensures
        ({
            let r1 = failed_model(m);
            let r2 = failed_model(r1.0);
            let r3 = failed_model(r2.0);
            let r4 = failed_model(r3.0);
            let r5 = failed_model(r4.0);
            let r6 = failed_model(r5.0);
            &&& !r1.1 && !r2.1 && !r3.1 && !r4.1 && !r5.1 && r6.1
            &&& r1.0.next_retry_delay_ms == 1000 && r2.0.next_retry_delay_ms == 2000
            &&& r3.0.next_retry_delay_ms == 5000 && r4.0.next_retry_delay_ms == 10000
            &&& r5.0.next_retry_delay_ms == 15000
            &&& r6.0.consecutive_failures == MAX_CONSECUTIVE_FAILURES
        }),
{
}

/// Every message of `s` carries a sequence number.
pub open spec fn all_sequenced(s: Seq<MessageDto>) -> bool {
    forall|i: int| 0 <= i < s.len() ==> (#[trigger] s[i]).sequence_num is Some
}

/// The messages of `s` come in non-decreasing order of sequence number.
pub open spec fn sequence_ordered(s: Seq<MessageDto>) -> bool {
    forall|i: int, j: int| 0 <= i < j < s.len() ==>
        (#[trigger] s[i]).sequence_num.unwrap() <= (#[trigger] s[j]).sequence_num.unwrap()
}

proof fn lemma_insert_pos_spot(s: Seq<MessageDto>, m: MessageDto)
    ensures
        forall|j: int| 0 <= j < insert_pos(s, m) ==> msg_less(#[trigger] s[j], m),
        insert_pos(s, m) < s.len() ==> !msg_less(s[insert_pos(s, m)], m),
    decreases s.len(),
{
    lemma_insert_pos_bounds(s, m);
    if s.len() > 0 && msg_less(s[0], m) {
        let t = s.drop_first();
        lemma_insert_pos_spot(t, m);
        lemma_insert_pos_bounds(t, m);
        assert forall|j: int| 0 <= j < insert_pos(s, m) implies msg_less(#[trigger] s[j], m) by {
            if j > 0 {
                assert(s[j] == t[j - 1]);
            }
        }
        if insert_pos(s, m) < s.len() {
            assert(s[insert_pos(s, m)] == t[insert_pos(t, m)]);
        }
    }
}

/// Putting a message in its place adds exactly that message, and a list of sequenced
/// messages ordered by sequence stays ordered.
pub proof fn lemma_sorted_insert_ordered(s: Seq<MessageDto>, m: MessageDto)
    ensures
        sorted_insert(s, m).to_multiset() == s.to_multiset().insert(m),
        sorted_insert(s, m).len() == s.len() + 1,
        all_sequenced(s) && m.sequence_num is Some && sequence_ordered(s) ==> {
            &&& all_sequenced(sorted_insert(s, m))
            &&& sequence_ordered(sorted_insert(s, m))
        },
{
    let k = insert_pos(s, m);
    lemma_insert_pos_bounds(s, m);
    lemma_insert_pos_spot(s, m);
    to_multiset_insert(s, k, m);
    let n = s.insert(k, m);
    if all_sequenced(s) && m.sequence_num is Some && sequence_ordered(s) {
        assert forall|i: int| 0 <= i < n.len() implies (#[trigger] n[i]).sequence_num is Some by {
            if i < k {
                assert(n[i] == s[i]);
            } else if i > k {
                assert(n[i] == s[i - 1]);
            }
        }
        assert forall|i: int, j: int| 0 <= i < j < n.len() implies
            (#[trigger] n[i]).sequence_num.unwrap() <= (#[trigger] n[j]).sequence_num.unwrap() by {
            if j < k {
                assert(n[i] == s[i] && n[j] == s[j]);
            } else if j == k {
                assert(n[j] == m);
                assert(n[i] == s[i]);
                assert(msg_less(s[i], m));
            } else if i == k {
                assert(n[i] == m);
                assert(n[j] == s[j - 1]);
                assert(!msg_less(s[k], m));
                if j - 1 > k {
                    assert(s[k].sequence_num.unwrap() <= s[j - 1].sequence_num.unwrap());
                }
            } else if i < k {
                assert(n[i] == s[i]);
                assert(n[j] == s[j - 1]);
            } else {
                assert(n[i] == s[i - 1]);
                assert(n[j] == s[j - 1]);
            }
        }
    }
}

/// Whether a message waits for confirmation under client id `key` in `ps`.
pub open spec fn waiting(ps: Seq<(String, MessageDto)>, key: Seq<char>) -> bool {
    exists|i: int| 0 <= i < ps.len() && (#[trigger] ps[i]).0@ == key
}

proof fn lemma_pending_index_none(ps: Seq<(String, MessageDto)>, key: Seq<char>)
    ensures
        0 <= pending_index(ps, key) <= ps.len(),
        pending_index(ps, key) < ps.len() ==> ps[pending_index(ps, key)].0@ == key,
        pending_index(ps, key) == ps.len() ==> !waiting(ps, key),
    decreases ps.len(),
{
    if ps.len() > 0 && ps[0].0@ != key {
        let t = ps.drop_first();
        lemma_pending_index_none(t, key);
        if pending_index(ps, key) < ps.len() {
            assert(ps[pending_index(ps, key)] == t[pending_index(t, key)]);
        }
        if pending_index(ps, key) == ps.len() && waiting(ps, key) {
            let i = choose|i: int| 0 <= i < ps.len() && (#[trigger] ps[i]).0@ == key;
            assert(t[i - 1] == ps[i]);
        }
    }
}

proof fn lemma_remove_pending_none(ps: Seq<(String, MessageDto)>, key: Seq<char>)
    ensures
        !waiting(remove_pending(ps, key), key),
    decreases ps.len(),
{
    if ps.len() > 0 {
        lemma_remove_pending_none(ps.drop_last(), key);
        let r = remove_pending(ps.drop_last(), key);
        if ps.last().0@ != key {
            if waiting(r.push(ps.last()), key) {
                let i = choose|i: int| 0 <= i < r.push(ps.last()).len() && (#[trigger] r.push(ps.last())[i]).0@ == key;
                assert(r.push(ps.last())[i] == r[i]);
            }
        }
    }
}

/// A message sent while the user is known waits for its confirmation under its client
/// id, as the copy shown on screen.
pub proof fn lemma_sent_message_waits(a: AppView, b: AppView, cid: u128, text: String, key: String, m: MessageDto)
    requires
        sent_app(a, b, cid, text, key, m),
        a.session.user_id is Some,
    ensures
        waiting(b.pending.pending_confirmations, key@),
        b.pending.pending_confirmations[pending_index(b.pending.pending_confirmations, key@)] == (key, m),
{
    let ps = a.pending.pending_confirmations;
    lemma_pending_index_none(ps, key@);
    let n = pending_set(ps, key, m);
    let i = pending_index(ps, key@);
    if i < ps.len() {
        assert forall|j: int| 0 <= j < i implies (#[trigger] n[j]).0@ != key@ by {
            assert(n[j] == ps[j]);
            lemma_pending_prefix(ps, key@, j);
        }
        crate::messages::lemma_pending_index(n, key@, i);
        assert(n[i].0@ == key@);
    } else {
        assert forall|j: int| 0 <= j < ps.len() implies (#[trigger] n[j]).0@ != key@ by {
            assert(n[j] == ps[j]);
            lemma_pending_prefix(ps, key@, j);
        }
        crate::messages::lemma_pending_index(n, key@, ps.len() as int);
        assert(n[ps.len() as int].0@ == key@);
    }
    assert(b.pending.pending_confirmations == n);
}

proof fn lemma_pending_prefix(ps: Seq<(String, MessageDto)>, key: Seq<char>, j: int)
    requires
        0 <= j < pending_index(ps, key),
        pending_index(ps, key) <= ps.len(),
    ensures
        ps[j].0@ != key,
    decreases ps.len(),
{
    if ps.len() > 0 && ps[0].0@ != key && j > 0 {
        let t = ps.drop_first();
        lemma_pending_prefix(t, key, j - 1);
        assert(t[j - 1] == ps[j]);
    }
}

/// After the server confirms the message sent under client id `key`, nothing waits under
/// that id any more, whatever the state was.
pub proof fn lemma_confirmation_clears_waiting(a: AppView, key: Seq<char>, server_id: u128, sequence: Option<u64>)
    ensures
        !waiting(confirmation_app(a, key, server_id, sequence).pending.pending_confirmations, key),
{
    let ps = a.pending.pending_confirmations;
    lemma_pending_index_none(ps, key);
    lemma_remove_pending_none(ps, key);
}

/// What the reorder buffer hands out, starting at sequence `start`, are the buffered
/// entries for `start`, `start + 1`, ... in that order, without a gap, up to the first
/// sequence that is not buffered.
pub proof fn lemma_run_is_consecutive<V>(b: Map<u64, V>, start: int)
    requires
        0 <= start <= u64::MAX + 1,
    ensures
        run(b, start).len() == run_len(b, start),
        start + run_len(b, start) <= u64::MAX + 1,
        forall|i: int| 0 <= i < run_len(b, start) ==> b.contains_key(#[trigger] ((start + i) as u64)),
        forall|i: int| 0 <= i < run_len(b, start) ==> #[trigger] run(b, start)[i] == b[(start + i) as u64],
        start + run_len(b, start) <= u64::MAX ==> !b.contains_key((start + run_len(b, start)) as u64),
    decreases u64::MAX + 1 - start,
{
    if start <= u64::MAX && b.contains_key(start as u64) {
        lemma_run_is_consecutive(b, start + 1);
        assert forall|i: int| 0 <= i < run_len(b, start) implies b.contains_key(#[trigger] ((start + i) as u64)) by {
            if i > 0 {
                assert(b.contains_key((start + 1 + (i - 1)) as u64));
            }
        }
    } else {
        assert(run_len(b, start) == 0);
    }
}

proof fn lemma_sorted_insert_has(s: Seq<MessageDto>, m: MessageDto)
    ensures
        has_id(sorted_insert(s, m), m.id),
{
    lemma_insert_pos_bounds(s, m);
    let k = insert_pos(s, m);
    assert(sorted_insert(s, m)[k] == m);
}

/// After the first handling, an unsequenced message of a listed conversation that is no
/// DM stub is cached, and the conversation is still listed and still no stub.
proof fn lemma_incoming_first(a: AppView, b: AppView, m: MessageDto)
    requires
        spec_valid_incoming(m),
        m.sequence_num is None,
        conv_listed(a, m.conversation_id),
        !a.stubs.dm_stubs.contains_key(m.conversation_id),
        incoming_rel(a, b, m),
    ensures
        cached(b, m),
        conv_listed(b, m.conversation_id),
        !b.stubs.dm_stubs.contains_key(m.conversation_id),
{
    let cid = m.conversation_id;
    assert(reaches_in_order(a, m));
    let w = choose|w: IncomingLits| lits_ok_start(a, m, w) && b == in_order_app(a, m, w);
    lemma_dedup_keeps_listed(a, cid);
    let c0 = cache_of(a.data.conversation_messages, cid);
    lemma_sorted_insert_has(c0, m);
}

/// `lits_ok` at the in-order start of an unsequenced message.
pub open spec fn lits_ok_start(a: AppView, m: MessageDto, w: IncomingLits) -> bool {
    crate::incoming::lits_ok(crate::incoming::in_order_start(a, m), m, w)
}

proof fn lemma_dedup_keeps_listed(a: AppView, cid: u128)
    ensures
        conv_listed(a, cid) ==> match a.data.conversations {
            Some(l) => has_conv(dedup_convs(l), cid),
            None => false,
        },
{
    if let Some(l) = a.data.conversations {
        lemma_dedup_ids(l);
    }
}

/// Handling the same valid unsequenced message of a listed conversation (no DM stub) a
/// second time changes neither the caches, nor the messages on screen, nor the unread
/// counts.
pub proof fn lemma_incoming_twice(a: AppView, b: AppView, c: AppView, m: MessageDto)
    requires
        spec_valid_incoming(m),
        m.sequence_num is None,
        conv_listed(a, m.conversation_id),
        !a.stubs.dm_stubs.contains_key(m.conversation_id),
        incoming_rel(a, b, m),
        incoming_rel(b, c, m),
    ensures
        c.data.conversation_messages == b.data.conversation_messages,
        c.view.messages == b.view.messages,
        c.data.conversation_unread_counts == b.data.conversation_unread_counts,
{
    lemma_incoming_first(a, b, m);
    let cid = m.conversation_id;
    assert(reaches_in_order(b, m));
    let w = choose|w: IncomingLits| lits_ok_start(b, m, w) && c == in_order_app(b, m, w);
    lemma_dedup_keeps_listed(b, cid);
}

/// No two messages of `s` share an id.
pub open spec fn ids_distinct(s: Seq<MessageDto>) -> bool {
    forall|i: int, j: int| 0 <= i < j < s.len() ==> (#[trigger] s[i]).id != (#[trigger] s[j]).id
}

proof fn lemma_sort_ids(s: Seq<MessageDto>)
    ensures
        forall|id: u128| #[trigger] has_id(sort_msgs(s), id) == has_id(s, id),
        ids_distinct(s) ==> ids_distinct(sort_msgs(s)),
    decreases s.len(),
{
    if s.len() > 0 {
        let p = s.drop_last();
        let e = s.last();
        lemma_sort_ids(p);
        let r = sort_msgs(p);
        lemma_stable_pos_bounds(r, e);
        let k = stable_pos(r, e);
        let n = r.insert(k, e);
        assert(sort_msgs(s) == n);
        assert forall|id: u128| has_id(n, id) == has_id(s, id) by {
            if has_id(n, id) {
                let i = choose|i: int| 0 <= i < n.len() && (#[trigger] n[i]).id == id;
                if i < k {
                    assert(n[i] == r[i]);
                } else if i > k {
                    assert(n[i] == r[i - 1]);
                } else {
                    assert(s[s.len() - 1] == e);
                }
                if i != k {
                    assert(has_id(r, id));
                    assert(has_id(p, id));
                    let j = choose|j: int| 0 <= j < p.len() && (#[trigger] p[j]).id == id;
                    assert(s[j] == p[j]);
                }
            }
            if has_id(s, id) {
                let i = choose|i: int| 0 <= i < s.len() && (#[trigger] s[i]).id == id;
                if i == s.len() - 1 {
                    assert(n[k] == e);
                } else {
                    assert(p[i] == s[i]);
                    assert(has_id(p, id));
                    assert(has_id(r, id));
                    let j = choose|j: int| 0 <= j < r.len() && (#[trigger] r[j]).id == id;
                    if j < k {
                        assert(n[j] == r[j]);
                    } else {
                        assert(n[j + 1] == r[j]);
                    }
                }
            }
        }
        if ids_distinct(s) {
            assert(ids_distinct(p)) by {
                assert forall|i: int, j: int| 0 <= i < j < p.len() implies (#[trigger] p[i]).id != (#[trigger] p[j]).id by {
                    assert(p[i] == s[i] && p[j] == s[j]);
                }
            }
            assert(!has_id(p, e.id)) by {
                if has_id(p, e.id) {
                    let j = choose|j: int| 0 <= j < p.len() && (#[trigger] p[j]).id == e.id;
                    assert(s[j] == p[j]);
                }
            }
            assert(!has_id(r, e.id));
            assert forall|i: int, j: int| 0 <= i < j < n.len() implies (#[trigger] n[i]).id != (#[trigger] n[j]).id by {
                if j < k {
                    assert(n[i] == r[i] && n[j] == r[j]);
                } else if j == k {
                    assert(n[i] == r[i] && n[j] == e);
                } else if i == k {
                    assert(n[i] == e && n[j] == r[j - 1]);
                } else if i < k {
                    assert(n[i] == r[i] && n[j] == r[j - 1]);
                } else {
                    assert(n[i] == r[i - 1] && n[j] == r[j - 1]);
                }
            }
        }
    } else {
        assert(sort_msgs(s) =~= s);
    }
}

proof fn lemma_remove_pair_ids(s: Seq<MessageDto>, oid: u128, k: Seq<char>)
    ensures
        forall|id: u128| #[trigger] has_id(remove_pair(s, oid, k), id) ==> has_id(s, id),
        ids_distinct(s) ==> ids_distinct(remove_pair(s, oid, k)),
    decreases s.len(),
{
    if s.len() > 0 {
        let p = s.drop_last();
        let e = s.last();
        lemma_remove_pair_ids(p, oid, k);
        let r = remove_pair(p, oid, k);
        let t = remove_pair(s, oid, k);
        assert forall|id: u128| has_id(r, id) implies has_id(s, id) by {
            assert(has_id(p, id));
            let j = choose|j: int| 0 <= j < p.len() && (#[trigger] p[j]).id == id;
            assert(s[j] == p[j]);
        }
        if ids_distinct(s) {
            assert(ids_distinct(p)) by {
                assert forall|i: int, j: int| 0 <= i < j < p.len() implies (#[trigger] p[i]).id != (#[trigger] p[j]).id by {
                    assert(p[i] == s[i] && p[j] == s[j]);
                }
            }
        }
        if e.id == oid || crate::cache::has_client_id(e, k) {
            assert(t == r);
        } else {
            assert(t == r.push(e));
            assert forall|id: u128| has_id(t, id) implies has_id(s, id) by {
                let i = choose|i: int| 0 <= i < t.len() && (#[trigger] t[i]).id == id;
                if i < r.len() {
                    assert(t[i] == r[i]);
                    assert(has_id(r, id));
                } else {
                    assert(s[s.len() - 1] == e);
                }
            }
            if ids_distinct(s) {
                assert(!has_id(r, e.id)) by {
                    if has_id(r, e.id) {
                        assert(has_id(p, e.id));
                        let j = choose|j: int| 0 <= j < p.len() && (#[trigger] p[j]).id == e.id;
                        assert(s[j] == p[j]);
                    }
                }
                assert forall|i: int, j: int| 0 <= i < j < t.len() implies (#[trigger] t[i]).id != (#[trigger] t[j]).id by {
                    if j < r.len() {
                        assert(t[i] == r[i] && t[j] == r[j]);
                    } else {
                        assert(t[i] == r[i] && t[j] == e);
                        assert(has_id(r, r[i].id));
                    }
                }
            }
        }
    }
}

proof fn lemma_apply_removals_ids(s: Seq<MessageDto>, rems: Seq<(u128, String)>)
    ensures
        forall|id: u128| #[trigger] has_id(apply_removals(s, rems), id) ==> has_id(s, id),
        ids_distinct(s) ==> ids_distinct(apply_removals(s, rems)),
    decreases rems.len(),
{
    if rems.len() > 0 {
        lemma_apply_removals_ids(s, rems.drop_last());
        lemma_remove_pair_ids(apply_removals(s, rems.drop_last()), rems.last().0, rems.last().1@);
    }
}

proof fn lemma_fresh_ids(a: AppView, cid: u128, s: Seq<MessageDto>)
    ensures
        forall|id: u128| #[trigger] has_id(fresh_msgs(a, cid, s), id) ==> !known_before(a, cid, id),
        ids_distinct(s) ==> ids_distinct(fresh_msgs(a, cid, s)),
        forall|id: u128| #[trigger] has_id(fresh_msgs(a, cid, s), id) ==> has_id(s, id),
    decreases s.len(),
{
    if s.len() > 0 {
        let p = s.drop_last();
        let e = s.last();
        lemma_fresh_ids(a, cid, p);
        let r = fresh_msgs(a, cid, p);
        let t = fresh_msgs(a, cid, s);
        assert forall|id: u128| has_id(r, id) implies has_id(s, id) by {
            let j = choose|j: int| 0 <= j < p.len() && (#[trigger] p[j]).id == id;
            assert(s[j] == p[j]);
        }
        if known_before(a, cid, e.id) {
            assert(t == r);
        } else {
            assert(t == r.push(e));
            assert forall|id: u128| has_id(t, id) implies !known_before(a, cid, id) && has_id(s, id) by {
                let i = choose|i: int| 0 <= i < t.len() && (#[trigger] t[i]).id == id;
                if i < r.len() {
                    assert(t[i] == r[i]);
                    assert(has_id(r, id));
                } else {
                    assert(t[i] == e);
                    assert(s[s.len() - 1] == e);
                }
            }
            if ids_distinct(s) {
                assert(ids_distinct(p)) by {
                    assert forall|i: int, j: int| 0 <= i < j < p.len() implies (#[trigger] p[i]).id != (#[trigger] p[j]).id by {
                        assert(p[i] == s[i] && p[j] == s[j]);
                    }
                }
                assert(!has_id(r, e.id)) by {
                    if has_id(r, e.id) {
                        assert(has_id(p, e.id));
                        let j = choose|j: int| 0 <= j < p.len() && (#[trigger] p[j]).id == e.id;
                        assert(s[j] == p[j]);
                    }
                }
                assert forall|i: int, j: int| 0 <= i < j < t.len() implies (#[trigger] t[i]).id != (#[trigger] t[j]).id by {
                    if j < r.len() {
                        assert(t[i] == r[i] && t[j] == r[j]);
                    } else {
                        assert(t[i] == r[i] && t[j] == e);
                        assert(has_id(r, r[i].id));
                    }
                }
            }
        }
        if ids_distinct(s) {
            assert(ids_distinct(p)) by {
                assert forall|i: int, j: int| 0 <= i < j < p.len() implies (#[trigger] p[i]).id != (#[trigger] p[j]).id by {
                    assert(p[i] == s[i] && p[j] == s[j]);
                }
            }
        }
    }
}

proof fn lemma_concat_ids(x: Seq<MessageDto>, y: Seq<MessageDto>)
    requires
        ids_distinct(x),
        ids_distinct(y),
        forall|id: u128| #[trigger] has_id(y, id) ==> !has_id(x, id),
    ensures
        ids_distinct(x + y),
{
    let z = x + y;
    assert forall|i: int, j: int| 0 <= i < j < z.len() implies (#[trigger] z[i]).id != (#[trigger] z[j]).id by {
        if j < x.len() {
            assert(z[i] == x[i] && z[j] == x[j]);
        } else if i >= x.len() {
            assert(z[i] == y[i - x.len()] && z[j] == y[j - x.len()]);
        } else {
            assert(z[i] == x[i] && z[j] == y[j - x.len()]);
            if z[i].id == z[j].id {
                assert(has_id(y, z[j].id));
                assert(has_id(x, z[i].id));
            }
        }
    }
}

/// A replay of messages keeps the ids of the conversation's cache, and of the screen when
/// the conversation is open, pairwise distinct, when they were and the replayed messages
/// are.
pub proof fn lemma_resume_keeps_ids_distinct(a: AppView, cid: u128, msgs: Seq<MessageDto>)
    requires
        ids_distinct(cache_of(a.data.conversation_messages, cid)),
        a.view.cid == Some(cid) ==> ids_distinct(a.view.messages),
        ids_distinct(msgs),
    ensures
        ids_distinct(cache_of(messages_resume_app(a, cid, msgs).data.conversation_messages, cid)),
        messages_resume_app(a, cid, msgs).view.cid == Some(cid)
            ==> ids_distinct(messages_resume_app(a, cid, msgs).view.messages),
{
    let b = messages_resume_app(a, cid, msgs);
    let a1 = AppView {
        seq: crate::view::SeqModel {
            is_recovering_messages: a.seq.is_recovering_messages.insert(cid, false),
            pending_resume_requests: crate::resume::dec_sat(a.seq.pending_resume_requests),
            ..a.seq
        },
        ..a
    };
    let a2 = match crate::resume::max_seq(msgs) {
        Some(m) => crate::incoming::conv_seq_app(a1, cid, m),
        None => a1,
    };
    assert(a2.data == a.data && a2.view == a.view);
    let fresh = fresh_msgs(a2, cid, msgs);
    lemma_fresh_ids(a2, cid, msgs);
    let a3 = drop_replaced_app(a2, cid, fresh);
    let rems = crate::resume::removals(a2, cid, fresh);
    let c2 = cache_of(a2.data.conversation_messages, cid);
    let c3 = cache_of(a3.data.conversation_messages, cid);
    lemma_apply_removals_ids(c2, rems);
    lemma_apply_removals_ids(a2.view.messages, rems);
    if a2.data.conversation_messages.contains_key(cid) {
        assert(c3 == apply_removals(c2, rems));
    } else {
        assert(c3 =~= Seq::<MessageDto>::empty());
    }
    let v3 = a3.view.messages;
    if a2.view.cid == Some(cid) {
        assert(v3 == apply_removals(a2.view.messages, rems));
    }
    assert(b == (if fresh.len() == 0 { a3 } else { add_fresh_app(a3, cid, fresh) }));
    if fresh.len() > 0 {
        if a3.data.conversation_messages.contains_key(cid) {
            assert forall|id: u128| has_id(fresh, id) implies !has_id(c3, id) by {
                if has_id(c3, id) {
                    assert(has_id(c2, id));
                }
            }
            lemma_concat_ids(c3, fresh);
            lemma_sort_ids(c3 + fresh);
        }
        if a3.view.cid == Some(cid) {
            assert forall|id: u128| has_id(fresh, id) implies !has_id(v3, id) by {
                if has_id(v3, id) {
                    assert(has_id(a2.view.messages, id));
                }
            }
            lemma_concat_ids(v3, fresh);
            lemma_sort_ids(v3 + fresh);
        }
    }
}

/// On a connection, a failed send of a frame adds one to the failures in a row, and the
/// connection closes, telling the client, exactly when they reach the limit; a
/// successful send sets them back to zero and keeps the connection open; a keep-alive
/// tick closes it exactly when no pong came for longer than the timeout; and a closed
/// connection ignores every event and asks for nothing.
pub proof fn lemma_link_failures(s: LinkState, ev: LinkEvent)
    ensures
        s.closed ==> link_step_spec(s, ev) == (s, Seq::<LinkAction>::empty()),
        !s.closed && ev == (LinkEvent::Sent { kind: SendKind::Frame, ok: false }) ==> {
            let (t, acts) = link_step_spec(s, ev);
            &&& t.consecutive_failures == inc_fail(s.consecutive_failures)
            &&& t.closed <==> t.consecutive_failures >= MAX_LINK_FAILURES
            &&& t.closed ==> acts == seq![LinkAction::NotifyDisconnected]
        },
        !s.closed && (ev matches LinkEvent::Sent { ok, .. } && ok) ==> {
            let t = link_step_spec(s, ev).0;
            t.consecutive_failures == 0 && !t.closed
        },
        forall|now_ms: i64|
            !s.closed && ev == (LinkEvent::Tick { now_ms }) ==> (link_step_spec(s, ev).0.closed <==> now_ms - s.last_pong_ms
                > PONG_TIMEOUT_MS),
{
}

/// No two confirmations waiting in `ps` share a client id.
pub open spec fn keys_distinct(ps: Seq<(String, MessageDto)>) -> bool {
    forall|i: int, j: int| 0 <= i < j < ps.len() ==> (#[trigger] ps[i]).0@ != (#[trigger] ps[j]).0@
}

/// No two names of `s` read the same.
pub open spec fn names_distinct(s: Seq<String>) -> bool {
    forall|i: int, j: int| 0 <= i < j < s.len() ==> (#[trigger] s[i])@ != (#[trigger] s[j])@
}

/// Waiting under `key` again replaces what waited under it, or adds it: client ids stay
/// distinct.
pub proof fn lemma_pending_set_distinct(ps: Seq<(String, MessageDto)>, key: String, m: MessageDto)
    requires
        keys_distinct(ps),
    ensures
        keys_distinct(pending_set(ps, key, m)),
{
    lemma_pending_index_none(ps, key@);
    let r = pending_set(ps, key, m);
    let i = pending_index(ps, key@);
    if i < ps.len() {
        assert forall|a: int, b: int| 0 <= a < b < r.len() implies (#[trigger] r[a]).0@ != (#[trigger] r[b]).0@ by {
            assert(r[a].0@ == ps[a].0@);
            assert(r[b].0@ == ps[b].0@);
        }
    } else {
        assert forall|a: int, b: int| 0 <= a < b < r.len() implies (#[trigger] r[a]).0@ != (#[trigger] r[b]).0@ by {
            if b == ps.len() {
                assert(r[a] == ps[a]);
                assert(!waiting(ps, key@));
            } else {
                assert(r[a] == ps[a] && r[b] == ps[b]);
            }
        }
    }
}

/// Giving up what waits under `key` keeps client ids distinct, and leaves only ids that
/// waited before.
pub proof fn lemma_remove_pending_distinct(ps: Seq<(String, MessageDto)>, key: Seq<char>)
    requires
        keys_distinct(ps),
    ensures
        keys_distinct(remove_pending(ps, key)),
        forall|k: Seq<char>| waiting(remove_pending(ps, key), k) ==> waiting(ps, k),
    decreases ps.len(),
{
    if ps.len() > 0 {
        let q = ps.drop_last();
        assert forall|a: int, b: int| 0 <= a < b < q.len() implies (#[trigger] q[a]).0@ != (#[trigger] q[b]).0@ by {
            assert(q[a] == ps[a] && q[b] == ps[b]);
        }
        lemma_remove_pending_distinct(q, key);
        let r = remove_pending(q, key);
        lemma_keep_last_distinct(ps, r);
    }
}

/// `r`, drawn from all but the last of `ps`, with the last of `ps` pushed or not, keeps
/// client ids distinct and only ids of `ps`.
proof fn lemma_keep_last_distinct(ps: Seq<(String, MessageDto)>, r: Seq<(String, MessageDto)>)
    requires
        ps.len() > 0,
        keys_distinct(ps),
        keys_distinct(r),
        forall|k: Seq<char>| waiting(r, k) ==> waiting(ps.drop_last(), k),
    ensures
        keys_distinct(r.push(ps.last())),
        forall|k: Seq<char>| waiting(r.push(ps.last()), k) ==> waiting(ps, k),
        forall|k: Seq<char>| waiting(r, k) ==> waiting(ps, k),
{
    let q = ps.drop_last();
    let r2 = r.push(ps.last());
    assert forall|k: Seq<char>| waiting(r, k) implies waiting(ps, k) by {
        let j = choose|j: int| 0 <= j < q.len() && (#[trigger] q[j]).0@ == k;
        assert(ps[j] == q[j]);
    }
    assert forall|a: int, b: int| 0 <= a < b < r2.len() implies (#[trigger] r2[a]).0@ != (#[trigger] r2[b]).0@ by {
        if b == r.len() {
            assert(r2[a] == r[a]);
            assert(waiting(r, r[a].0@));
            let j = choose|j: int| 0 <= j < q.len() && (#[trigger] q[j]).0@ == r[a].0@;
            assert(ps[j] == q[j]);
            assert(ps[ps.len() - 1] == ps.last());
        } else {
            assert(r2[a] == r[a] && r2[b] == r[b]);
        }
    }
    assert forall|k: Seq<char>| waiting(r2, k) implies waiting(ps, k) by {
        let i = choose|i: int| 0 <= i < r2.len() && (#[trigger] r2[i]).0@ == k;
        if i == r.len() {
            assert(ps[ps.len() - 1] == ps.last());
        } else {
            assert(r2[i] == r[i]);
            assert(waiting(r, k));
        }
    }
}

/// Giving up the confirmations that waited too long keeps client ids distinct.
pub proof fn lemma_still_waiting_distinct(ps: Seq<(String, MessageDto)>, now: i64, timeout: i64)
    requires
        keys_distinct(ps),
    ensures
        keys_distinct(still_waiting(ps, now, timeout)),
        forall|k: Seq<char>| waiting(still_waiting(ps, now, timeout), k) ==> waiting(ps, k),
    decreases ps.len(),
{
    if ps.len() > 0 {
        let q = ps.drop_last();
        assert forall|a: int, b: int| 0 <= a < b < q.len() implies (#[trigger] q[a]).0@ != (#[trigger] q[b]).0@ by {
            assert(q[a] == ps[a] && q[b] == ps[b]);
        }
        lemma_still_waiting_distinct(q, now, timeout);
        lemma_keep_last_distinct(ps, still_waiting(q, now, timeout));
    }
}

/// Giving up what waits under each of `keys` keeps client ids distinct.
pub proof fn lemma_remove_pending_all_distinct(ps: Seq<(String, MessageDto)>, keys: Seq<String>)
    requires
        keys_distinct(ps),
    ensures
        keys_distinct(remove_pending_all(ps, keys)),
    decreases keys.len(),
{
    if keys.len() > 0 {
        lemma_remove_pending_all_distinct(ps, keys.drop_last());
        lemma_remove_pending_distinct(remove_pending_all(ps, keys.drop_last()), keys.last()@);
    }
}

/// Ticking a name keeps the chosen names distinct.
pub proof fn lemma_set_insert_distinct(s: Seq<String>, x: String)
    requires
        names_distinct(s),
    ensures
        names_distinct(set_insert(s, x)),
{
    let r = set_insert(s, x);
    if !has_name(s, x@) {
        assert forall|a: int, b: int| 0 <= a < b < r.len() implies (#[trigger] r[a])@ != (#[trigger] r[b])@ by {
            if b == s.len() {
                assert(r[a] == s[a]);
            } else {
                assert(r[a] == s[a] && r[b] == s[b]);
            }
        }
    }
}

/// Unticking a name keeps the chosen names distinct, and leaves only names chosen before.
pub proof fn lemma_set_remove_distinct(s: Seq<String>, x: Seq<char>)
    requires
        names_distinct(s),
    ensures
        names_distinct(set_remove(s, x)),
        forall|y: Seq<char>| has_name(set_remove(s, x), y) ==> has_name(s, y),
    decreases s.len(),
{
    if s.len() > 0 {
        let q = s.drop_last();
        assert forall|a: int, b: int| 0 <= a < b < q.len() implies (#[trigger] q[a])@ != (#[trigger] q[b])@ by {
            assert(q[a] == s[a] && q[b] == s[b]);
        }
        lemma_set_remove_distinct(q, x);
        let r = set_remove(q, x);
        let r2 = r.push(s.last());
        assert forall|y: Seq<char>| has_name(r, y) implies has_name(s, y) by {
            assert(has_name(q, y));
            let j = choose|j: int| 0 <= j < q.len() && (#[trigger] q[j])@ == y;
            assert(s[j] == q[j]);
        }
        if s.last()@ != x {
            assert forall|a: int, b: int| 0 <= a < b < r2.len() implies (#[trigger] r2[a])@ != (#[trigger] r2[b])@ by {
                if b == r.len() {
                    assert(r2[a] == r[a]);
                    assert(has_name(r, r[a]@));
                    assert(has_name(q, r[a]@));
                    let j = choose|j: int| 0 <= j < q.len() && (#[trigger] q[j])@ == r[a]@;
                    assert(s[j] == q[j]);
                    assert(s[s.len() - 1] == s.last());
                } else {
                    assert(r2[a] == r[a] && r2[b] == r[b]);
                }
            }
            assert forall|y: Seq<char>| has_name(r2, y) implies has_name(s, y) by {
                let i = choose|i: int| 0 <= i < r2.len() && (#[trigger] r2[i])@ == y;
                if i == r.len() {
                    assert(s[s.len() - 1] == s.last());
                } else {
                    assert(r2[i] == r[i]);
                    assert(has_name(r, y));
                }
            }
        }
    }
}

/// `convs[i]` is the last conversation of `convs` with its id that carries a last message.
pub open spec fn last_seeded(convs: Seq<ConversationDto>, i: int) -> bool {
    &&& 0 <= i < convs.len()
    &&& convs[i].last_msg_seq > 0
    &&& forall|j: int| i < j < convs.len() && (#[trigger] convs[j]).id == convs[i].id ==> convs[j].last_msg_seq <= 0
}

proof fn lemma_seed_value(m: Map<u128, u64>, convs: Seq<ConversationDto>, i: int)
    requires
        last_seeded(convs, i),
    ensures
        seq_or_zero(seed_seqs(m, convs), convs[i].id) == convs[i].last_msg_seq as u64,
    decreases convs.len(),
{
    let n = convs.len() as int;
    if i < n - 1 {
        let d = convs.drop_last();
        assert forall|j: int| i < j < d.len() && (#[trigger] d[j]).id == d[i].id implies d[j].last_msg_seq <= 0 by {
            assert(d[j] == convs[j]);
        }
        assert(d[i] == convs[i]);
        lemma_seed_value(m, d, i);
        assert(convs.last() == convs[n - 1]);
    }
}

/// After the initial state, the received and the confirmed sequence of each listed
/// conversation that carries a last message are both its last message's sequence (the
/// last such entry counting when an id is listed twice), so the next message of it is in
/// order; the user sequence is both received and confirmed.
pub proof fn lemma_initial_state_sequences(
    a: AppView,
    convs: Seq<ConversationDto>,
    user_sequence: u64,
    sys: MessageDto,
    i: int,
)
    requires
        last_seeded(convs, i),
    ensures
        ({
            let b = initial_state_app(a, convs, user_sequence, sys);
            &&& seq_or_zero(b.seq.conversation_sequences, convs[i].id) == convs[i].last_msg_seq as u64
            &&& seq_or_zero(b.seq.conversation_sequences_confirmed, convs[i].id) == convs[i].last_msg_seq as u64
            &&& b.seq.user_sequence_received == user_sequence
            &&& b.seq.user_sequence_confirmed == user_sequence
        }),
{
    lemma_seed_value(a.seq.conversation_sequences, convs, i);
    lemma_seed_value(a.seq.conversation_sequences_confirmed, convs, i);
}

/// A new message event carrying a message that is not cached yet stores it: the cache of
/// its conversation afterwards is the old one with exactly that message added (so it holds
/// a message with its id), whatever else the event does.
pub proof fn lemma_new_message_event_caches(
    a: AppView,
    b: AppView,
    data: NotificationData,
    cid: Option<u128>,
    recovery: bool,
    m0: MessageDto,
)
    requires
        processed(a, b, "new_message"@, data, cid, recovery),
        data.message == Some(m0),
        !cached(a, with_conv_seq(m0, data.conversation_sequence)),
    ensures
        ({
            let m = with_conv_seq(m0, data.conversation_sequence);
            let before = cache_of(a.data.conversation_messages, m.conversation_id);
            let after = cache_of(b.data.conversation_messages, m.conversation_id);
            &&& has_id(after, m.id)
            &&& after.to_multiset() == before.to_multiset().insert(m)
            &&& after.len() == before.len() + 1
        }),
{
    let m = with_conv_seq(m0, data.conversation_sequence);
    let c = m.conversation_id;
    let mid = choose|mid: AppView|
        #[trigger] notification_step(recovery_count_app(a, recovery), mid, "new_message"@, data, cid)
            && b == event_mark_read_app(mid, cid);
    let a0 = recovery_count_app(a, recovery);
    assert(a0.data == a.data);
    assert(mid == new_message_app(a0, data.message, data.conversation_sequence));
    let before = cache_of(a.data.conversation_messages, c);
    lemma_sorted_insert_has(before, m);
    lemma_sorted_insert_ordered(before, m);
    assert(cache_of(b.data.conversation_messages, c) == sorted_insert(before, m));
}

/// A new message user event that comes in its turn, with no later event waiting, stores
/// its message when it is not cached yet: afterwards the cache of its conversation is the
/// old one with exactly that message added.
pub proof fn lemma_new_message_notification_caches(
    a: AppView,
    b: AppView,
    sequence: u64,
    data: NotificationData,
    cid: Option<u128>,
    recovery: bool,
    m0: MessageDto,
)
    requires
        user_notification_rel(a, b, sequence, "new_message"@, data, cid, recovery),
        a.seq.user_sequence_confirmed < u64::MAX,
        sequence == a.seq.user_sequence_confirmed + 1,
        !a.buffers.user_events.contains_key((sequence + 1) as u64),
        data.message == Some(m0),
        !cached(a, with_conv_seq(m0, data.conversation_sequence)),
    ensures
        ({
            let m = with_conv_seq(m0, data.conversation_sequence);
            let before = cache_of(a.data.conversation_messages, m.conversation_id);
            let after = cache_of(b.data.conversation_messages, m.conversation_id);
            &&& has_id(after, m.id)
            &&& after.to_multiset() == before.to_multiset().insert(m)
            &&& after.len() == before.len() + 1
        }),
{
    let a1 = seq_recorded_app(a, sequence);
    let mid = choose|mid: AppView| #[trigger] processed(a1, mid, "new_message"@, data, cid, recovery) && deliver_rel(mid, b);
    assert(a1.data == a.data);
    lemma_new_message_event_caches(a1, mid, data, cid, recovery, m0);
    let mid2 = choose|x: AppView|
        #[trigger] notification_step(recovery_count_app(a1, recovery), x, "new_message"@, data, cid)
            && mid == event_mark_read_app(x, cid);
    assert(mid.buffers.user_events == a.buffers.user_events);
    assert(a1.seq.user_sequence_confirmed == sequence);
    assert(mid.seq.user_sequence_confirmed == sequence);
    let start = mid.seq.user_sequence_confirmed + 1;
    assert(flatten_run(mid.buffers.user_events, start) =~= Seq::<NotificationData>::empty());
    let x = AppView { buffers: BuffersModel { user_events: without_run(mid.buffers.user_events, start), ..mid.buffers }, ..mid };
    let states = choose|states: Seq<AppView>| #[trigger] delivery_trace(states, Seq::<NotificationData>::empty()) && states[0] == x && states.last() == b;
    assert(states.len() == 1);
    assert(b == x);
}

proof fn lemma_fresh_has(a: AppView, cid: u128, msgs: Seq<MessageDto>, i: int)
    requires
        0 <= i < msgs.len(),
        !known_before(a, cid, msgs[i].id),
    ensures
        fresh_msgs(a, cid, msgs).contains(msgs[i]),
    decreases msgs.len(),
{
    let d = msgs.drop_last();
    if i < msgs.len() - 1 {
        assert(d[i] == msgs[i]);
        lemma_fresh_has(a, cid, d, i);
        let f = fresh_msgs(a, cid, d);
        if !known_before(a, cid, msgs.last().id) {
            let k = choose|k: int| 0 <= k < f.len() && f[k] == msgs[i];
            assert(f.push(msgs.last())[k] == msgs[i]);
        }
    } else {
        let f = fresh_msgs(a, cid, d);
        assert(f.push(msgs.last())[f.len() as int] == msgs[i]);
    }
}

proof fn lemma_sorted_keeps(s: Seq<MessageDto>, x: MessageDto)
    requires
        s.contains(x),
    ensures
        sort_msgs(s).contains(x),
{
    lemma_sort_msgs_permutation(s);
    s.to_multiset_ensures();
    sort_msgs(s).to_multiset_ensures();
    assert(s.to_multiset().count(x) > 0);
    assert(sort_msgs(s).to_multiset().count(x) > 0);
}

/// A messages replay for conversation `cid` stores every replayed message that was not
/// known before in the cache of `cid`, and, when `cid` is open, shows it on screen.
pub proof fn lemma_resume_shows_fresh(a: AppView, cid: u128, msgs: Seq<MessageDto>, i: int)
    requires
        0 <= i < msgs.len(),
        !known_before(a, cid, msgs[i].id),
    ensures
        cache_of(messages_resume_app(a, cid, msgs).data.conversation_messages, cid).contains(msgs[i]),
        a.view.cid == Some(cid) ==> messages_resume_app(a, cid, msgs).view.messages.contains(msgs[i]),
{
    let b = messages_resume_app(a, cid, msgs);
    let a1 = AppView {
        seq: crate::view::SeqModel {
            is_recovering_messages: a.seq.is_recovering_messages.insert(cid, false),
            pending_resume_requests: crate::resume::dec_sat(a.seq.pending_resume_requests),
            ..a.seq
        },
        ..a
    };
    let a2 = match crate::resume::max_seq(msgs) {
        Some(m) => crate::incoming::conv_seq_app(a1, cid, m),
        None => a1,
    };
    assert(a2.data == a.data && a2.view == a.view);
    assert(known_before(a2, cid, msgs[i].id) == known_before(a, cid, msgs[i].id));
    let fresh = fresh_msgs(a2, cid, msgs);
    lemma_fresh_has(a2, cid, msgs, i);
    let a3 = drop_replaced_app(a2, cid, fresh);
    assert(fresh.len() > 0);
    assert(b == add_fresh_app(a3, cid, fresh));
    let k = choose|k: int| 0 <= k < fresh.len() && fresh[k] == msgs[i];
    if a3.data.conversation_messages.contains_key(cid) {
        let all = a3.data.conversation_messages[cid] + fresh;
        assert(all[a3.data.conversation_messages[cid].len() + k] == msgs[i]);
        lemma_sorted_keeps(all, msgs[i]);
    }
    if a.view.cid == Some(cid) {
        let all = a3.view.messages + fresh;
        assert(all[a3.view.messages.len() + k] == msgs[i]);
        lemma_sorted_keeps(all, msgs[i]);
    }
}

/// A valid message that comes in its turn, for a listed conversation that is no DM stub,
/// with no buffered message right after it, is cached; when its conversation is open it
/// is shown; otherwise it raises the unread count of its conversation by one when someone
/// else wrote it, and leaves it as it was when the user wrote it.
pub proof fn lemma_incoming_counts_unread(a: AppView, b: AppView, m: MessageDto)
    requires
        reaches_in_order(a, m),
        incoming_rel(a, b, m),
        conv_listed(a, m.conversation_id),
        !a.stubs.dm_stubs.contains_key(m.conversation_id),
        !cached(a, m),
        m.sequence_num matches Some(s) ==> s == u64::MAX || !crate::buffer::mbuf(a.buffers.messages, m.conversation_id).contains_key(
            (s + 1) as u64,
        ),
    ensures
        has_id(cache_of(b.data.conversation_messages, m.conversation_id), m.id),
        a.view.cid == Some(m.conversation_id) ==> has_id(b.view.messages, m.id),
        a.view.cid != Some(m.conversation_id) && Some(m.author_id) != a.session.user_id ==> crate::incoming::unread_of(b.data.conversation_unread_counts, m.conversation_id)
            == crate::incoming::inc_i64(crate::incoming::unread_of(a.data.conversation_unread_counts, m.conversation_id)),
        a.view.cid != Some(m.conversation_id) && Some(m.author_id) == a.session.user_id ==> crate::incoming::unread_of(b.data.conversation_unread_counts, m.conversation_id)
            == crate::incoming::unread_of(a.data.conversation_unread_counts, m.conversation_id),
{
    let cid = m.conversation_id;
    let start = crate::incoming::in_order_start(a, m);
    assert(start.data == a.data && start.stubs == a.stubs && start.view == a.view && start.buffers == a.buffers);
    let w = choose|w: IncomingLits| #![trigger in_order_app(start, m, w)] crate::incoming::lits_ok(start, m, w) && b == in_order_app(start, m, w);
    lemma_dedup_keeps_listed(start, cid);
    let c0 = cache_of(a.data.conversation_messages, cid);
    lemma_sorted_insert_has(c0, m);
    let a1 = crate::incoming::dedup_app(crate::incoming::count_event_app(start), cid);
    assert(conv_listed(a1, cid));
    let a4 = crate::incoming::display_app(crate::incoming::cache_insert_app(a1, m), cid, m);
    if a.view.cid == Some(cid) {
        let v = crate::incoming::cache_insert_app(a1, m).view.messages;
        if !has_id(v, m.id) {
            lemma_sorted_insert_has(v, m);
        }
        assert(has_id(a4.view.messages, m.id));
    }
    if let Some(s) = m.sequence_num {
        let bf = crate::buffer::mbuf(a4.buffers.messages, cid);
        assert(bf == crate::buffer::mbuf(a.buffers.messages, cid));
        assert(run_len(bf, s + 1) == 0);
        assert(run(bf, s + 1) =~= Seq::<MessageDto>::empty());
        assert(b == crate::incoming::drain_app(a4, cid, s));
    } else {
        assert(b == a4);
    }
}

} // verus!
