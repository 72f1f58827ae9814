//! Ordered message lists: the cache of each conversation and the list on screen keep
//! their messages ordered by sequence, or by creation time and id.
use std::collections::HashMap;
use vstd::prelude::*;
use crate::model::MessageDto;

verus! {

/// Whether `e` comes before `m`: by sequence when both have one, otherwise by creation
/// time, then by id.
pub open spec fn msg_less(e: MessageDto, m: MessageDto) -> bool {
    match (e.sequence_num, m.sequence_num) {
        (Some(a), Some(b)) => a < b,
        _ => e.created_at < m.created_at || (e.created_at == m.created_at && e.id < m.id),
    }
}

/// `msg_less`.
pub fn message_less(e: &MessageDto, m: &MessageDto) -> (r: bool)
    ensures
        r == msg_less(*e, *m),
{
    match (e.sequence_num, m.sequence_num) {
        (Some(a), Some(b)) => a < b,
        _ => e.created_at < m.created_at || (e.created_at == m.created_at && e.id < m.id),
    }
}

/// Where `m` goes in `s`: before the first message that does not come before it.
pub open spec fn insert_pos(s: Seq<MessageDto>, m: MessageDto) -> int
    decreases s.len(),
{
    if s.len() == 0 || !msg_less(s[0], m) {
        0
    } else {
        1 + insert_pos(s.drop_first(), m)
    }
}

/// `s` with `m` inserted in its place.
pub open spec fn sorted_insert(s: Seq<MessageDto>, m: MessageDto) -> Seq<MessageDto> {
    s.insert(insert_pos(s, m), m)
}

/// Whether a message with id `id` is in `s`.
pub open spec fn has_id(s: Seq<MessageDto>, id: u128) -> bool {
    exists|i: int| 0 <= i < s.len() && (#[trigger] s[i]).id == id
}

/// The messages cached for `cid` (none when the conversation has no cache).
pub open spec fn cache_of(m: Map<u128, Seq<MessageDto>>, cid: u128) -> Seq<MessageDto> {
    if m.contains_key(cid) { m[cid] } else { Seq::empty() }
}

pub proof fn lemma_insert_pos(s: Seq<MessageDto>, m: MessageDto, i: int)
    requires
        0 <= i <= s.len(),
        forall|j: int| 0 <= j < i ==> msg_less(#[trigger] s[j], m),
        i == s.len() || !msg_less(s[i], m),
    ensures
        insert_pos(s, m) == i,
    decreases s.len(),
{
    if s.len() > 0 && msg_less(s[0], m) {
        let t = s.drop_first();
        assert forall|j: int| 0 <= j < i - 1 implies msg_less(#[trigger] t[j], m) by {
            assert(t[j] == s[j + 1]);
        }
        if i < s.len() {
            assert(t[i - 1] == s[i]);
        }
        lemma_insert_pos(t, m, i - 1);
    }
}

pub proof fn lemma_insert_pos_bounds(s: Seq<MessageDto>, m: MessageDto)
    ensures
        0 <= insert_pos(s, m) <= s.len(),
    decreases s.len(),
{
    if s.len() > 0 && msg_less(s[0], m) {
        lemma_insert_pos_bounds(s.drop_first(), m);
    }
}

/// `s.iter().any(|x| x.id == id)`.
pub fn contains_id(s: &Vec<MessageDto>, id: u128) -> (r: bool)
    ensures
        r == has_id(s@, id),
{
    let mut i: usize = 0;
    while i < s.len()
        invariant
            i <= s.len(),
            forall|j: int| 0 <= j < i ==> (#[trigger] s@[j]).id != id,
        decreases s.len() - i,
    {
        if s[i].id == id {
            return true;
        }
        i = i + 1;
    }
    false
}

/// The position where `m` goes in `s`.
pub fn insert_position(s: &Vec<MessageDto>, m: &MessageDto) -> (p: usize)
    ensures
        p == insert_pos(s@, *m),
        p <= s.len(),
{
    let mut i: usize = 0;
    while i < s.len() && message_less(&s[i], m)
        invariant
            i <= s.len(),
            forall|j: int| 0 <= j < i ==> msg_less(#[trigger] s@[j], *m),
        decreases s.len() - i,
    {
        i = i + 1;
    }
    proof {
        lemma_insert_pos(s@, *m, i as int);
    }
    i
}

/// Inserts `m` in its place in `s`.
pub fn insert_sorted(s: &mut Vec<MessageDto>, m: MessageDto)
    ensures
        final(s)@ == sorted_insert(old(s)@, m),
{
    let p = insert_position(s, &m);
    s.insert(p, m);
}

/// Takes the cache of `cid` out of the map, leaving the map without it.
pub fn take_cache(map: &mut HashMap<u128, Vec<MessageDto>>, cid: u128) -> (r: Vec<MessageDto>)
    ensures
        final(map)@ == old(map)@.remove(cid),
        r@ == (if old(map)@.contains_key(cid) { old(map)@[cid]@ } else { Seq::empty() }),
{
    match map.remove(&cid) {
        Some(v) => v,
        None => Vec::new(),
    }
}

/// The order used when a whole list is sorted: by sequence when both messages have one,
/// otherwise by creation time.
pub open spec fn sort_less(a: MessageDto, b: MessageDto) -> bool {
    match (a.sequence_num, b.sequence_num) {
        (Some(x), Some(y)) => x < y,
        _ => a.created_at < b.created_at,
    }
}

fn sorting_less(a: &MessageDto, b: &MessageDto) -> (r: bool)
    ensures
        r == sort_less(*a, *b),
{
    match (a.sequence_num, b.sequence_num) {
        (Some(x), Some(y)) => x < y,
        _ => a.created_at < b.created_at,
    }
}

/// Where a stable insertion puts `e` in the sorted list `r`: before the first message
/// that `e` comes strictly before.
pub open spec fn stable_pos(r: Seq<MessageDto>, e: MessageDto) -> int
    decreases r.len(),
{
    if r.len() == 0 || sort_less(e, r[0]) {
        0
    } else {
        1 + stable_pos(r.drop_first(), e)
    }
}

/// `s` sorted by `sort_less`, stably: equal messages keep their order.
pub open spec fn sort_msgs(s: Seq<MessageDto>) -> Seq<MessageDto>
    decreases s.len(),
{
    if s.len() == 0 {
        Seq::empty()
    } else {
        let r = sort_msgs(s.drop_last());
        r.insert(stable_pos(r, s.last()), s.last())
    }
}

proof fn lemma_stable_pos(r: Seq<MessageDto>, e: MessageDto, i: int)
    requires
        0 <= i <= r.len(),
        forall|j: int| 0 <= j < i ==> !sort_less(e, #[trigger] r[j]),
        i == r.len() || sort_less(e, r[i]),
    ensures
        stable_pos(r, e) == i,
    decreases r.len(),
{
    if r.len() > 0 && !sort_less(e, r[0]) {
        let t = r.drop_first();
        assert forall|j: int| 0 <= j < i - 1 implies !sort_less(e, #[trigger] t[j]) by {
            assert(t[j] == r[j + 1]);
        }
        if i < r.len() {
            assert(t[i - 1] == r[i]);
        }
        lemma_stable_pos(t, e, i - 1);
    }
}

pub proof fn lemma_sort_len(s: Seq<MessageDto>)
    ensures
        sort_msgs(s).len() == s.len(),
    decreases s.len(),
{
    if s.len() > 0 {
        lemma_sort_len(s.drop_last());
        lemma_stable_pos_bounds(sort_msgs(s.drop_last()), s.last());
    }
}

pub proof fn lemma_stable_pos_bounds(r: Seq<MessageDto>, e: MessageDto)
    ensures
        0 <= stable_pos(r, e) <= r.len(),
    decreases r.len(),
{
    if r.len() > 0 && !sort_less(e, r[0]) {
        lemma_stable_pos_bounds(r.drop_first(), e);
    }
}

/// Sorts messages by sequence, or by creation time, keeping the order of equal ones.
pub fn sort_messages(v: Vec<MessageDto>) -> (r: Vec<MessageDto>)
    ensures
        r@ == sort_msgs(v@),
{
    let mut out: Vec<MessageDto> = Vec::new();
    let mut v = v;
    let ghost orig = v@;
    let n = v.len();
    let mut i: usize = 0;
    while i < n
        invariant
            n == orig.len(),
            i <= n,
            v@ == orig,
            out@ == sort_msgs(orig.take(i as int)),
        decreases n - i,
    {
        let e = v[i].duplicate();
        let ghost r = out@;
        proof {
            assert(orig.take(i + 1).drop_last() =~= orig.take(i as int));
            assert(orig.take(i + 1).last() == e);
            lemma_sort_len(orig.take(i as int));
        }
        let mut p: usize = 0;
        while p < out.len() && !sorting_less(&e, &out[p])
            invariant
                out@ == r,
                p <= out.len(),
                forall|j: int| 0 <= j < p ==> !sort_less(e, #[trigger] r[j]),
            decreases out.len() - p,
        {
            p = p + 1;
        }
        proof {
            lemma_stable_pos(r, e, p as int);
        }
        out.insert(p, e);
        i = i + 1;
    }
    proof {
        assert(orig.take(n as int) =~= orig);
    }
    out
}

/// The index of the first message with id `id` (the length when there is none).
pub open spec fn msg_index(s: Seq<MessageDto>, id: u128) -> int
    decreases s.len(),
{
    if s.len() == 0 || s[0].id == id {
        0
    } else {
        1 + msg_index(s.drop_first(), id)
    }
}

proof fn lemma_msg_index(s: Seq<MessageDto>, id: u128, i: int)
    requires
        0 <= i <= s.len(),
        forall|j: int| 0 <= j < i ==> (#[trigger] s[j]).id != id,
        i == s.len() || s[i].id == id,
    ensures
        msg_index(s, id) == i,
    decreases s.len(),
{
    if s.len() > 0 && s[0].id != id {
        let t = s.drop_first();
        assert forall|j: int| 0 <= j < i - 1 implies (#[trigger] t[j]).id != id by {
            assert(t[j] == s[j + 1]);
        }
        if i < s.len() {
            assert(t[i - 1] == s[i]);
        }
        lemma_msg_index(t, id, i - 1);
    }
}

/// The index of the first message with id `id`, or the length.
pub fn find_message(s: &Vec<MessageDto>, id: u128) -> (i: usize)
    ensures
        i == msg_index(s@, id),
        i <= s.len(),
{
    let mut i: usize = 0;
    while i < s.len() && s[i].id != id
        invariant
            i <= s.len(),
            forall|j: int| 0 <= j < i ==> (#[trigger] s@[j]).id != id,
        decreases s.len() - i,
    {
        i = i + 1;
    }
    proof {
        lemma_msg_index(s@, id, i as int);
    }
    i
}

/// Whether `m` carries the client message id `key`.
pub open spec fn has_client_id(m: MessageDto, key: Seq<char>) -> bool {
    match m.client_msg_id {
        Some(c) => c@ == key,
        None => false,
    }
}

/// The index of the first message carrying client id `key` (the length when none does).
pub open spec fn client_index(s: Seq<MessageDto>, key: Seq<char>) -> int
    decreases s.len(),
{
    if s.len() == 0 || has_client_id(s[0], key) {
        0
    } else {
        1 + client_index(s.drop_first(), key)
    }
}

proof fn lemma_client_index(s: Seq<MessageDto>, key: Seq<char>, i: int)
    requires
        0 <= i <= s.len(),
        forall|j: int| 0 <= j < i ==> !has_client_id(#[trigger] s[j], key),
        i == s.len() || has_client_id(s[i], key),
    ensures
        client_index(s, key) == i,
    decreases s.len(),
{
    if s.len() > 0 && !has_client_id(s[0], key) {
        let t = s.drop_first();
        assert forall|j: int| 0 <= j < i - 1 implies !has_client_id(#[trigger] t[j], key) by {
            assert(t[j] == s[j + 1]);
        }
        if i < s.len() {
            assert(t[i - 1] == s[i]);
        }
        lemma_client_index(t, key, i - 1);
    }
}

/// Whether `m` carries the client message id `key`.
pub fn carries_client_id(m: &MessageDto, key: &String) -> (r: bool)
    ensures
        r == has_client_id(*m, key@),
{
    match &m.client_msg_id {
        Some(c) => *c == *key,
        None => false,
    }
}

/// The index of the first message carrying client id `key`, or the length.
pub fn find_client_message(s: &Vec<MessageDto>, key: &String) -> (i: usize)
    ensures
        i == client_index(s@, key@),
        i <= s.len(),
{
    let mut i: usize = 0;
    while i < s.len() && !carries_client_id(&s[i], key)
        invariant
            i <= s.len(),
            forall|j: int| 0 <= j < i ==> !has_client_id(#[trigger] s@[j], key@),
        decreases s.len() - i,
    {
        i = i + 1;
    }
    proof {
        lemma_client_index(s@, key@, i as int);
    }
    i
}

/// `s` without the messages of id `id`.
pub open spec fn remove_msg_id(s: Seq<MessageDto>, id: u128) -> Seq<MessageDto>
    decreases s.len(),
{
    if s.len() == 0 {
        Seq::empty()
    } else if s.last().id == id {
        remove_msg_id(s.drop_last(), id)
    } else {
        remove_msg_id(s.drop_last(), id).push(s.last())
    }
}

/// `s` without the messages carrying client id `key`.
pub open spec fn remove_client(s: Seq<MessageDto>, key: Seq<char>) -> Seq<MessageDto>
    decreases s.len(),
{
    if s.len() == 0 {
        Seq::empty()
    } else if has_client_id(s.last(), key) {
        remove_client(s.drop_last(), key)
    } else {
        remove_client(s.drop_last(), key).push(s.last())
    }
}

/// `s.retain(|m| m.id != id)`.
pub fn retain_not_id(s: Vec<MessageDto>, id: u128) -> (r: Vec<MessageDto>)
    ensures
        r@ == remove_msg_id(s@, id),
{
    let mut out: Vec<MessageDto> = Vec::new();
    let mut i: usize = 0;
    while i < s.len()
        invariant
            i <= s.len(),
            out@ == remove_msg_id(s@.take(i as int), id),
        decreases s.len() - i,
    {
        proof {
            assert(s@.take(i + 1).drop_last() =~= s@.take(i as int));
            assert(s@.take(i + 1).last() == s@[i as int]);
        }
        if s[i].id != id {
            out.push(s[i].duplicate());
        }
        i = i + 1;
    }
    proof {
        assert(s@.take(s.len() as int) =~= s@);
    }
    out
}

/// `s.retain(|m| m.client_msg_id.as_ref() != Some(key))`.
pub fn retain_not_client(s: Vec<MessageDto>, key: &String) -> (r: Vec<MessageDto>)
    ensures
        r@ == remove_client(s@, key@),
{
    let mut out: Vec<MessageDto> = Vec::new();
    let mut i: usize = 0;
    while i < s.len()
        invariant
            i <= s.len(),
            out@ == remove_client(s@.take(i as int), key@),
        decreases s.len() - i,
    {
        proof {
            assert(s@.take(i + 1).drop_last() =~= s@.take(i as int));
            assert(s@.take(i + 1).last() == s@[i as int]);
        }
        if !carries_client_id(&s[i], key) {
            out.push(s[i].duplicate());
        }
        i = i + 1;
    }
    proof {
        assert(s@.take(s.len() as int) =~= s@);
    }
    out
}

/// Takes the contents of `v`, leaving it empty.
pub fn take_vec<T>(v: &mut Vec<T>) -> (r: Vec<T>)
    ensures
        r@ == old(v)@,
        final(v)@ == Seq::<T>::empty(),
{
    let mut tmp: Vec<T> = Vec::new();
    std::mem::swap(v, &mut tmp);
    tmp
}

/// `s` keeping only the first message of each id, in order.
pub open spec fn dedup_msgs(s: Seq<MessageDto>) -> Seq<MessageDto>
    decreases s.len(),
{
    if s.len() == 0 {
        Seq::empty()
    } else if has_id(s.drop_last(), s.last().id) {
        dedup_msgs(s.drop_last())
    } else {
        dedup_msgs(s.drop_last()).push(s.last())
    }
}

/// Whether one of the first `n` messages of `s` has id `id`.
fn seen_before(s: &Vec<MessageDto>, n: usize, id: u128) -> (r: bool)
    requires
        n <= s.len(),
    ensures
        r == has_id(s@.take(n as int), id),
{
    let mut j: usize = 0;
    while j < n
        invariant
            n <= s.len(),
            j <= n,
            forall|k: int| 0 <= k < j ==> (#[trigger] s@[k]).id != id,
        decreases n - j,
    {
        if s[j].id == id {
            assert(s@.take(n as int)[j as int] == s@[j as int]);
            return true;
        }
        j = j + 1;
    }
    proof {
        if has_id(s@.take(n as int), id) {
            let k = choose|k: int| 0 <= k < n && (#[trigger] s@.take(n as int)[k]).id == id;
            assert(s@.take(n as int)[k] == s@[k]);
        }
    }
    false
}

/// `s` keeping only the first message of each id.
pub fn dedup_messages(s: Vec<MessageDto>) -> (r: Vec<MessageDto>)
    ensures
        r@ == dedup_msgs(s@),
{
    let mut out: Vec<MessageDto> = Vec::new();
    let mut i: usize = 0;
    while i < s.len()
        invariant
            i <= s.len(),
            out@ == dedup_msgs(s@.take(i as int)),
        decreases s.len() - i,
    {
        proof {
            assert(s@.take(i + 1).drop_last() =~= s@.take(i as int));
            assert(s@.take(i + 1).last() == s@[i as int]);
        }
        if !seen_before(&s, i, s[i].id) {
            out.push(s[i].duplicate());
        }
        i = i + 1;
    }
    proof {
        assert(s@.take(s.len() as int) =~= s@);
    }
    out
}

/// A copy of `s`, message by message.
pub fn copy_messages(s: &Vec<MessageDto>) -> (r: Vec<MessageDto>)
    ensures
        r@ == s@,
{
    let mut out: Vec<MessageDto> = Vec::new();
    let mut i: usize = 0;
    while i < s.len()
        invariant
            i <= s.len(),
            out@ == s@.take(i as int),
        decreases s.len() - i,
    {
        out.push(s[i].duplicate());
        proof {
            assert(out@ =~= s@.take(i + 1));
        }
        i = i + 1;
    }
    proof {
        assert(s@.take(s.len() as int) =~= s@);
    }
    out
}

} // verus!
