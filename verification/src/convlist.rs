//! Operations on the conversation list.
use vstd::prelude::*;
use crate::model::ConversationDto;

verus! {

/// Whether a conversation with id `id` is in `s`.
pub open spec fn has_conv(s: Seq<ConversationDto>, id: u128) -> bool {
    exists|i: int| 0 <= i < s.len() && (#[trigger] s[i]).id == id
}

/// How many conversations of `s` have id `id`.
pub open spec fn count_id(s: Seq<ConversationDto>, id: u128) -> nat
    decreases s.len(),
{
    if s.len() == 0 {
        0
    } else {
        count_id(s.drop_last(), id) + (if s.last().id == id { 1nat } else { 0nat })
    }
}

/// `s` keeping only the first conversation of each id, in order.
pub open spec fn dedup_convs(s: Seq<ConversationDto>) -> Seq<ConversationDto>
    decreases s.len(),
{
    if s.len() == 0 {
        Seq::empty()
    } else if has_conv(s.drop_last(), s.last().id) {
        dedup_convs(s.drop_last())
    } else {
        dedup_convs(s.drop_last()).push(s.last())
    }
}

/// `s` without the conversations of id `id`, in order.
pub open spec fn remove_conv(s: Seq<ConversationDto>, id: u128) -> Seq<ConversationDto>
    decreases s.len(),
{
    if s.len() == 0 {
        Seq::empty()
    } else if s.last().id == id {
        remove_conv(s.drop_last(), id)
    } else {
        remove_conv(s.drop_last(), id).push(s.last())
    }
}

pub proof fn lemma_dedup_ids(s: Seq<ConversationDto>)
    ensures
        forall|id: u128| has_conv(dedup_convs(s), id) == has_conv(s, id),
    decreases s.len(),
{
    if s.len() > 0 {
        let p = s.drop_last();
        lemma_dedup_ids(p);
        assert forall|id: u128| has_conv(dedup_convs(s), id) == has_conv(s, id) by {
            if has_conv(s, id) {
                let i = choose|i: int| 0 <= i < s.len() && (#[trigger] s[i]).id == id;
                if i < s.len() - 1 {
                    assert(p[i] == s[i]);
                    assert(has_conv(p, id));
                }
            }
            if has_conv(p, id) {
                let i = choose|i: int| 0 <= i < p.len() && (#[trigger] p[i]).id == id;
                assert(s[i] == p[i]);
            }
            if !has_conv(p, s.last().id) {
                let d = dedup_convs(p);
                if has_conv(d, id) {
                    let i = choose|i: int| 0 <= i < d.len() && (#[trigger] d[i]).id == id;
                    assert(d.push(s.last())[i] == d[i]);
                }
                if id == s.last().id {
                    assert(d.push(s.last())[d.len() as int] == s.last());
                }
                if has_conv(d.push(s.last()), id) {
                    let i = choose|i: int| 0 <= i < d.len() + 1 && (#[trigger] d.push(s.last())[i]).id == id;
                    if i < d.len() {
                        assert(d.push(s.last())[i] == d[i]);
                    }
                }
            }
        }
    }
}

/// How many conversations of `s` have id `id`.
pub fn count_conversations(s: &Vec<ConversationDto>, id: u128) -> (n: usize)
    ensures
        n == count_id(s@, id),
{
    let mut n: usize = 0;
    let mut i: usize = 0;
    while i < s.len()
        invariant
            i <= s.len(),
            n == count_id(s@.take(i as int), id),
            n <= i,
        decreases s.len() - i,
    {
        proof {
            assert(s@.take(i + 1).drop_last() =~= s@.take(i as int));
        }
        if s[i].id == id {
            n = n + 1;
        }
        i = i + 1;
    }
    proof {
        assert(s@.take(s.len() as int) =~= s@);
    }
    n
}

/// Whether `s` holds a conversation of id `id`.
pub fn contains_conversation(s: &Vec<ConversationDto>, id: u128) -> (r: bool)
    ensures
        r == has_conv(s@, id),
{
    let mut i: usize = 0;
    while i < s.len()
        invariant
            i <= s.len(),
            forall|j: int| 0 <= j < i ==> (#[trigger] s@[j]).id != id,
        decreases s.len() - i,
    {
        if s[i].id == id {
            return true;
        }
        i = i + 1;
    }
    false
}

/// `s` keeping only the first conversation of each id.
pub fn dedup_conversations(s: Vec<ConversationDto>) -> (r: Vec<ConversationDto>)
    ensures
        r@ == dedup_convs(s@),
{
    let mut out: Vec<ConversationDto> = Vec::new();
    let mut i: usize = 0;
    while i < s.len()
        invariant
            i <= s.len(),
            out@ == dedup_convs(s@.take(i as int)),
        decreases s.len() - i,
    {
        let ghost p = s@.take(i as int);
        proof {
            assert(s@.take(i + 1).drop_last() =~= p);
            assert(s@.take(i + 1).last() == s@[i as int]);
            lemma_dedup_ids(p);
        }
        if !contains_conversation(&out, s[i].id) {
            out.push(s[i].duplicate());
        }
        i = i + 1;
    }
    proof {
        assert(s@.take(s.len() as int) =~= s@);
    }
    out
}

/// `s` without the conversations of id `id`.
pub fn without_conversation(s: Vec<ConversationDto>, id: u128) -> (r: Vec<ConversationDto>)
    ensures
        r@ == remove_conv(s@, id),
{
    let mut out: Vec<ConversationDto> = Vec::new();
    let mut i: usize = 0;
    while i < s.len()
        invariant
            i <= s.len(),
            out@ == remove_conv(s@.take(i as int), id),
        decreases s.len() - i,
    {
        proof {
            assert(s@.take(i + 1).drop_last() =~= s@.take(i as int));
            assert(s@.take(i + 1).last() == s@[i as int]);
        }
        if s[i].id != id {
            out.push(s[i].duplicate());
        }
        i = i + 1;
    }
    proof {
        assert(s@.take(s.len() as int) =~= s@);
    }
    out
}

/// A copy of the list, conversation by conversation.
pub fn copy_conversations(s: &Vec<ConversationDto>) -> (r: Vec<ConversationDto>)
    ensures
        r@ == s@,
{
    let mut out: Vec<ConversationDto> = Vec::new();
    let mut i: usize = 0;
    while i < s.len()
        invariant
            i <= s.len(),
            out@ == s@.take(i as int),
        decreases s.len() - i,
    {
        out.push(s[i].duplicate());
        proof {
            assert(out@ =~= s@.take(i + 1));
        }
        i = i + 1;
    }
    proof {
        assert(s@.take(s.len() as int) =~= s@);
    }
    out
}

/// Whether `a` goes before `b` when the list is sorted newest first.
pub open spec fn newer(a: ConversationDto, b: ConversationDto) -> bool {
    a.created_at > b.created_at
}

/// Where a stable insertion puts `e` in the list `r` sorted newest first.
pub open spec fn newer_pos(r: Seq<ConversationDto>, e: ConversationDto) -> int
    decreases r.len(),
{
    if r.len() == 0 || newer(e, r[0]) {
        0
    } else {
        1 + newer_pos(r.drop_first(), e)
    }
}

/// `s` sorted by creation time, newest first, stably: conversations created at the same
/// time keep their order.
pub open spec fn newest_first(s: Seq<ConversationDto>) -> Seq<ConversationDto>
    decreases s.len(),
{
    if s.len() == 0 {
        Seq::empty()
    } else {
        let r = newest_first(s.drop_last());
        r.insert(newer_pos(r, s.last()), s.last())
    }
}

pub proof fn lemma_newer_pos(r: Seq<ConversationDto>, e: ConversationDto, i: int)
    requires
        0 <= i <= r.len(),
        forall|j: int| 0 <= j < i ==> !newer(e, #[trigger] r[j]),
        i == r.len() || newer(e, r[i]),
    ensures
        newer_pos(r, e) == i,
    decreases r.len(),
{
    if r.len() > 0 && !newer(e, r[0]) {
        let t = r.drop_first();
        assert forall|j: int| 0 <= j < i - 1 implies !newer(e, #[trigger] t[j]) by {
            assert(t[j] == r[j + 1]);
        }
        if i < r.len() {
            assert(t[i - 1] == r[i]);
        }
        lemma_newer_pos(t, e, i - 1);
    }
}

pub proof fn lemma_newer_pos_bounds(r: Seq<ConversationDto>, e: ConversationDto)
    ensures
        0 <= newer_pos(r, e) <= r.len(),
    decreases r.len(),
{
    if r.len() > 0 && !newer(e, r[0]) {
        lemma_newer_pos_bounds(r.drop_first(), e);
    }
}

pub proof fn lemma_newest_first_len(s: Seq<ConversationDto>)
    ensures
        newest_first(s).len() == s.len(),
    decreases s.len(),
{
    if s.len() > 0 {
        lemma_newest_first_len(s.drop_last());
        lemma_newer_pos_bounds(newest_first(s.drop_last()), s.last());
    }
}

/// Sorts conversations by creation time, newest first, keeping the order of ties.
pub fn sort_newest_first(v: Vec<ConversationDto>) -> (r: Vec<ConversationDto>)
    ensures
        r@ == newest_first(v@),
{
    let mut out: Vec<ConversationDto> = Vec::new();
    let n = v.len();
    let mut i: usize = 0;
    while i < n
        invariant
            n == v.len(),
            i <= n,
            out@ == newest_first(v@.take(i as int)),
        decreases n - i,
    {
        let e = v[i].duplicate();
        let ghost r = out@;
        proof {
            assert(v@.take(i + 1).drop_last() =~= v@.take(i as int));
            assert(v@.take(i + 1).last() == e);
        }
        let mut p: usize = 0;
        while p < out.len() && !(e.created_at > out[p].created_at)
            invariant
                out@ == r,
                p <= out.len(),
                forall|j: int| 0 <= j < p ==> !newer(e, #[trigger] r[j]),
            decreases out.len() - p,
        {
            p = p + 1;
        }
        proof {
            lemma_newer_pos(r, e, p as int);
        }
        out.insert(p, e);
        i = i + 1;
    }
    proof {
        assert(v@.take(n as int) =~= v@);
    }
    out
}


/// Whether `a` goes before `b` when the list is sorted by last activity, most recent first.
pub open spec fn more_recent(a: ConversationDto, b: ConversationDto) -> bool {
    a.last_activity > b.last_activity
}

/// Where a stable insertion puts `e` in the list `r` sorted most recent first.
pub open spec fn recent_pos(r: Seq<ConversationDto>, e: ConversationDto) -> int
    decreases r.len(),
{
    if r.len() == 0 || more_recent(e, r[0]) {
        0
    } else {
        1 + recent_pos(r.drop_first(), e)
    }
}

/// `s` sorted by last activity, most recent first, stably: conversations with the same
/// activity keep their order.
pub open spec fn most_recent_first(s: Seq<ConversationDto>) -> Seq<ConversationDto>
    decreases s.len(),
{
    if s.len() == 0 {
        Seq::empty()
    } else {
        let r = most_recent_first(s.drop_last());
        r.insert(recent_pos(r, s.last()), s.last())
    }
}

pub proof fn lemma_recent_pos(r: Seq<ConversationDto>, e: ConversationDto, i: int)
    requires
        0 <= i <= r.len(),
        forall|j: int| 0 <= j < i ==> !more_recent(e, #[trigger] r[j]),
        i == r.len() || more_recent(e, r[i]),
    ensures
        recent_pos(r, e) == i,
    decreases r.len(),
{
    if r.len() > 0 && !more_recent(e, r[0]) {
        let t = r.drop_first();
        assert forall|j: int| 0 <= j < i - 1 implies !more_recent(e, #[trigger] t[j]) by {
            assert(t[j] == r[j + 1]);
        }
        if i < r.len() {
            assert(t[i - 1] == r[i]);
        }
        lemma_recent_pos(t, e, i - 1);
    }
}

/// Sorts conversations by last activity, most recent first, keeping the order of ties.
pub fn sort_most_recent_first(v: Vec<ConversationDto>) -> (r: Vec<ConversationDto>)
    ensures
        r@ == most_recent_first(v@),
{
    let mut out: Vec<ConversationDto> = Vec::new();
    let n = v.len();
    let mut i: usize = 0;
    while i < n
        invariant
            n == v.len(),
            i <= n,
            out@ == most_recent_first(v@.take(i as int)),
        decreases n - i,
    {
        let e = v[i].duplicate();
        let ghost r = out@;
        proof {
            assert(v@.take(i + 1).drop_last() =~= v@.take(i as int));
            assert(v@.take(i + 1).last() == e);
        }
        let mut p: usize = 0;
        while p < out.len() && !(e.last_activity > out[p].last_activity)
            invariant
                out@ == r,
                p <= out.len(),
                forall|j: int| 0 <= j < p ==> !more_recent(e, #[trigger] r[j]),
            decreases out.len() - p,
        {
            p = p + 1;
        }
        proof {
            lemma_recent_pos(r, e, p as int);
        }
        out.insert(p, e);
        i = i + 1;
    }
    proof {
        assert(v@.take(n as int) =~= v@);
    }
    out
}

} // verus!
