//! Figures about the state, for diagnostics: how many messages are cached, and a summary
//! of the state's sizes.
use vstd::prelude::*;
use crate::maps::map_keys;
use crate::model::MessageDto;
use crate::state::AppState;
use crate::text::{decimal, u64_to_text};
use crate::view::AppView;

verus! {

/// The number of messages cached for the conversations `ks`, in the caches `m`.
pub open spec fn cached_count(ks: Seq<u128>, m: Map<u128, Seq<MessageDto>>) -> int
    decreases ks.len(),
{
    if ks.len() == 0 {
        0
    } else {
        cached_count(ks.drop_last(), m) + m[ks.last()].len()
    }
}

/// The number of messages cached over all conversations of `a`, counting each
/// conversation once (the count, at most `usize::MAX`, does not depend on the order).
pub open spec fn total_cached(a: AppView, r: usize) -> bool {
    exists|ks: Seq<u128>| {
        &&& ks.to_set() == a.data.conversation_messages.dom()
        &&& ks.no_duplicates()
        &&& r == (if #[trigger] cached_count(ks, a.data.conversation_messages) <= usize::MAX {
            cached_count(ks, a.data.conversation_messages)
        } else {
            usize::MAX as int
        })
    }
}

/// The text of a flag: "true" or "false".
pub open spec fn flag_text(b: bool) -> Seq<char> {
    if b { "true"@ } else { "false"@ }
}

impl AppState {
    /// How many messages are cached over all conversations (at most `usize::MAX`).
    pub fn get_total_cached_messages(&self) -> (r: usize)
        ensures
            total_cached(self@, r),
    {
        let ks = map_keys(&self.data.conversation_messages);
        let ghost m = self@.data.conversation_messages;
        let mut total: usize = 0;
        let mut i: usize = 0;
        while i < ks.len()
            invariant
                i <= ks.len(),
                m == self@.data.conversation_messages,
                ks@.to_set() == m.dom(),
                total == (if cached_count(ks@.take(i as int), m) <= usize::MAX {
                    cached_count(ks@.take(i as int), m)
                } else {
                    usize::MAX as int
                }),
            decreases ks.len() - i,
        {
            let k = ks[i];
            proof {
                assert(ks@.take(i + 1).drop_last() =~= ks@.take(i as int));
                assert(ks@.take(i + 1).last() == k);
                assert(ks@.to_set().contains(k));
            }
            let n: usize = match self.data.conversation_messages.get(&k) {
                Some(v) => v.len(),
                None => 0,
            };
            total = total.saturating_add(n);
            i = i + 1;
        }
        proof {
            assert(ks@.take(ks.len() as int) =~= ks@);
        }
        total
    }

    /// A summary of the state's sizes, as (name, value) texts: the conversations, the
    /// cached messages, the DM and group stubs, and whether a user check is under way.
    pub fn get_debug_info(&self) -> (r: Vec<(String, String)>)
        ensures
            r@.len() == 5,
            r@[0].0@ == "conversations"@ && r@[0].1@ == decimal(match self@.data.conversations {
                Some(l) => l.len(),
                None => 0,
            }),
            r@[1].0@ == "cached_messages"@ && exists|n: usize| total_cached(self@, n) && r@[1].1@ == decimal(n as nat),
            r@[2].0@ == "dm_stubs"@ && r@[2].1@ == decimal(self@.stubs.dm_stubs.len()),
            r@[3].0@ == "group_stubs"@ && r@[3].1@ == decimal(self@.stubs.group_stubs.len()),
            r@[4].0@ == "pending_user_check"@ && r@[4].1@ == flag_text(self@.pending.pending_user_check is Some),
    {
        broadcast use vstd::std_specs::hash::group_hash_axioms;
        let convs: usize = match &self.data.conversations {
            Some(l) => l.len(),
            None => 0,
        };
        let cached = self.get_total_cached_messages();
        let flag = if self.pending.pending_user_check.is_some() {
            String::from_str("true")
        } else {
            String::from_str("false")
        };
        let mut r: Vec<(String, String)> = Vec::new();
        r.push((String::from_str("conversations"), u64_to_text(convs as u64)));
        r.push((String::from_str("cached_messages"), u64_to_text(cached as u64)));
        r.push((String::from_str("dm_stubs"), u64_to_text(self.stubs.dm_stubs.len() as u64)));
        r.push((String::from_str("group_stubs"), u64_to_text(self.stubs.group_stubs.len() as u64)));
        r.push((String::from_str("pending_user_check"), flag));
        r
    }
}

} // verus!
