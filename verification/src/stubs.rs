//! Conversations created locally that wait for the server: DM and group stubs.
use vstd::prelude::*;
use crate::convlist::{remove_conv, without_conversation};
use crate::external::now_millis;
use crate::maps::map_keys;
use crate::model::{ConversationDto, ErrorType, Page, UiEvent};
use crate::state::{AppState, STUB_TIMEOUT_MS};
use crate::view::{AppView, ChatModel, DataModel, StubsModel};

verus! {

/// The state with DM stub `stub_id` towards `target` created at time `t`.
pub open spec fn with_dm_stub(a: AppView, stub_id: u128, target: String, t: i64) -> AppView {
    AppView { stubs: StubsModel { dm_stubs: a.stubs.dm_stubs.insert(stub_id, (target, t)), ..a.stubs }, ..a }
}


/// Whether a stub created at `created` has waited too long at `now` (milliseconds).
pub open spec fn stub_expired(created: i64, now: i64) -> bool {
    now - created > STUB_TIMEOUT_MS
}

/// The stubs of `m` that have waited too long at `now`.
pub open spec fn expired_stubs(m: Map<u128, (String, i64)>, now: i64) -> Set<u128> {
    Set::new(|id: u128| m.contains_key(id) && stub_expired(m[id].1, now))
}

/// `l` without the conversations whose id is in `ids`, in order.
pub open spec fn without_ids(l: Seq<ConversationDto>, ids: Set<u128>) -> Seq<ConversationDto>
    decreases l.len(),
{
    if l.len() == 0 {
        Seq::empty()
    } else if ids.contains(l.last().id) {
        without_ids(l.drop_last(), ids)
    } else {
        without_ids(l.drop_last(), ids).push(l.last())
    }
}

/// The group stubs (`group`) or the DM stubs.
pub open spec fn stub_map(a: AppView, group: bool) -> Map<u128, (String, i64)> {
    if group { a.stubs.group_stubs } else { a.stubs.dm_stubs }
}

/// The state with `m` as its group stubs (`group`) or its DM stubs.
pub open spec fn with_stub_map(a: AppView, group: bool, m: Map<u128, (String, i64)>) -> AppView {
    if group {
        AppView { stubs: StubsModel { group_stubs: m, ..a.stubs }, ..a }
    } else {
        AppView { stubs: StubsModel { dm_stubs: m, ..a.stubs }, ..a }
    }
}

/// What is reported when a group stub (`group`) or a DM stub expires.
pub open spec fn stub_error(group: bool) -> UiEvent {
    if group { UiEvent::Error(ErrorType::GroupCreate) } else { UiEvent::Error(ErrorType::MessageSend) }
}

/// `n` times the event `e`.
pub open spec fn n_events(e: UiEvent, n: nat) -> Seq<UiEvent> {
    Seq::new(n, |i: int| e)
}

/// The state after the stubs `ids` (group stubs when `group`) are given up: they leave
/// the stubs, the list and the cache; if one of them was open, the list is shown; one
/// error is reported for each.
pub open spec fn drop_ids_app(a: AppView, ids: Set<u128>, group: bool) -> AppView {
    let a1 = AppView {
        data: DataModel {
            conversations: match a.data.conversations {
                Some(l) => Some(without_ids(l, ids)),
                None => None,
            },
            conversation_messages: a.data.conversation_messages.remove_keys(ids),
            ..a.data
        },
        ui_events: a.ui_events + n_events(stub_error(group), ids.len()),
        ..a
    };
    let a2 = with_stub_map(a1, group, stub_map(a, group).remove_keys(ids));
    match a.view.cid {
        Some(c) if ids.contains(c) => AppView {
            view: ChatModel { cid: None, page: Page::Conversations, messages: Seq::empty(), conv_title: Seq::empty(), ..a2.view },
            ..a2
        },
        _ => a2,
    }
}

/// The state after the stubs of one kind that have waited too long at `now` are given up.
pub open spec fn expire_kind_app(a: AppView, now: i64, group: bool) -> AppView {
    drop_ids_app(a, expired_stubs(stub_map(a, group), now), group)
}

/// The state after the group stubs, then the DM stubs, that have waited too long at
/// `now` are given up.
pub open spec fn stubs_expired_app(a: AppView, now: i64) -> AppView {
    expire_kind_app(expire_kind_app(a, now, true), now, false)
}

proof fn lemma_without_ids_insert(l: Seq<ConversationDto>, ids: Set<u128>, k: u128)
    ensures
        without_ids(l, ids.insert(k)) == remove_conv(without_ids(l, ids), k),
    decreases l.len(),
{
    if l.len() > 0 {
        lemma_without_ids_insert(l.drop_last(), ids, k);
        let r = without_ids(l.drop_last(), ids);
        if !ids.contains(l.last().id) {
            assert(r.push(l.last()).drop_last() =~= r);
        }
    }
}

proof fn lemma_without_none(l: Seq<ConversationDto>)
    ensures
        without_ids(l, Set::empty()) == l,
    decreases l.len(),
{
    if l.len() > 0 {
        lemma_without_none(l.drop_last());
        assert(l.drop_last().push(l.last()) =~= l);
    }
}

proof fn lemma_drop_none(a: AppView, group: bool)
    ensures
        drop_ids_app(a, Set::empty(), group) == a,
{
    match a.data.conversations {
        Some(l) => lemma_without_none(l),
        None => {},
    }
    let b = drop_ids_app(a, Set::empty(), group);
    assert(Set::<u128>::empty().len() == 0);
    assert(b.ui_events =~= a.ui_events);
    assert(b.data.conversation_messages =~= a.data.conversation_messages);
    assert(stub_map(a, group).remove_keys(Set::empty()) =~= stub_map(a, group));
    assert(b.stubs == a.stubs);
}

proof fn lemma_drop_one_more(a: AppView, ids: Set<u128>, k: u128, group: bool)
    requires
        ids.finite(),
        !ids.contains(k),
    ensures
        drop_ids_app(a, ids.insert(k), group) == drop_one_app(drop_ids_app(a, ids, group), k, group),
{
    let b = drop_ids_app(a, ids, group);
    let c = drop_ids_app(a, ids.insert(k), group);
    let d = drop_one_app(b, k, group);
    match a.data.conversations {
        Some(l) => lemma_without_ids_insert(l, ids, k),
        None => {},
    }
    assert(ids.insert(k).len() == ids.len() + 1);
    assert(c.ui_events =~= d.ui_events);
    assert(c.data.conversation_messages =~= d.data.conversation_messages);
    assert(stub_map(a, group).remove_keys(ids.insert(k)) =~= stub_map(a, group).remove_keys(ids).remove(k));
    assert(c == d);
}

/// The state after stub `k` (a group stub when `group`) is given up.
pub open spec fn drop_one_app(a: AppView, k: u128, group: bool) -> AppView {
    let a1 = AppView {
        data: DataModel {
            conversations: match a.data.conversations {
                Some(l) => Some(remove_conv(l, k)),
                None => None,
            },
            conversation_messages: a.data.conversation_messages.remove(k),
            ..a.data
        },
        ui_events: a.ui_events.push(stub_error(group)),
        ..a
    };
    let a2 = with_stub_map(a1, group, stub_map(a, group).remove(k));
    if a.view.cid == Some(k) {
        AppView {
            view: ChatModel { cid: None, page: Page::Conversations, messages: Seq::empty(), conv_title: Seq::empty(), ..a2.view },
            ..a2
        }
    } else {
        a2
    }
}

/// Gives up stub `k` (a group stub when `group`).
fn drop_one(state: &mut AppState, k: u128, group: bool)
    ensures
        final(state)@ == drop_one_app(old(state)@, k, group),
{
    if group {
        let _ = state.stubs.group_stubs.remove(&k);
    } else {
        let _ = state.stubs.dm_stubs.remove(&k);
    }
    if let Some(l) = state.data.conversations.take() {
        state.data.conversations = Some(without_conversation(l, k));
    }
    let _ = state.data.conversation_messages.remove(&k);
    proof {
        assert(state@.data.conversation_messages =~= old(state)@.data.conversation_messages.remove(k));
    }
    if state.view.cid == Some(k) {
        state.view.cid = None;
        state.view.page = Page::Conversations;
        state.view.messages = Vec::new();
        state.view.conv_title = String::new();
    }
    if group {
        state.send_ui_event(UiEvent::Error(ErrorType::GroupCreate));
    } else {
        state.send_ui_event(UiEvent::Error(ErrorType::MessageSend));
    }
}

/// Gives up, at `now`, the stubs of one kind that waited too long.
fn expire_kind(state: &mut AppState, now: i64, group: bool)
    ensures
        final(state)@ == expire_kind_app(old(state)@, now, group),
{
    let ghost a = state@;
    let keys = if group { map_keys(&state.stubs.group_stubs) } else { map_keys(&state.stubs.dm_stubs) };
    let ghost m = stub_map(a, group);
    let ghost ids = expired_stubs(m, now);
    let ghost mut done: Set<u128> = Set::empty();
    proof {
        lemma_drop_none(a, group);
        assert(keys@.take(0) =~= Seq::<u128>::empty());
    }
    let mut i: usize = 0;
    while i < keys.len()
        invariant
            i <= keys.len(),
            keys@.to_set() == m.dom(),
            keys@.no_duplicates(),
            m == stub_map(a, group),
            ids == expired_stubs(m, now),
            done.finite(),
            done =~= ids.intersect(keys@.take(i as int).to_set()),
            state@ == drop_ids_app(a, done, group),
        decreases keys.len() - i,
    {
        let k = keys[i];
        proof {
            assert(keys@.take(i + 1) =~= keys@.take(i as int).push(k));
            keys@.take(i as int).lemma_push_to_set_commute(k);
            assert(keys@.to_set().contains(k));
            assert(!keys@.take(i as int).to_set().contains(k)) by {
                if keys@.take(i as int).to_set().contains(k) {
                    let j = choose|j: int| 0 <= j < i && keys@.take(i as int)[j] == k;
                    assert(keys@[j] == keys@[i as int]);
                }
            }
        }
        let created = if group {
            match state.stubs.group_stubs.get(&k) {
                Some(e) => e.1,
                None => now,
            }
        } else {
            match state.stubs.dm_stubs.get(&k) {
                Some(e) => e.1,
                None => now,
            }
        };
        proof {
            assert(stub_map(state@, group) == m.remove_keys(done));
        }
        if (now as i128) - (created as i128) > STUB_TIMEOUT_MS as i128 {
            proof {
                lemma_drop_one_more(a, done, k, group);
            }
            drop_one(state, k, group);
            proof {
                done = done.insert(k);
            }
        }
        i = i + 1;
    }
    proof {
        assert(keys@.take(keys.len() as int) =~= keys@);
        assert(done =~= ids);
    }
}

impl AppState {
    /// Records the DM stub `stub_id` towards `target_username`, created now.
    pub fn add_dm_stub(&mut self, stub_id: u128, target_username: String)
        ensures
            exists|t: i64| final(self)@ == #[trigger] with_dm_stub(old(self)@, stub_id, target_username, t),
    {
        let now = now_millis();
        let ghost a = old(self)@;
        let ghost target = target_username;
        self.stubs.dm_stubs.insert(stub_id, (target_username, now));
        assert(self@ == with_dm_stub(a, stub_id, target, now));
    }

    /// Forgets the DM stub `conversation_id`, if there is one.
    pub fn remove_dm_stub(&mut self, conversation_id: u128)
        ensures
            final(self)@ == (AppView {
                stubs: StubsModel { dm_stubs: old(self)@.stubs.dm_stubs.remove(conversation_id), ..old(self)@.stubs },
                ..old(self)@
            }),
    {
        let _ = self.stubs.dm_stubs.remove(&conversation_id);
    }

    /// Whether `conversation_id` is a DM stub.
    pub fn is_dm_stub(&self, conversation_id: u128) -> (r: bool)
        ensures
            r == self@.stubs.dm_stubs.contains_key(conversation_id),
    {
        self.stubs.dm_stubs.contains_key(&conversation_id)
    }

    /// Whether `conversation_id` is a group stub.
    pub fn is_group_stub(&self, conversation_id: u128) -> (r: bool)
        ensures
            r == self@.stubs.group_stubs.contains_key(conversation_id),
    {
        self.stubs.group_stubs.contains_key(&conversation_id)
    }
    /// Gives up, at `now` (milliseconds), the group stubs and then the DM stubs that waited
    /// longer than `STUB_TIMEOUT_MS` for the server.
    pub fn cleanup_expired_stubs_at(&mut self, now: i64)
        ensures
            final(self)@ == stubs_expired_app(old(self)@, now),
    {
        expire_kind(self, now, true);
        expire_kind(self, now, false);
    }

    /// Gives up the stubs that waited too long for the server.
    pub fn cleanup_expired_stubs(&mut self)
        ensures
            exists|now: i64| now >= 0 && final(self)@ == #[trigger] stubs_expired_app(old(self)@, now),
    {
        let now = now_millis();
        self.cleanup_expired_stubs_at(now);
    }
}

} // verus!
