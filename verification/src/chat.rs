//! Sending a chat message from the input box: the message shows at once, waits for the
//! server's confirmation under a fresh client id, and goes out on the WebSocket.
use vstd::prelude::*;
use crate::commands::ws_send_app;
use crate::external::{new_uuid, uuid_text, uuid_to_string};
use crate::messages::{lemma_pending_index, pending_index};
use crate::model::{MessageDto, Outgoing};
use crate::state::AppState;
use crate::text::{trim, trimmed};
use crate::view::{AppView, ChatModel, DataModel, PendingModel};

use crate::laws::{keys_distinct, lemma_pending_set_distinct};

verus! {

/// `ps` with `m` waiting under client id `key`: an entry with that id is replaced,
/// otherwise one is added at the end (a map kept as a list).
pub open spec fn pending_set(ps: Seq<(String, MessageDto)>, key: String, m: MessageDto) -> Seq<(String, MessageDto)> {
    let i = pending_index(ps, key@);
    if i < ps.len() { ps.update(i, (key, m)) } else { ps.push((key, m)) }
}

fn set_pending(ps: &mut Vec<(String, MessageDto)>, key: String, m: MessageDto)
    ensures
        final(ps)@ == pending_set(old(ps)@, key, m),
{
    let mut i: usize = 0;
    while i < ps.len()
        invariant
            ps@ == old(ps)@,
            i <= ps.len(),
            forall|j: int| 0 <= j < i ==> (#[trigger] ps@[j]).0@ != key@,
        decreases ps.len() - i,
    {
        if ps[i].0 == key {
            proof {
                lemma_pending_index(ps@, key@, i as int);
            }
            ps.set(i, (key, m));
            return;
        }
        i = i + 1;
    }
    proof {
        lemma_pending_index(ps@, key@, ps.len() as int);
    }
    ps.push((key, m));
}

/// `m` is the copy of message `text` that user `uid`, named `name`, sends to conversation
/// `cid` under client id `key`, shown before the server confirms it.
pub open spec fn is_optimistic(m: MessageDto, uid: u128, name: String, cid: u128, text: String, key: String) -> bool {
    &&& m.author_id == uid
    &&& m.author_username == name
    &&& m.conversation_id == cid
    &&& m.content == text
    &&& m.sequence_num is None
    &&& m.client_msg_id == Some(key)
    &&& m.is_confirmed == Some(false)
}

/// The state after the optimistic copy `m` is shown, waits under `key`, and joins the
/// cache of `cid` when there is one.
pub open spec fn shown_app(a: AppView, cid: u128, key: String, m: MessageDto) -> AppView {
    AppView {
        pending: PendingModel { pending_confirmations: pending_set(a.pending.pending_confirmations, key, m), ..a.pending },
        view: ChatModel { messages: a.view.messages.push(m), ..a.view },
        data: DataModel {
            conversation_messages: if a.data.conversation_messages.contains_key(cid) {
                a.data.conversation_messages.insert(cid, a.data.conversation_messages[cid].push(m))
            } else {
                a.data.conversation_messages
            },
            ..a.data
        },
        ..a
    }
}

/// `b` is `a` after the user sends the text `text` (the trimmed input) to conversation
/// `cid` under client id `key`, `m` being the optimistic copy: the input is cleared, the
/// copy is shown when the user is known, and the message goes to the open conversation.
pub open spec fn sent_app(a: AppView, b: AppView, cid: u128, text: String, key: String, m: MessageDto) -> bool {
    let a1 = AppView { view: ChatModel { input: Seq::empty(), ..a.view }, ..a };
    let a3 = match a.session.user_id {
        Some(uid) => shown_app(a1, cid, key, m),
        None => a1,
    };
    &&& (a.session.user_id matches Some(uid) ==> is_optimistic(m, uid, a.session.username, cid, text, key))
    &&& b == match a3.view.cid {
        Some(c) => ws_send_app(a3, Outgoing::ChatMessage {
            cid: c,
            content: text,
            target_username: if a3.stubs.dm_stubs.contains_key(c) { Some(a3.stubs.dm_stubs[c].0) } else { None },
            target_usernames: None,
            client_msg_id: Some(key),
        }),
        None => a3,
    }
}

impl AppState {
    fn clear_input(&mut self)
        ensures
            final(self)@ == (AppView { view: ChatModel { input: Seq::empty(), ..old(self)@.view }, ..old(self)@ }),
    {
        self.view.input = String::new();
    }

    fn show_optimistic(&mut self, cid: u128, key: String, m: MessageDto)
        ensures
            final(self)@ == shown_app(old(self)@, cid, key, m),
    {
        set_pending(&mut self.pending.pending_confirmations, key, m.duplicate());
        self.view.messages.push(m.duplicate());
        if self.data.conversation_messages.contains_key(&cid) {
            let mut list = crate::cache::take_cache(&mut self.data.conversation_messages, cid);
            list.push(m);
            self.data.conversation_messages.insert(cid, list);
            proof {
                assert(self@.data.conversation_messages =~= old(self)@.data.conversation_messages.insert(
                    cid,
                    old(self)@.data.conversation_messages[cid].push(m),
                ));
            }
        }
    }

    /// Sends the text of the input box to conversation `cid`: a blank text does nothing;
    /// otherwise the input is cleared, the message is shown at once and waits for the
    /// server's confirmation under a fresh client id, and it goes out on the WebSocket.
    pub fn send_message(&mut self, cid: u128)
        ensures
            trim(old(self)@.view.input).len() == 0 ==> final(self)@ == old(self)@,
            trim(old(self)@.view.input).len() > 0 ==> exists|text: String, key: String, m: MessageDto| {
                &&& text@ == trim(old(self)@.view.input)
                &&& (exists|id: u128| key@ == #[trigger] uuid_text(id))
                &&& #[trigger] sent_app(old(self)@, final(self)@, cid, text, key, m)
            },
            keys_distinct(old(self)@.pending.pending_confirmations) ==> keys_distinct(
                final(self)@.pending.pending_confirmations,
            ),
    {
        let content = trimmed(self.view.input.as_str());
        if content.as_str().is_empty() {
            return;
        }
        self.clear_input();
        let id = new_uuid();
        let key = uuid_to_string(id);
        let ghost mut m: MessageDto = arbitrary();
        if let Some(uid) = self.session.user_id {
            let msg = MessageDto::optimistic_message(uid, self.session.username.clone(), cid, content.clone(), key.clone());
            proof {
                m = msg;
            }
            proof {
                if keys_distinct(self@.pending.pending_confirmations) {
                    lemma_pending_set_distinct(self@.pending.pending_confirmations, key, msg);
                }
            }
            self.show_optimistic(cid, key.clone(), msg);
        }
        let ghost a = old(self)@;
        let ghost a3 = self@;
        let ghost text = content;
        let ghost k = key;
        self.send_chat_message_ws(content, Some(key));
        proof {
            assert(sent_app(a, self@, cid, text, k, m));
        }
    }
}

} // verus!
