//! System messages, message validation, and small helpers shared by the handlers.
use vstd::prelude::*;
use vstd::utf8::encode_utf8;
use crate::cache::cache_of;
use crate::external::{new_uuid, now_secs};
use crate::model::{ConversationDto, MessageDto};
use crate::state::AppState;
use crate::text::{blank, decimal, ends_with, is_blank, join3, str_ends_with, u64_to_text};
use crate::view::{AppView, ChatModel, DataModel};

verus! {

/// Messages longer than this many bytes are refused.
pub const MAX_INCOMING_CONTENT_BYTES: usize = 50000;

/// `m` is a system message with text `content` for conversation `cid`; its id and its
/// creation time are whatever the generator and the clock gave.
pub open spec fn is_system_msg(m: MessageDto, content: Seq<char>, cid: u128) -> bool {
    &&& m.author_id == 0
    &&& m.conversation_id == cid
    &&& m.author_username@ == "system"@
    &&& m.content@ == content
    &&& m.sequence_num is None
    &&& m.client_msg_id is None
    &&& m.is_confirmed is None
}

/// Whether a message counts as a system message: from the nil author named "system",
/// or announcing that someone joined, was removed from, or left a group.
pub open spec fn spec_is_system_message(m: MessageDto) -> bool {
    ||| (m.author_id == 0 && m.author_username@ == "system"@)
    ||| ends_with(m.content@, " è stato aggiunto al gruppo"@)
    ||| ends_with(m.content@, " è stato espulso dal gruppo"@)
    ||| ends_with(m.content@, " ha lasciato il gruppo"@)
}

/// Whether an incoming message may be shown: it has content, an author name (unless it
/// is a system message), and at most `MAX_INCOMING_CONTENT_BYTES` bytes of content.
pub open spec fn spec_valid_incoming(m: MessageDto) -> bool {
    &&& m.content@.len() > 0
    &&& !(blank(m.author_username@) && !spec_is_system_message(m))
    &&& (encode_utf8(m.content@).len() as usize) <= MAX_INCOMING_CONTENT_BYTES
}

impl MessageDto {
    /// A system message with text `content`, for no conversation in particular.
    pub fn system_message(content: String) -> (r: MessageDto)
        ensures
            is_system_msg(r, content@, 0),
    {
        let id = new_uuid();
        let created_at = now_secs();
        MessageDto {
            id,
            author_id: 0,
            conversation_id: 0,
            author_username: String::from_str("system"),
            content,
            created_at,
            sequence_num: None,
            client_msg_id: None,
            is_confirmed: None,
        }
    }

    /// Whether this is a system message.
    pub fn is_system_message(&self) -> (r: bool)
        ensures
            r == spec_is_system_message(*self),
    {
        let system = String::from_str("system");
        if self.author_id == 0 && self.author_username == system {
            return true;
        }
        str_ends_with(self.content.as_str(), " è stato aggiunto al gruppo")
            || str_ends_with(self.content.as_str(), " è stato espulso dal gruppo")
            || str_ends_with(self.content.as_str(), " ha lasciato il gruppo")
    }

    /// The system message that reports `message_count` messages synchronised for
    /// `conversation_id`, and why.
    pub fn fetch_notification(conversation_id: u128, message_count: u64, reason: &str) -> (r: MessageDto)
        ensures
            is_system_msg(r, "Sincronizzati "@ + decimal(message_count as nat) + " messaggi ("@ + reason@ + ")"@, conversation_id),
    {
        let count = u64_to_text(message_count);
        let head = join3("Sincronizzati ", count.as_str(), " messaggi (");
        let content = join3(head.as_str(), reason, ")");
        let mut m = MessageDto::system_message(content);
        m.conversation_id = conversation_id;
        m
    }

    /// A message sent by the user and shown before the server confirms it; it carries
    /// the client's id for it, and a temporary id of its own.
    pub fn optimistic_message(
        author_id: u128,
        author_username: String,
        conversation_id: u128,
        content: String,
        client_msg_id: String,
    ) -> (r: MessageDto)
        ensures
            r.author_id == author_id,
            r.author_username == author_username,
            r.conversation_id == conversation_id,
            r.content == content,
            r.sequence_num is None,
            r.client_msg_id == Some(client_msg_id),
            r.is_confirmed == Some(false),
    {
        let id = new_uuid();
        let created_at = now_secs();
        MessageDto {
            id,
            author_id,
            author_username,
            conversation_id,
            content,
            created_at,
            sequence_num: None,
            client_msg_id: Some(client_msg_id),
            is_confirmed: Some(false),
        }
    }
}

/// `validate_incoming_message`.
pub fn validate_incoming_message(msg: &MessageDto) -> (r: bool)
    ensures
        r == spec_valid_incoming(*msg),
{
    if msg.content.as_str().is_empty() {
        return false;
    }
    if is_blank(msg.author_username.as_str()) && !msg.is_system_message() {
        return false;
    }
    if msg.content.as_str().len() > MAX_INCOMING_CONTENT_BYTES {
        return false;
    }
    true
}

/// The state after showing `sys` in the open conversation and adding it to that
/// conversation's cache, if it has one.
pub open spec fn push_system_app(a: AppView, sys: MessageDto) -> AppView {
    AppView {
        view: ChatModel { messages: a.view.messages.push(sys), ..a.view },
        data: match a.view.cid {
            Some(cid) if a.data.conversation_messages.contains_key(cid) => DataModel {
                conversation_messages: a.data.conversation_messages.insert(cid, a.data.conversation_messages[cid].push(sys)),
                ..a.data
            },
            _ => a.data,
        },
        ..a
    }
}

/// The state after adding `sys` to the cache of `cid` (creating it), and showing it if
/// `cid` is the open conversation.
pub open spec fn push_system_to_conversation_app(a: AppView, cid: u128, sys: MessageDto) -> AppView {
    AppView {
        view: if a.view.cid == Some(cid) { ChatModel { messages: a.view.messages.push(sys), ..a.view } } else { a.view },
        data: DataModel {
            conversation_messages: a.data.conversation_messages.insert(cid, cache_of(a.data.conversation_messages, cid).push(sys)),
            ..a.data
        },
        ..a
    }
}

/// Shows a prepared system message in the open conversation, and adds it to that
/// conversation's cache if it has one.
pub fn push_system_message(state: &mut AppState, sys: MessageDto)
    ensures
        final(state)@ == push_system_app(old(state)@, sys),
{
    let copy = sys.duplicate();
    state.view.messages.push(sys);
    if let Some(cid) = state.view.cid {
        match state.data.conversation_messages.remove(&cid) {
            Some(mut cache) => {
                cache.push(copy);
                state.data.conversation_messages.insert(cid, cache);
                proof {
                    assert(state.data@.conversation_messages =~= old(state).data@.conversation_messages.insert(
                        cid, old(state).data@.conversation_messages[cid].push(copy)));
                }
            },
            None => {
                proof {
                    assert(state.data@.conversation_messages =~= old(state).data@.conversation_messages);
                }
            },
        }
    }
}

/// Adds a system message with text `content` to the open conversation.
pub fn add_system_message(state: &mut AppState, content: String)
    ensures
        exists|sys: MessageDto| is_system_msg(sys, content@, 0) && final(state)@ == push_system_app(old(state)@, sys),
{
    let sys = MessageDto::system_message(content);
    let ghost g = sys;
    push_system_message(state, sys);
    assert(is_system_msg(g, content@, 0) && state@ == push_system_app(old(state)@, g));
}

/// Adds a prepared system message to the cache of `conversation_id` (creating the cache),
/// and shows it if that conversation is open.
pub fn push_system_message_to_conversation(state: &mut AppState, conversation_id: u128, sys: MessageDto)
    ensures
        final(state)@ == push_system_to_conversation_app(old(state)@, conversation_id, sys),
{
    let copy = sys.duplicate();
    let mut cache = match state.data.conversation_messages.remove(&conversation_id) {
        Some(c) => c,
        None => Vec::new(),
    };
    cache.push(sys);
    state.data.conversation_messages.insert(conversation_id, cache);
    if state.view.cid == Some(conversation_id) {
        state.view.messages.push(copy);
    }
    proof {
        assert(state.data@.conversation_messages =~= old(state).data@.conversation_messages.insert(
            conversation_id, cache_of(old(state).data@.conversation_messages, conversation_id).push(sys)));
    }
}

/// Adds a system message with text `content` to conversation `conversation_id`.
pub fn add_system_message_to_conversation(state: &mut AppState, conversation_id: u128, content: String)
    ensures
        exists|sys: MessageDto|
            is_system_msg(sys, content@, conversation_id)
                && final(state)@ == push_system_to_conversation_app(old(state)@, conversation_id, sys),
{
    let mut sys = MessageDto::system_message(content);
    sys.conversation_id = conversation_id;
    let ghost g = sys;
    push_system_message_to_conversation(state, conversation_id, sys);
    assert(is_system_msg(g, content@, conversation_id) && state@ == push_system_to_conversation_app(old(state)@, conversation_id, g));
}

/// The index of the first conversation with id `id` (the length when there is none).
pub open spec fn conv_index(s: Seq<ConversationDto>, id: u128) -> int
    decreases s.len(),
{
    if s.len() == 0 {
        0
    } else if s[0].id == id {
        0
    } else {
        1 + conv_index(s.drop_first(), id)
    }
}

pub proof fn lemma_conv_index(s: Seq<ConversationDto>, id: u128, i: int)
    requires
        0 <= i <= s.len(),
        forall|j: int| 0 <= j < i ==> (#[trigger] s[j]).id != id,
        i == s.len() || s[i].id == id,
    ensures
        conv_index(s, id) == i,
    decreases s.len(),
{
    if s.len() > 0 && s[0].id != id {
        let t = s.drop_first();
        assert forall|j: int| 0 <= j < i - 1 implies (#[trigger] t[j]).id != id by {
            assert(t[j] == s[j + 1]);
        }
        if i < s.len() {
            assert(t[i - 1] == s[i]);
        }
        lemma_conv_index(t, id, i - 1);
    }
}

/// The index of the first conversation with id `id` is in range exactly when one is
/// there, and holds a conversation with that id.
pub proof fn lemma_conv_index_spot(s: Seq<ConversationDto>, id: u128)
    ensures
        0 <= conv_index(s, id) <= s.len(),
        conv_index(s, id) < s.len() ==> s[conv_index(s, id)].id == id,
        (conv_index(s, id) < s.len()) == (exists|i: int| 0 <= i < s.len() && (#[trigger] s[i]).id == id),
    decreases s.len(),
{
    if s.len() > 0 && s[0].id != id {
        let t = s.drop_first();
        lemma_conv_index_spot(t, id);
        if conv_index(t, id) < t.len() {
            assert(s[conv_index(s, id)] == t[conv_index(t, id)]);
        }
        if exists|i: int| 0 <= i < s.len() && (#[trigger] s[i]).id == id {
            let i = choose|i: int| 0 <= i < s.len() && (#[trigger] s[i]).id == id;
            assert(t[i - 1] == s[i]);
        }
        if exists|i: int| 0 <= i < t.len() && (#[trigger] t[i]).id == id {
            let i = choose|i: int| 0 <= i < t.len() && (#[trigger] t[i]).id == id;
            assert(s[i + 1] == t[i]);
        }
    } else if s.len() > 0 {
        assert(s[0].id == id);
    }
}

/// `s.iter().position(|c| c.id == id)`, as the length when there is none.
pub fn find_conversation(s: &Vec<ConversationDto>, id: u128) -> (i: usize)
    ensures
        i == conv_index(s@, id),
        i <= s.len(),
        i < s.len() ==> s@[i as int].id == id,
        i == s.len() ==> forall|j: int| 0 <= j < s.len() ==> (#[trigger] s@[j]).id != id,
{
    let mut i: usize = 0;
    while i < s.len() && s[i].id != id
        invariant
            i <= s.len(),
            forall|j: int| 0 <= j < i ==> (#[trigger] s@[j]).id != id,
        decreases s.len() - i,
    {
        i = i + 1;
    }
    proof {
        lemma_conv_index(s@, id, i as int);
    }
    i
}

/// The list with the first conversation of id `id` moved to the front.
pub open spec fn moved_to_top(s: Seq<ConversationDto>, id: u128) -> Seq<ConversationDto> {
    let p = conv_index(s, id);
    if 0 < p < s.len() { s.remove(p).insert(0, s[p]) } else { s }
}

/// Moves conversation `conversation_id` to the top of the list.
pub fn move_conversation_to_top(state: &mut AppState, conversation_id: u128)
    ensures
        final(state)@ == (AppView {
            data: DataModel {
                conversations: match old(state)@.data.conversations {
                    Some(s) => Some(moved_to_top(s, conversation_id)),
                    None => None,
                },
                ..old(state)@.data
            },
            ..old(state)@
        }),
{
    if let Some(mut convs) = state.data.conversations.take() {
        let pos = find_conversation(&convs, conversation_id);
        if pos > 0 && pos < convs.len() {
            let c = convs.remove(pos);
            convs.insert(0, c);
        }
        state.data.conversations = Some(convs);
    }
}

} // verus!
