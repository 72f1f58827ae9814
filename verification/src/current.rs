//! What the client knows of the open conversation.
use vstd::prelude::*;
use crate::external::{uuid_text, uuid_to_string};
use crate::helpers::{conv_index, find_conversation};
use crate::model::ConversationDto;
use crate::state::AppState;
use crate::view::AppView;

verus! {

/// The open conversation of `a`, when one is open and listed.
pub open spec fn current_conv(a: AppView) -> Option<ConversationDto> {
    match (a.view.cid, a.data.conversations) {
        (Some(cid), Some(l)) => {
            let i = conv_index(l, cid);
            if i < l.len() { Some(l[i]) } else { None }
        },
        _ => None,
    }
}

impl AppState {
    /// The open conversation, when one is open and listed.
    pub fn current_conversation_info(&self) -> (r: Option<&ConversationDto>)
        ensures
            r matches Some(c) ==> current_conv(self@) == Some(*c),
            r is None ==> current_conv(self@) is None,
    {
        match (self.view.cid, &self.data.conversations) {
            (Some(cid), Some(l)) => {
                let i = find_conversation(l, cid);
                if i < l.len() { Some(&l[i]) } else { None }
            },
            _ => None,
        }
    }

    /// The title of the open conversation, or "Conversazione sconosciuta".
    pub fn current_conversation_title(&self) -> (r: String)
        ensures
            current_conv(self@) matches Some(c) ==> r@ == c.title@,
            current_conv(self@) is None ==> r@ == "Conversazione sconosciuta"@,
    {
        match self.current_conversation_info() {
            Some(c) => c.title.clone(),
            None => String::from_str("Conversazione sconosciuta"),
        }
    }

    /// The kind of the open conversation, when one is open and listed.
    pub fn current_conversation_kind(&self) -> (r: Option<String>)
        ensures
            current_conv(self@) matches Some(c) ==> r matches Some(k) && k@ == c.kind@,
            current_conv(self@) is None ==> r is None,
    {
        match self.current_conversation_info() {
            Some(c) => Some(c.kind.clone()),
            None => None,
        }
    }

    /// The id of the open conversation, as text.
    pub fn current_conversation_id_string(&self) -> (r: Option<String>)
        ensures
            self@.view.cid matches Some(cid) ==> r matches Some(t) && t@ == uuid_text(cid),
            self@.view.cid is None ==> r is None,
    {
        match self.view.cid {
            Some(cid) => Some(uuid_to_string(cid)),
            None => None,
        }
    }

    /// Whether a conversation is open.
    pub fn has_current_conversation(&self) -> (r: bool)
        ensures
            r == self@.view.cid is Some,
    {
        self.view.cid.is_some()
    }
}

} // verus!
