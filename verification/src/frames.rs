//! The frames that go to the server: what a request says on the wire, decided from the
//! state (`outbound.rs` writes them as JSON).
use vstd::prelude::*;
use crate::model::Outgoing;
use crate::state::AppState;
use crate::view::AppView;

verus! {

/// A request as it goes out.
pub enum OutFrame {
    /// A chat message. A message to a DM that the server does not know yet names its
    /// target user and carries the DM's local id as the temporary id, with no
    /// conversation id; any other message carries its conversation's id.
    Chat {
        content: String,
        conversation_id: Option<u128>,
        target_username: Option<String>,
        client_temp_id: Option<u128>,
        target_usernames: Option<Vec<String>>,
        client_msg_id: Option<String>,
    },
    /// Any other request, written as it is.
    Plain(Outgoing),
}

/// The frame for request `o` in state `a`.
pub open spec fn out_frame_spec(a: AppView, o: Outgoing) -> OutFrame {
    match o {
        Outgoing::ChatMessage { cid, content, target_username, target_usernames, client_msg_id } => {
            let to_stub = target_username is Some && a.stubs.dm_stubs.contains_key(cid);
            OutFrame::Chat {
                content,
                conversation_id: if to_stub { None } else { Some(cid) },
                target_username,
                client_temp_id: if to_stub { Some(cid) } else { None },
                target_usernames,
                client_msg_id,
            }
        },
        _ => OutFrame::Plain(o),
    }
}

/// The frame for request `o` in the current state.
pub fn out_frame(state: &AppState, o: Outgoing) -> (r: OutFrame)
    ensures
        r == out_frame_spec(state@, o),
{
    match o {
        Outgoing::ChatMessage { cid, content, target_username, target_usernames, client_msg_id } => {
            let to_stub = target_username.is_some() && state.stubs.dm_stubs.contains_key(&cid);
            OutFrame::Chat {
                content,
                conversation_id: if to_stub { None } else { Some(cid) },
                target_username,
                client_temp_id: if to_stub { Some(cid) } else { None },
                target_usernames,
                client_msg_id,
            }
        },
        other => OutFrame::Plain(other),
    }
}

} // verus!
