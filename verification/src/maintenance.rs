//! Maintenance of the conversation data: dropping caches of conversations that are gone,
//! checking the list for duplicates, and the reset of a logout from the session menu.
use vstd::prelude::*;
use crate::convlist::{dedup_conversations, dedup_convs, has_conv};
use crate::helpers::is_system_msg;
use crate::maps::map_keys;
use crate::model::{ConversationDto, ErrorType, LoginState, MessageDto, Page, UiEvent, WsStatus};
use crate::state::{AppState, Session, WsState};
use crate::text::{decimal, join2, u64_to_text};
use crate::view::{AppView, ChatModel, DataModel, UiModel};

verus! {

/// The report of `n` duplicate entries in the conversation list.
pub open spec fn duplicates_text(n: nat) -> Seq<char> {
    "Rilevati duplicati conversazioni: "@ + decimal(n)
}

/// How many entries of the list repeat an id seen before them.
pub open spec fn duplicate_count(s: Seq<ConversationDto>) -> nat {
    (s.len() - dedup_convs(s).len()) as nat
}

proof fn lemma_dedup_len(s: Seq<ConversationDto>)
    ensures
        dedup_convs(s).len() <= s.len(),
    decreases s.len(),
{
    if s.len() > 0 {
        lemma_dedup_len(s.drop_last());
    }
}

/// Checks of the data loaded from the server.
pub struct DataHandler;

impl DataHandler {
    /// Reports duplicate entries in the conversation list, if there are any.
    pub fn debug_check_duplicates(state: &mut AppState)
        ensures
            ({
                let a = old(state)@;
                let b = final(state)@;
                match a.data.conversations {
                    Some(l) if duplicate_count(l) > 0 => {
                        &&& b == (AppView { ui_events: b.ui_events, ..a })
                        &&& b.ui_events == a.ui_events.push(b.ui_events.last())
                        &&& b.ui_events.last() matches UiEvent::Error(ErrorType::Generic(t)) && t@ == duplicates_text(duplicate_count(l))
                    },
                    _ => b == a,
                }
            }),
    {
        let n: usize = match &state.data.conversations {
            Some(l) => {
                let distinct = dedup_conversations(crate::convlist::copy_conversations(l));
                proof {
                    lemma_dedup_len(l@);
                }
                l.len() - distinct.len()
            },
            None => 0,
        };
        if n > 0 {
            let text = join2("Rilevati duplicati conversazioni: ", u64_to_text(n as u64).as_str());
            state.send_ui_event(UiEvent::Error(ErrorType::Generic(text)));
        }
    }
}

/// Fetches of single conversations.
pub struct FetchHandler;

/// The preloading of conversations and messages.
pub struct DataLoader;

/// The state after the logout from the session menu: the session and the data go (the
/// password becomes `pw`, empty), the connection is shut, and `bye` says goodbye in the
/// emptied chat.
pub open spec fn menu_logout_app(a: AppView, bye: MessageDto, pw: String) -> AppView {
    AppView {
        session: Session {
            token: None,
            user_id: None,
            login_state: LoginState::Idle,
            password: pw,
            ..a.session
        },
        ws: WsState { ws_status: WsStatus::Disconnected, request_ws_reconnect: false, has_ws_control: false, ..a.ws },
        view: ChatModel {
            page: Page::Auth,
            cid: None,
            conv_title: Seq::empty(),
            input: Seq::empty(),
            messages: seq![bye],
            ..a.view
        },
        data: DataModel {
            conversations: None,
            request_conversations_refresh: false,
            conversation_messages: Map::empty(),
            is_initial_load_complete: false,
            is_loading: false,
            ..a.data
        },
        ui: UiModel {
            group_name: Seq::empty(),
            dm_user_username_input: Seq::empty(),
            invite_conversation_id: Seq::empty(),
            last_created_invite: None,
            last_invite_token: None,
            ..a.ui
        },
        ..a
    }
}

/// The handling of session events from the menu.
pub struct EventHandler;

impl EventHandler {
    /// Drops the caches of the conversations that are no longer in the list.
    pub fn cleanup_old_conversations(state: &mut AppState)
        ensures
            final(state)@ == (match old(state)@.data.conversations {
                Some(l) => AppView {
                    data: DataModel {
                        conversation_messages: old(state)@.data.conversation_messages.restrict(Set::new(|id: u128| has_conv(l, id))),
                        ..old(state)@.data
                    },
                    ..old(state)@
                },
                None => old(state)@,
            }),
    {
        let l = match &state.data.conversations {
            Some(l) => crate::convlist::copy_conversations(l),
            None => return,
        };
        let keys = map_keys(&state.data.conversation_messages);
        let ghost orig = state@.data.conversation_messages;
        let ghost keep = Set::new(|id: u128| has_conv(l@, id));
        proof {
            assert(keys@.take(0).to_set() =~= Set::<u128>::empty());
            assert(orig.remove_keys(keys@.take(0).to_set().difference(keep)) =~= orig);
        }
        let mut i: usize = 0;
        while i < keys.len()
            invariant
                i <= keys.len(),
                keys@.to_set() == orig.dom(),
                keep == Set::new(|id: u128| has_conv(l@, id)),
                state@ == (AppView {
                    data: DataModel {
                        conversation_messages: orig.remove_keys(keys@.take(i as int).to_set().difference(keep)),
                        ..old(state)@.data
                    },
                    ..old(state)@
                }),
            decreases keys.len() - i,
        {
            let k = keys[i];
            proof {
                assert(keys@.take(i + 1) =~= keys@.take(i as int).push(k));
                keys@.take(i as int).lemma_push_to_set_commute(k);
            }
            let ghost before = state@.data.conversation_messages;
            if !crate::convlist::contains_conversation(&l, k) {
                let _ = state.data.conversation_messages.remove(&k);
                proof {
                    assert(state@.data.conversation_messages =~= before.remove(k));
                    assert(!keep.contains(k));
                }
            } else {
                proof {
                    assert(keep.contains(k));
                }
            }
            proof {
                assert(state@.data.conversation_messages =~= orig.remove_keys(keys@.take(i + 1).to_set().difference(keep)));
            }
            i = i + 1;
        }
        proof {
            assert(keys@.take(keys.len() as int) =~= keys@);
            assert(orig.remove_keys(keys@.to_set().difference(keep)) =~= orig.restrict(keep));
        }
    }

    /// Logs out from the session menu; returns whether a connection was under control,
    /// which the caller then shuts down.
    pub fn handle_logout(state: &mut AppState) -> (had_control: bool)
        ensures
            had_control == old(state)@.ws.has_ws_control,
            exists|bye: MessageDto, pw: String|
                is_system_msg(bye, "👋 Logout effettuato"@, 0) && pw@.len() == 0 && final(state)@ == #[trigger] menu_logout_app(old(state)@, bye, pw),
    {
        let had_control = state.ws.has_ws_control;
        state.ws.has_ws_control = false;
        state.session.token = None;
        state.session.user_id = None;
        state.view.page = Page::Auth;
        state.session.login_state = LoginState::Idle;
        state.session.password = String::new();
        state.view.cid = None;
        state.view.conv_title = String::new();
        state.view.input = String::new();
        state.data.conversations = None;
        state.ws.ws_status = WsStatus::Disconnected;
        state.ws.request_ws_reconnect = false;
        state.data.request_conversations_refresh = false;
        state.ui.group_name = String::new();
        state.ui.dm_user_username_input = String::new();
        state.ui.invite_conversation_id = String::new();
        state.ui.last_created_invite = None;
        state.ui.last_invite_token = None;
        state.data.conversation_messages.clear();
        state.data.is_initial_load_complete = false;
        state.data.is_loading = false;
        let bye = MessageDto::system_message(String::from_str("👋 Logout effettuato"));
        let ghost g = bye;
        let mut shown = Vec::new();
        shown.push(bye);
        state.view.messages = shown;
        proof {
            assert(state@.data.conversation_messages =~= Map::empty());
            assert(state@.view.messages =~= seq![g]);
            assert(state@ == menu_logout_app(old(state)@, g, state.session.password));
        }
        had_control
    }
}

} // verus!
