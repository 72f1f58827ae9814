//! The state behind the side panels and the header: the search over the conversation
//! list, and the panels that hold it.
use vstd::prelude::*;
use crate::model::ConversationDto;
use crate::state::AppState;
use crate::text::{contains, decimal, lowercase, str_contains, to_lowercase, u64_to_text};
use crate::view::{AppView, DataModel};

verus! {

/// Whether conversation `c` answers the lowercased search `q`: its lowercased title
/// holds it, or its kind's name ("gruppo" for a group; "privata" or "dm" for a DM) does.
pub open spec fn answers_search(c: ConversationDto, q: Seq<char>) -> bool {
    ||| contains(lowercase(c.title@), q)
    ||| (c.kind@ == "group"@ && contains("gruppo"@, q))
    ||| (c.kind@ == "dm"@ && (contains("privata"@, q) || contains("dm"@, q)))
}

/// The conversations of `s` that answer the lowercased search `q`, in order.
pub open spec fn search_results(s: Seq<ConversationDto>, q: Seq<char>) -> Seq<ConversationDto>
    decreases s.len(),
{
    if s.len() == 0 {
        Seq::empty()
    } else if answers_search(s.last(), q) {
        search_results(s.drop_last(), q).push(s.last())
    } else {
        search_results(s.drop_last(), q)
    }
}

/// The text of the unread badge for `count` unread messages: none when there are none,
/// "99+" beyond 99.
pub open spec fn badge_text(count: i64) -> Option<Seq<char>> {
    if count <= 0 {
        None
    } else if count > 99 {
        Some("99+"@)
    } else {
        Some(decimal(count as nat))
    }
}

/// The unread badge of conversation `cid`, if it has unread messages.
pub fn unread_badge(state: &AppState, cid: u128) -> (r: Option<String>)
    ensures
        r matches Some(t) ==> state@.data.conversation_unread_counts.contains_key(cid)
            && badge_text(state@.data.conversation_unread_counts[cid]) == Some(t@),
        r is None ==> !state@.data.conversation_unread_counts.contains_key(cid)
            || badge_text(state@.data.conversation_unread_counts[cid]) is None,
{
    match state.data.conversation_unread_counts.get(&cid) {
        Some(n) => {
            let n = *n;
            if n <= 0 {
                None
            } else if n > 99 {
                Some(String::from_str("99+"))
            } else {
                Some(u64_to_text(n as u64))
            }
        },
        None => None,
    }
}

/// The conversation list of the side panel, with its search box.
pub struct ConversationsSidebar {
    pub search_query: String,
    pub dm_username: String,
}

impl ConversationsSidebar {
    pub fn new() -> (r: Self)
        ensures
            r.search_query@.len() == 0,
            r.dm_username@.len() == 0,
    {
        ConversationsSidebar { search_query: String::new(), dm_username: String::new() }
    }

    /// Whether `c` answers the lowercased search `q`.
    fn answers(c: &ConversationDto, q: &String) -> (r: bool)
        ensures
            r == answers_search(*c, q@),
    {
        if str_contains(to_lowercase(c.title.as_str()).as_str(), q.as_str()) {
            return true;
        }
        let group = String::from_str("group");
        let dm = String::from_str("dm");
        proof {
            reveal_strlit("group");
            reveal_strlit("dm");
            assert("group"@.len() == 5 && "dm"@.len() == 2);
            assert("group"@ != "dm"@);
        }
        if c.kind == group {
            str_contains("gruppo", q.as_str())
        } else if c.kind == dm {
            str_contains("privata", q.as_str()) || str_contains("dm", q.as_str())
        } else {
            false
        }
    }

    /// The conversations shown for the search: all of them for an empty search, else
    /// those that answer it, ignoring case.
    pub fn filter_conversations(&self, conversations: &Vec<ConversationDto>) -> (r: Vec<ConversationDto>)
        ensures
            self.search_query@.len() == 0 ==> r@ == conversations@,
            self.search_query@.len() > 0 ==> r@ == search_results(conversations@, lowercase(self.search_query@)),
    {
        let mut out: Vec<ConversationDto> = Vec::new();
        let empty = self.search_query.as_str().is_empty();
        let q = to_lowercase(self.search_query.as_str());
        let mut i: usize = 0;
        while i < conversations.len()
            invariant
                i <= conversations.len(),
                empty == (self.search_query@.len() == 0),
                q@ == lowercase(self.search_query@),
                empty ==> out@ == conversations@.take(i as int),
                !empty ==> out@ == search_results(conversations@.take(i as int), q@),
            decreases conversations.len() - i,
        {
            proof {
                assert(conversations@.take(i + 1).drop_last() =~= conversations@.take(i as int));
                assert(conversations@.take(i + 1).last() == conversations@[i as int]);
            }
            if empty || Self::answers(&conversations[i], &q) {
                out.push(conversations[i].duplicate());
            }
            proof {
                if empty {
                    assert(out@ =~= conversations@.take(i + 1));
                }
            }
            i = i + 1;
        }
        proof {
            assert(conversations@.take(conversations.len() as int) =~= conversations@);
        }
        out
    }
}

/// The account panel.
pub struct AccountSidebar;

impl AccountSidebar {
    pub fn new() -> (r: Self) {
        AccountSidebar
    }
}

/// The group management panel.
pub struct GroupManagementSidebar;

impl GroupManagementSidebar {
    pub fn new() -> (r: Self) {
        GroupManagementSidebar
    }
}

/// The side panel: the account panel on the login page, the conversation list otherwise.
pub struct SidebarManager {
    pub account_sidebar: AccountSidebar,
    pub conversations_sidebar: ConversationsSidebar,
}

impl SidebarManager {
    pub fn new() -> (r: Self)
        ensures
            r.conversations_sidebar.search_query@.len() == 0,
            r.conversations_sidebar.dm_username@.len() == 0,
    {
        SidebarManager { account_sidebar: AccountSidebar::new(), conversations_sidebar: ConversationsSidebar::new() }
    }
}

/// The header bar.
pub struct HeaderManager {
    pub account_sidebar: AccountSidebar,
}

impl HeaderManager {
    pub fn new() -> (r: Self) {
        HeaderManager { account_sidebar: AccountSidebar::new() }
    }
}

impl ConversationsSidebar {
    /// When a refresh of the conversation list was asked for and the user is logged in,
    /// clears the request and returns the server and token to fetch the list with.
    pub fn auto_refresh_if_needed(&self, state: &mut AppState) -> (r: Option<(String, String)>)
        ensures
            (old(state)@.data.request_conversations_refresh && old(state)@.session.token is Some) ==> {
                &&& r matches Some(p) && p.0@ == old(state)@.session.base@ && Some(p.1) == old(state)@.session.token
                &&& final(state)@ == (AppView {
                    data: DataModel { request_conversations_refresh: false, ..old(state)@.data },
                    ..old(state)@
                })
            },
            !(old(state)@.data.request_conversations_refresh && old(state)@.session.token is Some) ==> {
                &&& r is None
                &&& final(state)@ == old(state)@
            },
    {
        if !state.data.request_conversations_refresh {
            return None;
        }
        let token = match &state.session.token {
            Some(t) => t.clone(),
            None => return None,
        };
        let base = state.session.base.clone();
        state.data.request_conversations_refresh = false;
        Some((base, token))
    }
}

} // verus!
