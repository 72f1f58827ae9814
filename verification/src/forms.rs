//! The decisions behind the "create group" and "invite members" forms: which contacts a
//! search shows, when a searched name can be added, and which names are chosen.
use vstd::prelude::*;
use crate::checks::{has_name, set_insert};
use crate::commands::{dm_request_rel, event_app, ws_send_app};
use crate::model::{ConversationDto, Outgoing, ParticipantInfo, UiEvent};
use crate::state::AppState;
use crate::text::{chars_of, join3, lowercase, to_lowercase, trim, trimmed};
use crate::state::InvitePopupState;
use crate::view::{AppView, CreateGroupModel, InviteModel, UiModel};

use crate::laws::{lemma_set_insert_distinct, lemma_set_remove_distinct, names_distinct};

verus! {

/// Whether `s` starts with `p`.
pub open spec fn starts_with(s: Seq<char>, p: Seq<char>) -> bool {
    p.len() <= s.len() && s.subrange(0, p.len() as int) == p
}

/// `s.starts_with(p)`.
pub fn str_starts_with(s: &str, p: &str) -> (r: bool)
    ensures
        r == starts_with(s@, p@),
{
    let v = chars_of(s);
    let w = chars_of(p);
    if w.len() > v.len() {
        return false;
    }
    let mut i: usize = 0;
    while i < w.len()
        invariant
            v@ == s@,
            w@ == p@,
            w.len() <= v.len(),
            i <= w.len(),
            forall|j: int| 0 <= j < i ==> s@[j] == p@[j],
        decreases w.len() - i,
    {
        if v[i] != w[i] {
            assert(s@.subrange(0, p@.len() as int)[i as int] != p@[i as int]);
            return false;
        }
        i = i + 1;
    }
    assert(s@.subrange(0, p@.len() as int) =~= p@);
    true
}

fn is_dm(c: &ConversationDto) -> (r: bool)
    ensures
        r == (c.kind@ == "dm"@),
{
    c.kind == String::from_str("dm")
}

/// Whether DM contact `c` is among those shown for the lowercased search `q`.
pub open spec fn contact_shown(c: ConversationDto, q: Seq<char>) -> bool {
    c.kind@ == "dm"@ && (q.len() == 0 || starts_with(lowercase(c.title@), q))
}

/// The DM contacts of `s` shown for the lowercased search `q`, in order.
pub open spec fn contacts_for(s: Seq<ConversationDto>, q: Seq<char>) -> Seq<ConversationDto>
    decreases s.len(),
{
    if s.len() == 0 {
        Seq::empty()
    } else if contact_shown(s.last(), q) {
        contacts_for(s.drop_last(), q).push(s.last())
    } else {
        contacts_for(s.drop_last(), q)
    }
}

/// The DM contacts that the form lists for the search `search_query`: every DM when the
/// search is blank, otherwise those whose name starts with it, ignoring case.
pub fn group_contacts(conversations: &Vec<ConversationDto>, search_query: &str) -> (r: Vec<ConversationDto>)
    ensures
        r@ == contacts_for(conversations@, lowercase(trim(search_query@))),
{
    let t = trimmed(search_query);
    let q = to_lowercase(t.as_str());
    let ghost qs = lowercase(trim(search_query@));
    let mut out: Vec<ConversationDto> = Vec::new();
    let mut i: usize = 0;
    while i < conversations.len()
        invariant
            i <= conversations.len(),
            q@ == qs,
            out@ == contacts_for(conversations@.take(i as int), qs),
        decreases conversations.len() - i,
    {
        let c = &conversations[i];
        proof {
            assert(conversations@.take(i + 1).drop_last() =~= conversations@.take(i as int));
            assert(conversations@.take(i + 1).last() == *c);
        }
        let shown = is_dm(c) && (q.as_str().is_empty() || str_starts_with(to_lowercase(c.title.as_str()).as_str(), q.as_str()));
        if shown {
            out.push(c.duplicate());
        }
        i = i + 1;
    }
    proof {
        assert(conversations@.take(conversations.len() as int) =~= conversations@);
    }
    out
}

/// Whether some DM contact of `s` has a name starting with the lowercased search `q`.
pub open spec fn found_in_contacts(s: Seq<ConversationDto>, q: Seq<char>) -> bool {
    exists|i: int| 0 <= i < s.len() && (#[trigger] s[i]).kind@ == "dm"@ && starts_with(lowercase(s[i].title@), q)
}

/// Whether the searched name of the form in `a` can be added as a participant: it is not
/// blank, no contact matches it, and it is not chosen yet.
pub open spec fn can_add_searched(a: AppView) -> bool {
    let t = trim(a.ui.create_group_popup.search_query);
    &&& t.len() > 0
    &&& !(match a.data.conversations {
        Some(l) => found_in_contacts(l, lowercase(t)),
        None => false,
    })
    &&& !has_name(a.ui.create_group_popup.selected_participants, t)
}

/// `s` without the names reading as `x`.
pub open spec fn set_remove(s: Seq<String>, x: Seq<char>) -> Seq<String>
    decreases s.len(),
{
    if s.len() == 0 {
        Seq::empty()
    } else if s.last()@ == x {
        set_remove(s.drop_last(), x)
    } else {
        set_remove(s.drop_last(), x).push(s.last())
    }
}

/// `a` with the chosen participants of the form set to `ps`.
pub open spec fn with_participants(a: AppView, ps: Seq<String>) -> AppView {
    AppView {
        ui: UiModel { create_group_popup: CreateGroupModel { selected_participants: ps, ..a.ui.create_group_popup }, ..a.ui },
        ..a
    }
}

/// `b` is `a` after the searched name is added: the name waits for verification, its
/// check is asked for, and the search is cleared.
pub open spec fn add_searched_rel(a: AppView, b: AppView) -> bool {
    let t = trim(a.ui.create_group_popup.search_query);
    if can_add_searched(a) && a.pending.pending_user_check is None {
        exists|name: String, c: AppView| {
            &&& name@ == t
            &&& #[trigger] dm_request_rel(
                AppView {
                    ui: UiModel {
                        create_group_popup: CreateGroupModel { pending_user_verification: Some(name), ..a.ui.create_group_popup },
                        ..a.ui
                    },
                    ..a
                },
                c,
                t,
            )
            &&& b == AppView {
                ui: UiModel { create_group_popup: CreateGroupModel { search_query: Seq::empty(), ..c.ui.create_group_popup }, ..c.ui },
                ..c
            }
        }
    } else {
        b == a
    }
}

fn has_dm_starting(l: &Vec<ConversationDto>, q: &String) -> (r: bool)
    ensures
        r == found_in_contacts(l@, q@),
{
    let mut i: usize = 0;
    while i < l.len()
        invariant
            i <= l.len(),
            forall|j: int| 0 <= j < i ==> !((#[trigger] l@[j]).kind@ == "dm"@ && starts_with(lowercase(l@[j].title@), q@)),
        decreases l.len() - i,
    {
        if is_dm(&l[i]) && str_starts_with(to_lowercase(l[i].title.as_str()).as_str(), q.as_str()) {
            return true;
        }
        i = i + 1;
    }
    false
}

fn has_text(v: &Vec<String>, x: &String) -> (r: bool)
    ensures
        r == has_name(v@, x@),
{
    let mut i: usize = 0;
    while i < v.len()
        invariant
            i <= v.len(),
            forall|j: int| 0 <= j < i ==> (#[trigger] v@[j])@ != x@,
        decreases v.len() - i,
    {
        if v[i] == *x {
            return true;
        }
        i = i + 1;
    }
    false
}

fn without_name(v: Vec<String>, x: &String) -> (r: Vec<String>)
    ensures
        r@ == set_remove(v@, x@),
{
    let mut kept: Vec<String> = Vec::new();
    let mut i: usize = 0;
    while i < v.len()
        invariant
            i <= v.len(),
            kept@ == set_remove(v@.take(i as int), x@),
        decreases v.len() - i,
    {
        proof {
            assert(v@.take(i + 1).drop_last() =~= v@.take(i as int));
            assert(v@.take(i + 1).last() == v@[i as int]);
        }
        if v[i] != *x {
            kept.push(v[i].clone());
        }
        i = i + 1;
    }
    proof {
        assert(v@.take(v.len() as int) =~= v@);
    }
    kept
}

fn copy_names(v: &Vec<String>) -> (r: Vec<String>)
    ensures
        r@ == v@,
{
    let mut out: Vec<String> = Vec::new();
    let mut i: usize = 0;
    while i < v.len()
        invariant
            i <= v.len(),
            out@ == v@.take(i as int),
        decreases v.len() - i,
    {
        out.push(v[i].clone());
        proof {
            assert(out@ =~= v@.take(i + 1));
        }
        i = i + 1;
    }
    proof {
        assert(v@.take(v.len() as int) =~= v@);
    }
    out
}

proof fn lemma_add_searched(a: AppView, m: AppView, c: AppView, b: AppView, name: String)
    requires
        can_add_searched(a),
        a.pending.pending_user_check is None,
        name@ == trim(a.ui.create_group_popup.search_query),
        m == (AppView {
            ui: UiModel {
                create_group_popup: CreateGroupModel { pending_user_verification: Some(name), ..a.ui.create_group_popup },
                ..a.ui
            },
            ..a
        }),
        dm_request_rel(m, c, name@),
        b == (AppView {
            ui: UiModel { create_group_popup: CreateGroupModel { search_query: Seq::empty(), ..c.ui.create_group_popup }, ..c.ui },
            ..c
        }),
    ensures
        add_searched_rel(a, b),
{
}

impl AppState {
    /// Whether the name searched in the "create group" form can be added as a participant.
    pub fn can_add_searched_participant(&self) -> (r: bool)
        ensures
            r == can_add_searched(self@),
    {
        let t = trimmed(self.ui.create_group_popup.search_query.as_str());
        if t.as_str().is_empty() {
            return false;
        }
        let q = to_lowercase(t.as_str());
        let found = match &self.data.conversations {
            Some(l) => has_dm_starting(l, &q),
            None => false,
        };
        !found && !has_text(&self.ui.create_group_popup.selected_participants, &t)
    }

    fn set_pending_verification(&mut self, name: String)
        ensures
            final(self)@ == (AppView {
                ui: UiModel {
                    create_group_popup: CreateGroupModel { pending_user_verification: Some(name), ..old(self)@.ui.create_group_popup },
                    ..old(self)@.ui
                },
                ..old(self)@
            }),
    {
        self.ui.create_group_popup.pending_user_verification = Some(name);
    }

    fn clear_group_search(&mut self)
        ensures
            final(self)@ == (AppView {
                ui: UiModel {
                    create_group_popup: CreateGroupModel { search_query: Seq::empty(), ..old(self)@.ui.create_group_popup },
                    ..old(self)@.ui
                },
                ..old(self)@
            }),
    {
        self.ui.create_group_popup.search_query = String::new();
    }

    /// Adds the searched name as a participant to be verified, when it can be added and
    /// no check is under way: its check is asked for and the search is cleared.
    pub fn add_searched_participant(&mut self)
        ensures
            add_searched_rel(old(self)@, final(self)@),
    {
        if !self.can_add_searched_participant() || self.pending.pending_user_check.is_some() {
            return;
        }
        let t = trimmed(self.ui.create_group_popup.search_query.as_str());
        let ghost a = self@;
        self.set_pending_verification(t.clone());
        let ghost m = self@;
        self.request_dm_creation(t);
        let ghost c = self@;
        self.clear_group_search();
        proof {
            lemma_add_searched(a, m, c, self@, t);
        }
    }

    /// Ticks or unticks `username` among the participants of the "create group" form.
    pub fn set_participant_selected(&mut self, username: String, selected: bool)
        ensures
            final(self)@ == with_participants(
                old(self)@,
                if selected {
                    set_insert(old(self)@.ui.create_group_popup.selected_participants, username)
                } else {
                    set_remove(old(self)@.ui.create_group_popup.selected_participants, username@)
                },
            ),
            names_distinct(old(self)@.ui.create_group_popup.selected_participants) ==> names_distinct(
                final(self)@.ui.create_group_popup.selected_participants,
            ),
    {
        let ghost a = self@;
        proof {
            if names_distinct(a.ui.create_group_popup.selected_participants) {
                lemma_set_insert_distinct(a.ui.create_group_popup.selected_participants, username);
                lemma_set_remove_distinct(a.ui.create_group_popup.selected_participants, username@);
            }
        }
        if selected {
            crate::checks::insert_unique(&mut self.ui.create_group_popup.selected_participants, username);
        } else {
            let mut old_list: Vec<String> = Vec::new();
            std::mem::swap(&mut old_list, &mut self.ui.create_group_popup.selected_participants);
            let kept = without_name(old_list, &username);
            self.ui.create_group_popup.selected_participants = kept;
        }
        proof {
            assert(self@.ui.create_group_popup =~= with_participants(a, self@.ui.create_group_popup.selected_participants).ui.create_group_popup);
        }
    }

    /// Whether the "create group" form can be submitted: the group has a name.
    pub fn can_create_group(&self) -> (r: bool)
        ensures
            r == (trim(self@.ui.create_group_popup.group_name).len() > 0),
    {
        !trimmed(self.ui.create_group_popup.group_name.as_str()).as_str().is_empty()
    }
}

/// Whether one of `ms` is called `name`.
pub open spec fn is_member(ms: Seq<ParticipantInfo>, name: Seq<char>) -> bool {
    exists|i: int| 0 <= i < ms.len() && (#[trigger] ms[i]).username@ == name
}

/// The members of conversation `cid` known in `a` (none when unknown).
pub open spec fn members_of(a: AppView, cid: u128) -> Seq<ParticipantInfo> {
    if a.data.members_list.contains_key(cid) { a.data.members_list[cid] } else { Seq::empty() }
}

/// The DM contacts of `s` that the invitation form shows for the lowercased search `q`:
/// those shown by the search that are not members already (`ms`).
pub open spec fn invitable_for(s: Seq<ConversationDto>, q: Seq<char>, ms: Seq<ParticipantInfo>) -> Seq<ConversationDto>
    decreases s.len(),
{
    if s.len() == 0 {
        Seq::empty()
    } else if contact_shown(s.last(), q) && !is_member(ms, s.last().title@) {
        invitable_for(s.drop_last(), q, ms).push(s.last())
    } else {
        invitable_for(s.drop_last(), q, ms)
    }
}

fn member_named(ms: &Vec<ParticipantInfo>, name: &String) -> (r: bool)
    ensures
        r == is_member(ms@, name@),
{
    let mut i: usize = 0;
    while i < ms.len()
        invariant
            i <= ms.len(),
            forall|j: int| 0 <= j < i ==> (#[trigger] ms@[j]).username@ != name@,
        decreases ms.len() - i,
    {
        if ms[i].username == *name {
            return true;
        }
        i = i + 1;
    }
    false
}

/// The DM contacts that the invitation form lists for the search `search_query`, leaving
/// out the conversation's members `members`.
pub fn invite_contacts(conversations: &Vec<ConversationDto>, search_query: &str, members: &Vec<ParticipantInfo>) -> (r: Vec<ConversationDto>)
    ensures
        r@ == invitable_for(conversations@, lowercase(trim(search_query@)), members@),
{
    let t = trimmed(search_query);
    let q = to_lowercase(t.as_str());
    let ghost qs = lowercase(trim(search_query@));
    let mut out: Vec<ConversationDto> = Vec::new();
    let mut i: usize = 0;
    while i < conversations.len()
        invariant
            i <= conversations.len(),
            q@ == qs,
            out@ == invitable_for(conversations@.take(i as int), qs, members@),
        decreases conversations.len() - i,
    {
        let c = &conversations[i];
        proof {
            assert(conversations@.take(i + 1).drop_last() =~= conversations@.take(i as int));
            assert(conversations@.take(i + 1).last() == *c);
        }
        let shown = is_dm(c) && (q.as_str().is_empty() || str_starts_with(to_lowercase(c.title.as_str()).as_str(), q.as_str()));
        if shown && !member_named(members, &c.title) {
            out.push(c.duplicate());
        }
        i = i + 1;
    }
    proof {
        assert(conversations@.take(conversations.len() as int) =~= conversations@);
    }
    out
}

/// Whether the name searched in the invitation form of conversation `cid` can be added:
/// it is not blank, no contact matches it, it is not chosen yet, and it is no member.
pub open spec fn can_add_invitee(a: AppView, cid: u128) -> bool {
    let t = trim(a.ui.invite_popup.search_query);
    &&& t.len() > 0
    &&& !(match a.data.conversations {
        Some(l) => found_in_contacts(l, lowercase(t)),
        None => false,
    })
    &&& !has_name(a.ui.invite_popup.selected_users, t)
    &&& !is_member(members_of(a, cid), t)
}

/// `a` with the invitation form set to `f`.
pub open spec fn with_invite_form(a: AppView, f: InviteModel) -> AppView {
    AppView { ui: UiModel { invite_popup: f, ..a.ui }, ..a }
}

/// `b` is `a` after the name searched in the invitation form of `cid` is added: it waits
/// for verification, its check is asked for, and the search is cleared.
pub open spec fn add_invitee_rel(a: AppView, b: AppView, cid: u128) -> bool {
    let t = trim(a.ui.invite_popup.search_query);
    if can_add_invitee(a, cid) && a.pending.pending_user_check is None {
        exists|name: String, c: AppView| {
            &&& name@ == t
            &&& #[trigger] dm_request_rel(
                with_invite_form(a, InviteModel { pending_user_verification: Some(name), ..a.ui.invite_popup }),
                c,
                t,
            )
            &&& b == with_invite_form(c, InviteModel { search_query: Seq::empty(), ..c.ui.invite_popup })
        }
    } else {
        b == a
    }
}

proof fn lemma_add_invitee(a: AppView, m: AppView, c: AppView, b: AppView, name: String, cid: u128)
    requires
        can_add_invitee(a, cid),
        a.pending.pending_user_check is None,
        name@ == trim(a.ui.invite_popup.search_query),
        m == with_invite_form(a, InviteModel { pending_user_verification: Some(name), ..a.ui.invite_popup }),
        dm_request_rel(m, c, name@),
        b == with_invite_form(c, InviteModel { search_query: Seq::empty(), ..c.ui.invite_popup }),
    ensures
        add_invitee_rel(a, b, cid),
{
}

impl AppState {
    /// Whether the name searched in the invitation form of conversation `cid` can be added.
    pub fn can_add_searched_invitee(&self, cid: u128) -> (r: bool)
        ensures
            r == can_add_invitee(self@, cid),
    {
        let t = trimmed(self.ui.invite_popup.search_query.as_str());
        if t.as_str().is_empty() {
            return false;
        }
        let q = to_lowercase(t.as_str());
        let found = match &self.data.conversations {
            Some(l) => has_dm_starting(l, &q),
            None => false,
        };
        if found || has_text(&self.ui.invite_popup.selected_users, &t) {
            return false;
        }
        match self.data.members_list.get(&cid) {
            Some(ms) => !member_named(ms, &t),
            None => true,
        }
    }

    fn set_invite_verification(&mut self, name: String)
        ensures
            final(self)@ == with_invite_form(old(self)@, InviteModel { pending_user_verification: Some(name), ..old(self)@.ui.invite_popup }),
    {
        self.ui.invite_popup.pending_user_verification = Some(name);
    }

    fn clear_invite_search(&mut self)
        ensures
            final(self)@ == with_invite_form(old(self)@, InviteModel { search_query: Seq::empty(), ..old(self)@.ui.invite_popup }),
    {
        self.ui.invite_popup.search_query = String::new();
    }

    /// Adds the name searched in the invitation form of `cid`, when it can be added and no
    /// check is under way: its check is asked for and the search is cleared.
    pub fn add_searched_invitee(&mut self, cid: u128)
        ensures
            add_invitee_rel(old(self)@, final(self)@, cid),
    {
        if !self.can_add_searched_invitee(cid) || self.pending.pending_user_check.is_some() {
            return;
        }
        let t = trimmed(self.ui.invite_popup.search_query.as_str());
        let ghost a = self@;
        self.set_invite_verification(t.clone());
        let ghost m = self@;
        self.request_dm_creation(t);
        let ghost c = self@;
        self.clear_invite_search();
        proof {
            lemma_add_invitee(a, m, c, self@, t, cid);
        }
    }

    /// Ticks or unticks `username` among the users chosen in the invitation form.
    pub fn set_invitee_selected(&mut self, username: String, selected: bool)
        ensures
            final(self)@ == with_invite_form(
                old(self)@,
                InviteModel {
                    selected_users: if selected {
                        set_insert(old(self)@.ui.invite_popup.selected_users, username)
                    } else {
                        set_remove(old(self)@.ui.invite_popup.selected_users, username@)
                    },
                    ..old(self)@.ui.invite_popup
                },
            ),
            names_distinct(old(self)@.ui.invite_popup.selected_users) ==> names_distinct(
                final(self)@.ui.invite_popup.selected_users,
            ),
    {
        proof {
            if names_distinct(self@.ui.invite_popup.selected_users) {
                lemma_set_insert_distinct(self@.ui.invite_popup.selected_users, username);
                lemma_set_remove_distinct(self@.ui.invite_popup.selected_users, username@);
            }
        }
        if selected {
            crate::checks::insert_unique(&mut self.ui.invite_popup.selected_users, username);
        } else {
            let mut old_list: Vec<String> = Vec::new();
            std::mem::swap(&mut old_list, &mut self.ui.invite_popup.selected_users);
            let kept = without_name(old_list, &username);
            self.ui.invite_popup.selected_users = kept;
        }
    }

    /// Invites the users chosen in the invitation form into conversation `cid`, when there
    /// are any, and empties the form.
    pub fn send_invites(&mut self, cid: u128)
        ensures
            old(self)@.ui.invite_popup.selected_users.len() == 0 ==> final(self)@ == old(self)@,
            old(self)@.ui.invite_popup.selected_users.len() > 0 ==> exists|users: Vec<String>| {
                &&& users@ == old(self)@.ui.invite_popup.selected_users
                &&& final(self)@ == with_invite_form(
                    #[trigger] ws_send_app(old(self)@, Outgoing::InviteUser { cid, usernames: users }),
                    InvitePopupState::new_model(),
                )
            },
    {
        if self.ui.invite_popup.selected_users.len() == 0 {
            return;
        }
        let users = copy_names(&self.ui.invite_popup.selected_users);
        self.send_invite_users(cid, users);
        self.ui.invite_popup.reset();
    }
}

/// Where the first DM of `s` whose title, lowercased, is `lower_name` stands (the length
/// when there is none).
pub open spec fn dm_named_index(s: Seq<ConversationDto>, lower_name: Seq<char>) -> int
    decreases s.len(),
{
    if s.len() == 0 {
        0
    } else if s[0].kind@ == "dm"@ && lowercase(s[0].title@) == lower_name {
        0
    } else {
        1 + dm_named_index(s.drop_first(), lower_name)
    }
}

proof fn lemma_dm_named_index(s: Seq<ConversationDto>, q: Seq<char>, i: int)
    requires
        0 <= i <= s.len(),
        forall|j: int| 0 <= j < i ==> !((#[trigger] s[j]).kind@ == "dm"@ && lowercase(s[j].title@) == q),
        i < s.len() ==> s[i].kind@ == "dm"@ && lowercase(s[i].title@) == q,
    ensures
        dm_named_index(s, q) == i,
    decreases s.len(),
{
    if s.len() > 0 && !(s[0].kind@ == "dm"@ && lowercase(s[0].title@) == q) {
        let t = s.drop_first();
        assert forall|j: int| 0 <= j < i - 1 implies !((#[trigger] t[j]).kind@ == "dm"@ && lowercase(t[j].title@) == q) by {
            assert(t[j] == s[j + 1]);
        }
        if i < s.len() {
            assert(t[i - 1] == s[i]);
        }
        lemma_dm_named_index(t, q, i - 1);
    }
}

/// The DM of the list `convs` that the user means by `name`, ignoring case, if there is one.
pub open spec fn existing_dm(convs: Option<Seq<ConversationDto>>, name: Seq<char>) -> Option<u128> {
    match convs {
        Some(l) => {
            let i = dm_named_index(l, lowercase(name));
            if i < l.len() { Some(l[i].id) } else { None }
        },
        None => None,
    }
}

/// `b` is `a` after the "new DM" form is submitted with `name`: nothing when the name is
/// blank; the DM is opened when there is one with that user; otherwise it is asked for.
pub open spec fn dm_form_rel(a: AppView, b: AppView, name: Seq<char>) -> bool {
    let u = trim(name);
    if u.len() == 0 {
        b == a
    } else {
        match existing_dm(a.data.conversations, u) {
            Some(id) => b == event_app(a, UiEvent::Opened(id)),
            None => dm_request_rel(a, b, u),
        }
    }
}

/// How a conversation is removed when the user asks to delete it.
#[derive(Debug, Clone, Copy, PartialEq, Eq, Structural)]
pub enum DeletionKind {
    /// A DM that the server does not know yet: it is only dropped from the list.
    LocalStub,
    /// A group that the user owns: it is deleted for everyone.
    DeleteGroup,
    /// A group of someone else: the user leaves it.
    LeaveGroup,
    /// A DM: it is deleted.
    DeleteConversation,
}

/// How conversation `c` is removed in state `a`.
pub open spec fn deletion_kind_of(a: AppView, c: ConversationDto) -> DeletionKind {
    if a.stubs.dm_stubs.contains_key(c.id) {
        DeletionKind::LocalStub
    } else if c.kind@ == "group"@ {
        if a.session.user_id == Some(c.owner_id) { DeletionKind::DeleteGroup } else { DeletionKind::LeaveGroup }
    } else {
        DeletionKind::DeleteConversation
    }
}

/// What the confirmation dialog says for a deletion of kind `k` of the conversation titled
/// `title`: its heading, question, warning and confirm button.
pub open spec fn deletion_texts(k: DeletionKind, title: Seq<char>) -> (Seq<char>, Seq<char>, Seq<char>, Seq<char>) {
    match k {
        DeletionKind::LocalStub => (
            "Elimina chat locale"@,
            "Eliminare la chat privata \""@ + title + "\"?"@,
            "Si tratta di uno stub locale: verrà semplicemente rimosso dalla tua lista."@,
            "Elimina"@,
        ),
        DeletionKind::DeleteGroup => (
            "Elimina gruppo"@,
            "Eliminare il gruppo \""@ + title + "\"?"@,
            "Attenzione: eliminando il gruppo, questo verrà rimosso per TUTTI i partecipanti. L'azione è irreversibile."@,
            "Elimina per tutti"@,
        ),
        DeletionKind::LeaveGroup => (
            "Esci dal gruppo"@,
            "Uscire dal gruppo \""@ + title + "\"?"@,
            "Uscirai dal gruppo e non potrai più vedere i messaggi. Potrai rientrare solo se verrai invitato nuovamente."@,
            "Esci dal gruppo"@,
        ),
        DeletionKind::DeleteConversation => (
            "Elimina conversazione"@,
            "Eliminare la chat privata \""@ + title + "\"?"@,
            "L'eliminazione rimuoverà definitivamente la conversazione. L'azione è irreversibile."@,
            "Elimina"@,
        ),
    }
}

/// The texts of the confirmation dialog for a deletion of kind `k` of the conversation
/// titled `title`.
pub fn deletion_dialog(k: DeletionKind, title: &str) -> (r: (String, String, String, String))
    ensures
        (r.0@, r.1@, r.2@, r.3@) == deletion_texts(k, title@),
{
    match k {
        DeletionKind::LocalStub => (
            String::from_str("Elimina chat locale"),
            join3("Eliminare la chat privata \"", title, "\"?"),
            String::from_str("Si tratta di uno stub locale: verrà semplicemente rimosso dalla tua lista."),
            String::from_str("Elimina"),
        ),
        DeletionKind::DeleteGroup => (
            String::from_str("Elimina gruppo"),
            join3("Eliminare il gruppo \"", title, "\"?"),
            String::from_str("Attenzione: eliminando il gruppo, questo verrà rimosso per TUTTI i partecipanti. L'azione è irreversibile."),
            String::from_str("Elimina per tutti"),
        ),
        DeletionKind::LeaveGroup => (
            String::from_str("Esci dal gruppo"),
            join3("Uscire dal gruppo \"", title, "\"?"),
            String::from_str("Uscirai dal gruppo e non potrai più vedere i messaggi. Potrai rientrare solo se verrai invitato nuovamente."),
            String::from_str("Esci dal gruppo"),
        ),
        DeletionKind::DeleteConversation => (
            String::from_str("Elimina conversazione"),
            join3("Eliminare la chat privata \"", title, "\"?"),
            String::from_str("L'eliminazione rimuoverà definitivamente la conversazione. L'azione è irreversibile."),
            String::from_str("Elimina"),
        ),
    }
}

fn dm_position(l: &Vec<ConversationDto>, lower_name: &String) -> (r: usize)
    ensures
        r == dm_named_index(l@, lower_name@),
        r <= l.len(),
{
    let mut i: usize = 0;
    while i < l.len()
        invariant
            i <= l.len(),
            forall|j: int| 0 <= j < i ==> !((#[trigger] l@[j]).kind@ == "dm"@ && lowercase(l@[j].title@) == lower_name@),
        decreases l.len() - i,
    {
        let low = to_lowercase(l[i].title.as_str());
        if is_dm(&l[i]) && same_text(&low, lower_name) {
            proof {
                lemma_dm_named_index(l@, lower_name@, i as int);
            }
            return i;
        }
        i = i + 1;
    }
    proof {
        lemma_dm_named_index(l@, lower_name@, l.len() as int);
    }
    i
}

fn same_text(a: &String, b: &String) -> (r: bool)
    ensures
        r == (a@ == b@),
{
    *a == *b
}

impl AppState {
    /// How conversation `c` is removed when the user asks to delete it.
    pub fn deletion_kind(&self, c: &ConversationDto) -> (r: DeletionKind)
        ensures
            r == deletion_kind_of(self@, *c),
    {
        if self.stubs.dm_stubs.contains_key(&c.id) {
            DeletionKind::LocalStub
        } else if c.kind == String::from_str("group") {
            let owner = match self.session.user_id {
                Some(u) => u == c.owner_id,
                None => false,
            };
            if owner { DeletionKind::DeleteGroup } else { DeletionKind::LeaveGroup }
        } else {
            DeletionKind::DeleteConversation
        }
    }

    fn find_dm_named(&self, lower_name: &String) -> (r: Option<u128>)
        ensures
            r == existing_dm_lower(self@.data.conversations, lower_name@),
    {
        match &self.data.conversations {
            Some(l) => {
                let i = dm_position(l, lower_name);
                if i < l.len() { Some(l[i].id) } else { None }
            },
            None => None,
        }
    }

    /// Submits the "new DM" form with `name`: opens the DM with that user when there is
    /// one, asks for it otherwise; a blank name does nothing.
    pub fn submit_dm_form(&mut self, name: String)
        ensures
            dm_form_rel(old(self)@, final(self)@, name@),
    {
        let u = trimmed(name.as_str());
        if u.as_str().is_empty() {
            return;
        }
        let lower = to_lowercase(u.as_str());
        match self.find_dm_named(&lower) {
            Some(id) => self.send_ui_event(UiEvent::Opened(id)),
            None => self.request_dm_creation(u),
        }
    }
}

/// `existing_dm` for a name already lowercased.
pub open spec fn existing_dm_lower(convs: Option<Seq<ConversationDto>>, lower_name: Seq<char>) -> Option<u128> {
    match convs {
        Some(l) => {
            let i = dm_named_index(l, lower_name);
            if i < l.len() { Some(l[i].id) } else { None }
        },
        None => None,
    }
}

} // verus!
