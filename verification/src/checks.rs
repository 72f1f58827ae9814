//! Answers to user checks, and the clean-up of requests that waited too long.
use vstd::prelude::*;
use crate::external::{new_uuid, now_millis, now_secs};
use crate::messages::{mark_failed, mark_failed_in};
use crate::model::{ErrorType, MessageDto, Page, UiEvent};
use crate::state::{AppState, USER_CHECK_TIMEOUT_MS};
use crate::text::{lowercase, to_lowercase};
use crate::view::{AppView, ChatModel, CreateGroupModel, DataModel, InviteModel, PendingModel, UiModel};

use crate::laws::{keys_distinct, lemma_set_insert_distinct, lemma_still_waiting_distinct, names_distinct};

verus! {

/// Whether one of the names of `s` reads `x`.
pub open spec fn has_name(s: Seq<String>, x: Seq<char>) -> bool {
    exists|j: int| 0 <= j < s.len() && (#[trigger] s[j])@ == x
}

/// `s` with `x` added unless a name reading the same is already there: a set kept as a list.
pub open spec fn set_insert(s: Seq<String>, x: String) -> Seq<String> {
    if has_name(s, x@) { s } else { s.push(x) }
}

/// Whether `o` holds a text reading as `s`.
pub open spec fn holds_text(o: Option<String>, s: Seq<char>) -> bool {
    match o {
        Some(x) => x@ == s,
        None => false,
    }
}

/// Adds `x` to the list unless it is already there.
pub(crate) fn insert_unique(v: &mut Vec<String>, x: String)
    ensures
        final(v)@ == set_insert(old(v)@, x),
{
    let mut i: usize = 0;
    while i < v.len()
        invariant
            i <= v.len(),
            forall|j: int| 0 <= j < i ==> (#[trigger] v@[j])@ != x@,
        decreases v.len() - i,
    {
        if v[i] == x {
            assert(has_name(v@, x@)) by {
                assert(v@[i as int]@ == x@);
            }
            return;
        }
        i = i + 1;
    }
    v.push(x);
}

/// `e` reports a generic error with text `text`.
pub open spec fn generic_error_is(e: UiEvent, text: Seq<char>) -> bool {
    e matches UiEvent::Error(ErrorType::Generic(t)) && t@ == text
}

/// The state without a user check waiting for its answer.
pub open spec fn check_cleared(a: AppView) -> AppView {
    AppView {
        pending: PendingModel { pending_user_check: None, user_check_request_id: None, user_check_timestamp: None, ..a.pending },
        ..a
    }
}

/// Whether a form waiting to verify `pending` is the one `username` answers, ignoring case.
pub open spec fn answers(pending: Option<String>, username: Seq<char>) -> bool {
    match pending {
        Some(p) => lowercase(p@) == lowercase(username),
        None => false,
    }
}

/// The state after the answer that user `username` does (`exists`) or does not exist,
/// for the current check, reaches the "create group" form waiting for it (before the
/// error, when the user does not exist).
pub open spec fn group_form_answer_app(a: AppView, username: String, exists: bool) -> AppView {
    AppView {
        ui: UiModel {
            create_group_popup: CreateGroupModel {
                selected_participants: if exists {
                    set_insert(a.ui.create_group_popup.selected_participants, username)
                } else {
                    a.ui.create_group_popup.selected_participants
                },
                pending_user_verification: None,
                ..a.ui.create_group_popup
            },
            ..a.ui
        },
        ..a
    }
}

/// The same for the "invite members" form.
pub open spec fn invite_form_answer_app(a: AppView, username: String, exists: bool) -> AppView {
    AppView {
        ui: UiModel {
            invite_popup: InviteModel {
                selected_users: if exists {
                    set_insert(a.ui.invite_popup.selected_users, username)
                } else {
                    a.ui.invite_popup.selected_users
                },
                pending_user_verification: None,
                ..a.ui.invite_popup
            },
            ..a.ui
        },
        ..a
    }
}

/// The state after a DM with the existing user `username` is opened under the temporary
/// id `temp`.
pub open spec fn dm_open_app(a: AppView, username: String, temp: u128) -> AppView {
    AppView { view: ChatModel { cid: Some(temp), page: Page::Chat, conv_title: username@, messages: Seq::empty(), ..a.view }, ..a }
}

/// The text reporting that user `u` was not found.
pub open spec fn not_found_text(u: Seq<char>) -> Seq<char> {
    "Utente '"@ + u + "' non trovato"@
}

/// The text reporting that user `u` does not exist.
pub open spec fn no_such_user_text(u: Seq<char>) -> Seq<char> {
    "Utente '"@ + u + "' non esiste"@
}

/// `b` is `a` with one more event, the last one.
pub open spec fn with_one_event(a: AppView, b: AppView) -> bool {
    b == (AppView { ui_events: a.ui_events.push(b.ui_events.last()), ..a })
}

/// The message `m` failed to be confirmed: reported, and marked as not confirmed on
/// screen and in its conversation's cache.
pub open spec fn fail_one_app(a: AppView, m: MessageDto) -> AppView {
    AppView {
        ui_events: a.ui_events.push(UiEvent::MessageSendFailed(m.id)),
        view: ChatModel { messages: mark_failed_in(a.view.messages, m.id), ..a.view },
        data: if a.data.conversation_messages.contains_key(m.conversation_id) {
            DataModel {
                conversation_messages: a.data.conversation_messages.insert(
                    m.conversation_id,
                    mark_failed_in(a.data.conversation_messages[m.conversation_id], m.id),
                ),
                ..a.data
            }
        } else {
            a.data
        },
        ..a
    }
}

/// Whether message `m`, sent at `m.created_at` (seconds), waited more than `timeout`
/// seconds at `now`.
pub open spec fn expired_at(m: MessageDto, now: i64, timeout: i64) -> bool {
    now - m.created_at > timeout
}

/// The state after each expired message of `ps`, in order, is reported as failed.
pub open spec fn fail_expired(a: AppView, ps: Seq<(String, MessageDto)>, now: i64, timeout: i64) -> AppView
    decreases ps.len(),
{
    if ps.len() == 0 {
        a
    } else {
        let a1 = fail_expired(a, ps.drop_last(), now, timeout);
        if expired_at(ps.last().1, now, timeout) { fail_one_app(a1, ps.last().1) } else { a1 }
    }
}

proof fn lemma_fail_expired_pending(a: AppView, ps: Seq<(String, MessageDto)>, now: i64, timeout: i64)
    ensures
        fail_expired(a, ps, now, timeout).pending == a.pending,
    decreases ps.len(),
{
    if ps.len() > 0 {
        lemma_fail_expired_pending(a, ps.drop_last(), now, timeout);
    }
}

/// The entries of `ps` that have not expired, in order.
pub open spec fn still_waiting(ps: Seq<(String, MessageDto)>, now: i64, timeout: i64) -> Seq<(String, MessageDto)>
    decreases ps.len(),
{
    if ps.len() == 0 {
        Seq::empty()
    } else if expired_at(ps.last().1, now, timeout) {
        still_waiting(ps.drop_last(), now, timeout)
    } else {
        still_waiting(ps.drop_last(), now, timeout).push(ps.last())
    }
}

/// The state after the confirmations waiting longer than the timeout are given up at
/// `now` (seconds).
pub open spec fn confirmations_expired_app(a: AppView, now: i64) -> AppView {
    let t = a.pending.confirmation_timeout_secs;
    let ps = a.pending.pending_confirmations;
    let a0 = AppView { pending: PendingModel { pending_confirmations: still_waiting(ps, now, t), ..a.pending }, ..a };
    fail_expired(a0, ps, now, t)
}

/// Whether a check started at `t` timed out at `now` (milliseconds).
pub open spec fn check_timed_out(t: i64, now: i64) -> bool {
    now - t > USER_CHECK_TIMEOUT_MS
}

/// `b` is `a` after the user check was given up at `now` if it had timed out.
pub open spec fn user_check_cleanup(a: AppView, b: AppView, now: i64) -> bool {
    match a.pending.user_check_timestamp {
        Some(t) if check_timed_out(t, now) => with_one_event(check_cleared(a), b)
            && generic_error_is(b.ui_events.last(), "Timeout verifica utente. Riprova."@),
        _ => b == a,
    }
}

/// Whether `expired` holds for a message sent at `created` at `now`, given `timeout`.
fn is_expired(created: i64, now: i64, timeout: i64) -> (r: bool)
    ensures
        r == (now - created > timeout),
{
    (now as i128) - (created as i128) > timeout as i128
}

/// Reports message `m` as failed and marks it as not confirmed.
fn fail_one(state: &mut AppState, m: &MessageDto)
    ensures
        final(state)@ == fail_one_app(old(state)@, *m),
{
    state.send_ui_event(UiEvent::MessageSendFailed(m.id));
    match state.data.conversation_messages.remove(&m.conversation_id) {
        Some(mut cache) => {
            mark_failed(&mut cache, m.id);
            state.data.conversation_messages.insert(m.conversation_id, cache);
            proof {
                assert(state@.data.conversation_messages =~= old(state)@.data.conversation_messages.insert(
                    m.conversation_id, mark_failed_in(old(state)@.data.conversation_messages[m.conversation_id], m.id)));
            }
        },
        None => {
            proof {
                assert(state@.data.conversation_messages =~= old(state)@.data.conversation_messages);
            }
        },
    }
    mark_failed(&mut state.view.messages, m.id);
}

/// `b` is `a` after the answer that user `username` does (`exists`) or does not exist
/// arrived for the user check `request_id`.
pub open spec fn user_check_result_rel(a: AppView, b: AppView, username: String, exists: bool, request_id: String) -> bool {
    let c = check_cleared(a);
    if !holds_text(a.pending.user_check_request_id, request_id@) {
        b == a
    } else if answers(a.ui.create_group_popup.pending_user_verification, username@) {
        if exists {
            b == group_form_answer_app(c, username, true)
        } else {
            with_one_event(group_form_answer_app(c, username, false), b)
                && generic_error_is(b.ui_events.last(), not_found_text(username@))
        }
    } else if answers(a.ui.invite_popup.pending_user_verification, username@) {
        if exists {
            b == invite_form_answer_app(c, username, true)
        } else {
            with_one_event(invite_form_answer_app(c, username, false), b)
                && generic_error_is(b.ui_events.last(), not_found_text(username@))
        }
    } else if exists {
        exists|temp: u128| b == #[trigger] dm_open_app(c, username, temp)
    } else {
        with_one_event(c, b) && generic_error_is(b.ui_events.last(), no_such_user_text(username@))
    }
}

impl AppState {
    /// Whether a token is held.
    pub fn is_authenticated(&self) -> (r: bool)
        ensures
            r == self.session.token is Some,
    {
        self.session.token.is_some()
    }

    /// Whether a user check waits for its answer.
    pub fn is_checking_user(&self) -> (r: bool)
        ensures
            r == self.pending.pending_user_check is Some,
    {
        self.pending.pending_user_check.is_some()
    }

    /// The answer to the user check `request_id`: a stale answer is ignored; otherwise it
    /// goes to the "create group" form, or to the "invite members" form, when one of them
    /// waits for that user; else an existing user gets a DM opened under a temporary id.
    pub fn handle_user_check_result(&mut self, username: String, exists: bool, user_id: Option<u128>, request_id: String)
        ensures
            user_check_result_rel(old(self)@, final(self)@, username, exists, request_id),
            names_distinct(old(self)@.ui.create_group_popup.selected_participants) ==> names_distinct(
                final(self)@.ui.create_group_popup.selected_participants,
            ),
            names_distinct(old(self)@.ui.invite_popup.selected_users) ==> names_distinct(
                final(self)@.ui.invite_popup.selected_users,
            ),
    {
        proof {
            if names_distinct(self@.ui.create_group_popup.selected_participants) {
                lemma_set_insert_distinct(self@.ui.create_group_popup.selected_participants, username);
            }
            if names_distinct(self@.ui.invite_popup.selected_users) {
                lemma_set_insert_distinct(self@.ui.invite_popup.selected_users, username);
            }
        }
        let _ = user_id;
        let current = match &self.pending.user_check_request_id {
            Some(r) => *r == request_id,
            None => false,
        };
        if !current {
            return;
        }
        self.pending.pending_user_check = None;
        self.pending.user_check_request_id = None;
        self.pending.user_check_timestamp = None;
        let lower = to_lowercase(username.as_str());
        let for_group = match &self.ui.create_group_popup.pending_user_verification {
            Some(p) => to_lowercase(p.as_str()) == lower,
            None => false,
        };
        if for_group {
            if exists {
                insert_unique(&mut self.ui.create_group_popup.selected_participants, username);
            } else {
                let text = crate::text::join3("Utente '", username.as_str(), "' non trovato");
                self.send_ui_event(UiEvent::Error(ErrorType::Generic(text)));
            }
            self.ui.create_group_popup.pending_user_verification = None;
            return;
        }
        let for_invite = match &self.ui.invite_popup.pending_user_verification {
            Some(p) => to_lowercase(p.as_str()) == lower,
            None => false,
        };
        if for_invite {
            if exists {
                insert_unique(&mut self.ui.invite_popup.selected_users, username);
            } else {
                let text = crate::text::join3("Utente '", username.as_str(), "' non trovato");
                self.send_ui_event(UiEvent::Error(ErrorType::Generic(text)));
            }
            self.ui.invite_popup.pending_user_verification = None;
            return;
        }
        if exists {
            let temp = new_uuid();
            self.view.cid = Some(temp);
            self.view.page = Page::Chat;
            self.view.conv_title = username;
            self.view.messages = Vec::new();
            assert(self@ == dm_open_app(check_cleared(old(self)@), self.view.conv_title, temp));
        } else {
            let text = crate::text::join3("Utente '", username.as_str(), "' non esiste");
            self.send_ui_event(UiEvent::Error(ErrorType::Generic(text)));
        }
    }

    /// Gives up, at `now` (milliseconds), a user check that waited too long.
    pub fn cleanup_pending_user_check_at(&mut self, now: i64)
        ensures
            user_check_cleanup(old(self)@, final(self)@, now),
    {
        if let Some(t) = self.pending.user_check_timestamp {
            if (now as i128) - (t as i128) > USER_CHECK_TIMEOUT_MS as i128 {
                self.send_ui_event(UiEvent::Error(ErrorType::Generic(String::from_str("Timeout verifica utente. Riprova."))));
                self.pending.pending_user_check = None;
                self.pending.user_check_request_id = None;
                self.pending.user_check_timestamp = None;
            }
        }
    }

    /// Gives up a user check that waited too long.
    pub fn cleanup_pending_user_check(&mut self)
        ensures
            exists|now: i64| now >= 0 && #[trigger] user_check_cleanup(old(self)@, final(self)@, now),
    {
        let now = now_millis();
        self.cleanup_pending_user_check_at(now);
    }

    /// Gives up, at `now` (seconds), the confirmations that waited longer than the timeout.
    pub fn cleanup_pending_confirmations_at(&mut self, now: i64)
        ensures
            final(self)@ == confirmations_expired_app(old(self)@, now),
            keys_distinct(old(self)@.pending.pending_confirmations) ==> keys_distinct(
                final(self)@.pending.pending_confirmations,
            ),
    {
        proof {
            let a = self@;
            let ps0 = a.pending.pending_confirmations;
            let t0 = a.pending.confirmation_timeout_secs;
            let a0 = AppView { pending: PendingModel { pending_confirmations: still_waiting(ps0, now, t0), ..a.pending }, ..a };
            lemma_fail_expired_pending(a0, ps0, now, t0);
            if keys_distinct(ps0) {
                lemma_still_waiting_distinct(ps0, now, t0);
            }
        }
        let timeout = self.pending.confirmation_timeout_secs;
        let ps = crate::cache::take_vec(&mut self.pending.pending_confirmations);
        let ghost orig = ps@;
        let mut kept: Vec<(String, MessageDto)> = Vec::new();
        let mut i: usize = 0;
        while i < ps.len()
            invariant
                i <= ps.len(),
                ps@ == orig,
                kept@ == still_waiting(orig.take(i as int), now, timeout),
            decreases ps.len() - i,
        {
            proof {
                assert(orig.take(i + 1).drop_last() =~= orig.take(i as int));
                assert(orig.take(i + 1).last() == orig[i as int]);
            }
            if !is_expired(ps[i].1.created_at, now, timeout) {
                kept.push((ps[i].0.clone(), ps[i].1.duplicate()));
            }
            i = i + 1;
        }
        proof {
            assert(orig.take(ps.len() as int) =~= orig);
        }
        self.pending.pending_confirmations = kept;
        let ghost a0 = self@;
        let mut j: usize = 0;
        while j < ps.len()
            invariant
                j <= ps.len(),
                ps@ == orig,
                self@ == fail_expired(a0, orig.take(j as int), now, timeout),
            decreases ps.len() - j,
        {
            proof {
                assert(orig.take(j + 1).drop_last() =~= orig.take(j as int));
                assert(orig.take(j + 1).last() == orig[j as int]);
            }
            if is_expired(ps[j].1.created_at, now, timeout) {
                fail_one(self, &ps[j].1);
            }
            j = j + 1;
        }
        proof {
            assert(orig.take(ps.len() as int) =~= orig);
        }
    }

    /// Gives up the confirmations that waited longer than the timeout.
    pub fn cleanup_pending_confirmations(&mut self)
        ensures
            exists|now: i64| now >= 0 && final(self)@ == #[trigger] confirmations_expired_app(old(self)@, now),
    {
        let now = now_secs();
        self.cleanup_pending_confirmations_at(now);
    }
}

} // verus!
