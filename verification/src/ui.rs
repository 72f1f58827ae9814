//! Notifications: the message on the login screen and the toasts shown once logged in.
use vstd::prelude::*;
use crate::external::{new_uuid, now_millis};
use crate::model::Page;
use crate::state::{AppState, Toast, ToastKind, MAX_TOASTS};
use crate::view::{AppView, UiModel};

verus! {

/// The state with `msg` as the login screen's message, an error or not.
pub open spec fn auth_message_app(a: AppView, msg: Option<String>, is_error: bool) -> AppView {
    AppView { ui: UiModel { auth_message: msg, auth_message_is_error: is_error, ..a.ui }, ..a }
}

/// Whether toasts are shown: only once logged in, away from the login page.
pub open spec fn toasts_shown(a: AppView) -> bool {
    a.view.page != Page::Auth && a.session.token is Some
}

/// The toasts after `t` is added: the newest `MAX_TOASTS` of them.
pub open spec fn toasts_after_push(ts: Seq<Toast>, t: Toast) -> Seq<Toast> {
    let s = ts.push(t);
    if s.len() > MAX_TOASTS { s.subrange(s.len() - MAX_TOASTS, s.len() as int) } else { s }
}

/// The state after toast `t` is added.
pub open spec fn toast_app(a: AppView, t: Toast) -> AppView {
    AppView { ui: UiModel { toasts: toasts_after_push(a.ui.toasts, t), ..a.ui }, ..a }
}

/// `t` is a toast of kind `kind` saying `message`; its id and time are whatever the
/// generator and the clock gave.
pub open spec fn toast_says(t: Toast, kind: ToastKind, message: String) -> bool {
    t.kind == kind && t.message == message
}

/// How old a toast created at `created` is at `now`, in milliseconds (never negative).
pub open spec fn age(now: i64, created: i64) -> int {
    if now >= created { now - created } else { 0 }
}

/// The toasts of `ts` younger than `lifetime_ms` at `now`, in order.
pub open spec fn fresh_toasts(ts: Seq<Toast>, now: i64, lifetime_ms: i64) -> Seq<Toast>
    decreases ts.len(),
{
    if ts.len() == 0 {
        Seq::empty()
    } else if age(now, ts.last().created) < lifetime_ms {
        fresh_toasts(ts.drop_last(), now, lifetime_ms).push(ts.last())
    } else {
        fresh_toasts(ts.drop_last(), now, lifetime_ms)
    }
}

/// At most `MAX_TOASTS` toasts are kept, and the toast just added is the newest of them.
pub proof fn lemma_toasts_bounded(ts: Seq<Toast>, t: Toast)
    ensures
        toasts_after_push(ts, t).len() <= MAX_TOASTS,
        toasts_after_push(ts, t).len() > 0,
        toasts_after_push(ts, t).last() == t,
{
}

/// The kind of toast for an error (`is_error`) or for information.
pub open spec fn toast_kind(is_error: bool) -> ToastKind {
    if is_error { ToastKind::Error } else { ToastKind::Info }
}

/// `b` is `a` after `msg` is shown: on the login screen when logged out, as a toast
/// otherwise (when toasts are shown at all).
pub open spec fn notice_rel(a: AppView, b: AppView, msg: String, is_error: bool) -> bool {
    if a.session.token is None {
        b == auth_message_app(a, Some(msg), is_error)
    } else if toasts_shown(a) {
        exists|t: Toast| toast_says(t, toast_kind(is_error), msg) && b == #[trigger] toast_app(a, t)
    } else {
        b == a
    }
}

impl AppState {
    /// Shows `msg` on the login screen.
    pub fn set_auth_message(&mut self, msg: String, is_error: bool)
        ensures
            final(self)@ == auth_message_app(old(self)@, Some(msg), is_error),
    {
        self.ui.auth_message = Some(msg);
        self.ui.auth_message_is_error = is_error;
    }

    /// Clears the login screen's message.
    pub fn clear_auth_message(&mut self)
        ensures
            final(self)@ == auth_message_app(old(self)@, None, false),
    {
        self.ui.auth_message = None;
        self.ui.auth_message_is_error = false;
    }

    /// Shows information: on the login screen when logged out, as a toast otherwise.
    pub fn set_message_info(&mut self, msg: String)
        ensures
            notice_rel(old(self)@, final(self)@, msg, false),
    {
        if self.session.token.is_none() {
            self.set_auth_message(msg, false);
        } else {
            self.push_toast(ToastKind::Info, msg);
        }
    }

    /// Shows an error: on the login screen when logged out, as a toast otherwise.
    pub fn set_message_error(&mut self, msg: String)
        ensures
            notice_rel(old(self)@, final(self)@, msg, true),
    {
        if self.session.token.is_none() {
            self.set_auth_message(msg, true);
        } else {
            self.push_toast(ToastKind::Error, msg);
        }
    }

    /// Adds a toast, keeping only the newest `MAX_TOASTS`; nothing is shown while logged
    /// out or on the login page.
    pub fn push_toast(&mut self, kind: ToastKind, message: String)
        ensures
            !toasts_shown(old(self)@) ==> final(self)@ == old(self)@,
            toasts_shown(old(self)@) ==> exists|t: Toast|
                toast_says(t, kind, message) && final(self)@ == #[trigger] toast_app(old(self)@, t),
    {
        if self.view.page == Page::Auth || self.session.token.is_none() {
            return;
        }
        let id = new_uuid();
        let created = now_millis();
        let toast = Toast { id, message, kind, created };
        let ghost t = toast;
        let ghost s = self.ui.toasts@.push(toast);
        self.ui.toasts.push(toast);
        while self.ui.toasts.len() > MAX_TOASTS
            invariant
                s.len() >= self.ui.toasts@.len(),
                self.ui.toasts@ == s.subrange(s.len() - self.ui.toasts@.len(), s.len() as int),
                s.len() > MAX_TOASTS ==> self.ui.toasts@.len() >= MAX_TOASTS,
                s.len() <= MAX_TOASTS ==> self.ui.toasts@ == s,
                *self == (AppState { ui: crate::state::UiState { toasts: self.ui.toasts, ..old(self).ui }, ..*old(self) }),
            decreases self.ui.toasts.len(),
        {
            self.ui.toasts.remove(0);
        }
        assert(self@ == toast_app(old(self)@, t));
    }

    /// Drops the toasts at least `lifetime_ms` old at time `now`.
    pub fn prune_toasts_at(&mut self, now: i64, lifetime_ms: i64)
        ensures
            final(self)@ == (AppView {
                ui: UiModel { toasts: fresh_toasts(old(self)@.ui.toasts, now, lifetime_ms), ..old(self)@.ui },
                ..old(self)@
            }),
    {
        let ghost orig = self.ui.toasts@;
        let mut kept: Vec<Toast> = Vec::new();
        let mut all = crate::cache::take_vec(&mut self.ui.toasts);
        let n = all.len();
        let mut i: usize = 0;
        while i < n
            invariant
                n == all.len(),
                all@ == orig,
                i <= n,
                kept@ == fresh_toasts(orig.take(i as int), now, lifetime_ms),
            decreases n - i,
        {
            proof {
                assert(orig.take(i + 1).drop_last() =~= orig.take(i as int));
                assert(orig.take(i + 1).last() == orig[i as int]);
            }
            let created = all[i].created;
            let older = (now as i128) - (created as i128);
            let age_ms: i128 = if older > 0 { older } else { 0 };
            if age_ms < lifetime_ms as i128 {
                let t = Toast {
                    id: all[i].id,
                    message: all[i].message.clone(),
                    kind: all[i].kind,
                    created: all[i].created,
                };
                kept.push(t);
            }
            i = i + 1;
        }
        proof {
            assert(orig.take(n as int) =~= orig);
        }
        self.ui.toasts = kept;
    }

    /// Drops the toasts that have been shown for `lifetime_ms` or longer.
    pub fn prune_expired_toasts(&mut self, lifetime_ms: i64)
        ensures
            exists|now: i64| now >= 0 && final(self)@ == (AppView {
                ui: UiModel { toasts: #[trigger] fresh_toasts(old(self)@.ui.toasts, now, lifetime_ms), ..old(self)@.ui },
                ..old(self)@
            }),
    {
        let now = now_millis();
        self.prune_toasts_at(now, lifetime_ms);
    }
}

} // verus!
