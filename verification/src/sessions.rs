//! The session store: it issues, validates, revokes and sweeps session
//! tokens.
//!
//! The store keeps its sessions in the order in which they were issued.  A
//! session is valid at a given second iff the store holds it and that second
//! lies before its `expires_at`; an expired session stays in the store,
//! invalid, until a sweep or a revocation removes it.  Every operation takes
//! the current time as an argument, so that what it does is a function of its
//! inputs alone.

use vstd::prelude::*;
use crate::model::{session_views, Session, SessionView, SESSION_TTL_SECS};

verus! {

/// The session that `issue` records for `username` under `session_id` at
/// the second `now`.
pub open spec fn issued(session_id: Seq<char>, username: Seq<char>, now: nat) -> SessionView {
    SessionView {
        session_id,
        username,
        created_at: now,
        expires_at: now + SESSION_TTL_SECS as nat,
    }
}

/// The sessions that have not expired at the second `now`.
pub open spec fn live_at(now: nat) -> spec_fn(SessionView) -> bool {
    |s: SessionView| s.expires_at > now
}

/// The sessions that go by another name than `session_id`.
pub open spec fn not_named(session_id: Seq<char>) -> spec_fn(SessionView) -> bool {
    |s: SessionView| s.session_id != session_id
}

/// Whether some session goes by the name `session_id`, expired or not.
pub open spec fn holds_id(sessions: Seq<SessionView>, session_id: Seq<char>) -> bool {
    exists|i: int|
        0 <= i < sessions.len() && (#[trigger] sessions[i]).session_id == session_id
}

/// Whether `session_id` names a session that has not expired at `now`.
pub open spec fn valid_at(sessions: Seq<SessionView>, session_id: Seq<char>, now: nat) -> bool {
    exists|i: int|
        0 <= i < sessions.len() && (#[trigger] sessions[i]).session_id == session_id
            && sessions[i].expires_at > now
}

/// The store after a session was issued.
pub open spec fn after_issue(
    sessions: Seq<SessionView>,
    session_id: Seq<char>,
    username: Seq<char>,
    now: nat,
) -> Seq<SessionView> {
    sessions.push(issued(session_id, username, now))
}

/// The store after `session_id` was revoked: every session of that name is
/// gone, the others stay in their order.
pub open spec fn after_revoke(sessions: Seq<SessionView>, session_id: Seq<char>) -> Seq<
    SessionView,
> {
    sessions.filter(not_named(session_id))
}

/// The store after a sweep at `now`: the sessions with `expires_at <= now`
/// are gone, the others stay in their order.
pub open spec fn after_sweep(sessions: Seq<SessionView>, now: nat) -> Seq<SessionView> {
    sessions.filter(live_at(now))
}

/// Filtering one element more either appends that element or changes
/// nothing.
proof fn lemma_filter_next(all: Seq<SessionView>, i: int, keep: spec_fn(SessionView) -> bool)
    requires
        0 <= i < all.len(),
    ensures
        all.take(i + 1).filter(keep) == if keep(all[i]) {
            all.take(i).filter(keep).push(all[i])
        } else {
            all.take(i).filter(keep)
        },
{
    assert(all.take(i + 1) =~= all.take(i).push(all[i]));
    all.take(i).lemma_filter_push(all[i], keep);
}

/// The active sessions of the service.
pub struct SessionStore {
    sessions: Vec<Session>,
}

impl View for SessionStore {
    type V = Seq<SessionView>;

    closed spec fn view(&self) -> Seq<SessionView> {
        session_views(self.sessions@)
    }
}

impl SessionStore {
    /// A store without sessions.
    pub fn new() -> (store: SessionStore)
        ensures
            store@ == Seq::<SessionView>::empty(),
    {
        SessionStore { sessions: Vec::new() }
    }

    /// A store that holds `sessions`, in their order.
    pub fn from_sessions(sessions: Vec<Session>) -> (store: SessionStore)
        ensures
            store@ == session_views(sessions@),
    {
        SessionStore { sessions }
    }

    /// The sessions of the store, in their order: what a caller writes out
    /// when it mirrors the store.
    pub fn records(&self) -> (sessions: &Vec<Session>)
        ensures
            session_views(sessions@) == self@,
    {
        &self.sessions
    }

    /// The number of sessions in the store, expired ones included.
    pub fn len(&self) -> (n: usize)
        ensures
            n == self@.len(),
    {
        self.sessions.len()
    }

    /// Records a session for `username` under `session_id`, issued at `now`
    /// and valid for [`SESSION_TTL_SECS`] seconds.
    pub fn issue(&mut self, session_id: &str, username: &str, now: u64)
        requires
            now + SESSION_TTL_SECS <= u64::MAX,
        ensures
            final(self)@ == after_issue(old(self)@, session_id@, username@, now as nat),
    {
        let session = Session {
            session_id: session_id.to_owned(),
            username: username.to_owned(),
            created_at: now,
            expires_at: now + SESSION_TTL_SECS,
        };
        self.sessions.push(session);
    }

    /// Whether `session_id` names a session that has not expired at `now`.
    /// Nothing is removed, an expired session included.
    pub fn is_valid(&self, session_id: &str, now: u64) -> (valid: bool)
        ensures
            valid == valid_at(self@, session_id@, now as nat),
    {
        let wanted = session_id.to_owned();
        let n = self.sessions.len();
        let mut i: usize = 0;
        while i < n
            invariant
                i <= n,
                n == self.sessions.len(),
                wanted@ == session_id@,
                !valid_at(self@.take(i as int), session_id@, now as nat),
            decreases n - i,
        {
            let session = &self.sessions[i];
            if session.session_id == wanted && session.expires_at > now {
                assert(self@[i as int] == session@);
                return true;
            }
            i += 1;
        }
        assert(self@.take(n as int) =~= self@);
        false
    }

    /// Removes every session that goes by the name `session_id` and tells
    /// whether there was one.  The caller mirrors the store only when the
    /// answer is `true`.
    pub fn revoke(&mut self, session_id: &str) -> (changed: bool)
        ensures
            final(self)@ == after_revoke(old(self)@, session_id@),
            changed == holds_id(old(self)@, session_id@),
    {
        let wanted = session_id.to_owned();
        let ghost all = self@;
        let ghost keep = not_named(session_id@);
        let mut before: Vec<Session> = Vec::new();
        std::mem::swap(&mut self.sessions, &mut before);
        let n = before.len();
        let mut kept: Vec<Session> = Vec::new();
        proof {
            all.take(0).lemma_filter_len(keep);
        }
        for session in it: before
            invariant
                all == session_views(it.seq()),
                n == it.seq().len(),
                keep == not_named(session_id@),
                wanted@ == session_id@,
                session_views(kept@) == all.take(it.index() as int).filter(keep),
                kept.len() <= it.index(),
                kept.len() == it.index() <==> !holds_id(all.take(it.index() as int), session_id@),
        {
            proof {
                lemma_filter_next(all, it.index() as int, keep);
                if session@.session_id == session_id@ {
                    assert(all.take(it.index() + 1)[it.index() as int] == session@);
                }
            }
            if session.session_id != wanted {
                kept.push(session);
            }
        }
        assert(all.take(n as int) =~= all);
        let changed = kept.len() != n;
        self.sessions = kept;
        changed
    }

    /// Removes every session and tells how many there were.  The caller
    /// mirrors the store whatever the number.
    pub fn revoke_all(&mut self) -> (count: usize)
        ensures
            final(self)@ == Seq::<SessionView>::empty(),
            count == old(self)@.len(),
    {
        let count = self.sessions.len();
        self.sessions.clear();
        count
    }

    /// Removes every session with `expires_at <= now` and tells how many
    /// went.  The caller mirrors the store only when the number is not 0.
    pub fn sweep_expired(&mut self, now: u64) -> (removed: usize)
        ensures
            final(self)@ == after_sweep(old(self)@, now as nat),
            removed == old(self)@.len() - final(self)@.len(),
    {
        let ghost all = self@;
        let ghost keep = live_at(now as nat);
        let mut before: Vec<Session> = Vec::new();
        std::mem::swap(&mut self.sessions, &mut before);
        let n = before.len();
        let mut kept: Vec<Session> = Vec::new();
        proof {
            all.take(0).lemma_filter_len(keep);
        }
        for session in it: before
            invariant
                all == session_views(it.seq()),
                n == it.seq().len(),
                keep == live_at(now as nat),
                session_views(kept@) == all.take(it.index() as int).filter(keep),
                kept.len() <= it.index(),
        {
            proof {
                lemma_filter_next(all, it.index() as int, keep);
            }
            if session.expires_at > now {
                kept.push(session);
            }
        }
        assert(all.take(n as int) =~= all);
        let removed = n - kept.len();
        self.sessions = kept;
        removed
    }
}

} // verus!
