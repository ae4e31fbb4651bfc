//! The operations of the service, as its transport calls them.
//!
//! Each of them reads what it needs from the outside world (the wall clock,
//! a fresh token) and hands it to the stores.  What the clock will say is
//! not known here, so the contracts say what holds for whatever reading
//! came back; a clock that cannot be read never validates nor issues a
//! session.
//!
//! Writing a store to its document is the caller's part.  Each operation
//! that changes a store says in its answer whether the document is due; the
//! caller holds the store's lock from the call until the document is
//! written, so that the change and its mirror are one critical section.

use vstd::prelude::*;
use crate::clock::unix_now;
use crate::credentials::{credentials_accepted, CredentialStore};
use crate::model::{SessionView, UserView, SESSION_TTL_SECS};
use crate::sessions::{after_issue, after_revoke, after_sweep, holds_id, valid_at, SessionStore};
use crate::token::fresh_session_id;

verus! {

/// Whether `session_id` is valid when the clock reads `clock`.
pub open spec fn validated(
    sessions: Seq<SessionView>,
    session_id: Seq<char>,
    clock: Option<u64>,
) -> bool {
    match clock {
        Some(now) => valid_at(sessions, session_id, now as nat),
        None => false,
    }
}

/// The store after a clean-up when the clock reads `clock`.
pub open spec fn cleaned(sessions: Seq<SessionView>, clock: Option<u64>) -> Seq<SessionView> {
    match clock {
        Some(now) => after_sweep(sessions, now as nat),
        None => sessions,
    }
}

/// Whether `after` is `before` with one more session, issued to `username`
/// under `token` at a second from which the session's whole life fits the
/// clock.
pub open spec fn opened(
    before: Seq<SessionView>,
    after: Seq<SessionView>,
    token: Seq<char>,
    username: Seq<char>,
) -> bool {
    exists|now: nat|
        now + SESSION_TTL_SECS <= u64::MAX && after == #[trigger] after_issue(
            before,
            token,
            username,
            now,
        )
}

/// Issues a session for `username` now, under a fresh token, and returns
/// the token.  Where the clock cannot be read, or reads a second so late
/// that the session's expiry would not fit 64 bits, nothing is issued.
/// The token is drawn from the operating system's randomness; a system
/// without any stops the call.  The caller mirrors the store when a token
/// comes back.
pub fn start_session(sessions: &mut SessionStore, username: &str) -> (r: Option<String>)
    ensures
        exists|clock: Option<u64>, token: Seq<char>|
            token.len() == 36 && #[trigger] started(
                old(sessions)@,
                final(sessions)@,
                token_of(r),
                username@,
                clock,
                token,
            ),
        match r {
            Some(token) => {
                &&& opened(old(sessions)@, final(sessions)@, token@, username@)
                &&& token@.len() == 36
            },
            None => final(sessions)@ == old(sessions)@,
        },
{
    let clock = unix_now();
    let token = fresh_session_id();
    let ghost drawn = token@;
    let r = open_session(sessions, username, clock, token);
    assert(started(old(sessions)@, sessions@, token_of(r), username@, clock, drawn));
    r
}

/// Logs a user in: checks the credentials against `users` and, where they
/// are accepted, starts a session as [`start_session`] does.  A caller with
/// a lock on each store makes the two calls itself, one under each lock.
/// Refused credentials give `None` and leave `sessions` as it was.
pub fn validate_login(
    users: &CredentialStore,
    sessions: &mut SessionStore,
    username: &str,
    password: &str,
) -> (r: Option<String>)
    ensures
        exists|clock: Option<u64>, token: Seq<char>|
            token.len() == 36 && #[trigger] logged_in(
                users@,
                old(sessions)@,
                final(sessions)@,
                token_of(r),
                username@,
                password@,
                clock,
                token,
            ),
        credentials_accepted(users@, username@, password@) is None ==> r is None,
        match r {
            Some(token) => {
                &&& credentials_accepted(users@, username@, password@) is Some
                &&& opened(old(sessions)@, final(sessions)@, token@, username@)
                &&& token@.len() == 36
            },
            None => final(sessions)@ == old(sessions)@,
        },
{
    match users.verify_credentials(username, password) {
        Some(_) => {
            let r = start_session(sessions, username);
            proof {
                let (clock, token) = choose|clock: Option<u64>, token: Seq<char>|
                    token.len() == 36 && #[trigger] started(
                        old(sessions)@,
                        sessions@,
                        token_of(r),
                        username@,
                        clock,
                        token,
                    );
                assert(logged_in(
                    users@,
                    old(sessions)@,
                    sessions@,
                    token_of(r),
                    username@,
                    password@,
                    clock,
                    token,
                ));
            }
            r
        },
        None => {
            let ghost any = Seq::new(36, |i: int| ' ');
            let r: Option<String> = None;
            assert(logged_in(
                users@,
                old(sessions)@,
                sessions@,
                token_of(r),
                username@,
                password@,
                None,
                any,
            ));
            r
        },
    }
}

/// The second from which a session runs when the clock reads `clock`: the
/// reading itself, unless there is none or the session's expiry would not
/// fit 64 bits.
pub open spec fn start_second(clock: Option<u64>) -> Option<nat> {
    match clock {
        Some(now) => if now + SESSION_TTL_SECS <= u64::MAX {
            Some(now as nat)
        } else {
            None
        },
        None => None,
    }
}

/// The token that came back, as its characters.
pub open spec fn token_of(returned: Option<String>) -> Option<Seq<char>> {
    match returned {
        Some(token) => Some(token@),
        None => None,
    }
}

/// What starting a session for `username` does when the clock reads
/// `clock` and the token drawn is `token`: with a second to start from, the
/// session is issued under `token` and `token` comes back; without one,
/// the store stays as it was and nothing comes back.
pub open spec fn started(
    before: Seq<SessionView>,
    after: Seq<SessionView>,
    returned: Option<Seq<char>>,
    username: Seq<char>,
    clock: Option<u64>,
    token: Seq<char>,
) -> bool {
    match start_second(clock) {
        Some(now) => after == after_issue(before, token, username, now) && returned == Some(token),
        None => after == before && returned is None,
    }
}

/// What a login does when the clock reads `clock` and the token drawn is
/// `token`: accepted credentials start a session, refused ones leave the
/// store as it was and give nothing back.
pub open spec fn logged_in(
    users: Seq<UserView>,
    before: Seq<SessionView>,
    after: Seq<SessionView>,
    returned: Option<Seq<char>>,
    username: Seq<char>,
    password: Seq<char>,
    clock: Option<u64>,
    token: Seq<char>,
) -> bool {
    if credentials_accepted(users, username, password) is Some {
        started(before, after, returned, username, clock, token)
    } else {
        after == before && returned is None
    }
}

/// Starts a session for `username` from a reading of the clock and a token
/// already drawn.  With a reading from which the session's whole life fits
/// 64 bits the session is issued under `token` and `token` is returned;
/// with no reading, or a later one, nothing is issued and `None` is
/// returned.
pub fn open_session(
    sessions: &mut SessionStore,
    username: &str,
    clock: Option<u64>,
    token: String,
) -> (r: Option<String>)
    ensures
        started(old(sessions)@, final(sessions)@, token_of(r), username@, clock, token@),
        r == if start_second(clock) is Some {
            Some(token)
        } else {
            None
        },
{
    match clock {
        Some(now) => {
            if now > u64::MAX - SESSION_TTL_SECS {
                return None;
            }
            sessions.issue(token.as_str(), username, now);
            Some(token)
        },
        None => None,
    }
}

/// Whether `session_id` names a session that is valid now.  Nothing is
/// removed from the store.
pub fn validate_session(sessions: &SessionStore, session_id: &str) -> (valid: bool)
    ensures
        exists|clock: Option<u64>| valid == #[trigger] validated(sessions@, session_id@, clock),
        !holds_id(sessions@, session_id@) ==> !valid,
{
    let clock = unix_now();
    let valid = match clock {
        Some(now) => sessions.is_valid(session_id, now),
        None => false,
    };
    assert(valid == validated(sessions@, session_id@, clock));
    valid
}

/// Removes the sessions that have expired by now and tells how many went.
/// The caller mirrors the store only when the number is not 0.
pub fn cleanup_sessions(sessions: &mut SessionStore) -> (removed: usize)
    ensures
        exists|clock: Option<u64>| final(sessions)@ == #[trigger] cleaned(old(sessions)@, clock),
        removed == old(sessions)@.len() - final(sessions)@.len(),
{
    let clock = unix_now();
    let removed = match clock {
        Some(now) => sessions.sweep_expired(now),
        None => 0,
    };
    assert(sessions@ == cleaned(old(sessions)@, clock));
    removed
}

/// Ends the session `session_id` and tells whether there was one.  Ending
/// an unknown session changes nothing.  The caller mirrors the store only
/// when the answer is `true`.
pub fn logout_session(sessions: &mut SessionStore, session_id: &str) -> (changed: bool)
    ensures
        final(sessions)@ == after_revoke(old(sessions)@, session_id@),
        changed == holds_id(old(sessions)@, session_id@),
{
    sessions.revoke(session_id)
}

/// Ends every session and tells how many there were.  The caller mirrors
/// the store whatever the number.
pub fn logout_all_sessions(sessions: &mut SessionStore) -> (count: usize)
    ensures
        final(sessions)@ == Seq::<SessionView>::empty(),
        count == old(sessions)@.len(),
{
    sessions.revoke_all()
}

} // verus!
