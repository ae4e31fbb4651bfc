//! What holds of the stores across calls, proved over the same spec
//! functions that the contracts of the operations use.

use vstd::prelude::*;
use vstd::seq_lib::to_multiset_build;
use crate::credentials::{
    after_bootstrap, credentials_accepted, is_first_named, knows, lookup, needs_setup,
};
use crate::hashing::password_matches;
use crate::model::{public_face, SessionView, UserView, SESSION_TTL_SECS};
use crate::sessions::{
    after_issue, after_revoke, after_sweep, holds_id, live_at, not_named, valid_at,
};

verus! {

/// An operation on the credential store.
pub ghost enum CredentialOp {
    /// Asking whether the first user is still to be created.
    NeedsSetup,
    /// Asking for `first` to be admitted as the first user.
    Bootstrap { first: UserView },
    /// Checking a login.
    Verify { username: Seq<char>, password: Seq<char> },
}

/// The credential store after one operation.
pub open spec fn after_op(users: Seq<UserView>, op: CredentialOp) -> Seq<UserView> {
    match op {
        CredentialOp::Bootstrap { first } => after_bootstrap(users, first),
        _ => users,
    }
}

/// The credential store after the operations `ops`, in their order.
pub open spec fn after_ops(users: Seq<UserView>, ops: Seq<CredentialOp>) -> Seq<UserView>
    decreases ops.len(),
{
    if ops.len() == 0 {
        users
    } else {
        after_ops(after_op(users, ops.first()), ops.drop_first())
    }
}

/// Once the store holds a user, no sequence of operations changes it: the
/// setup is never needed again, and every later bootstrap is turned away.
pub proof fn law_setup_never_reopens(users: Seq<UserView>, ops: Seq<CredentialOp>)
    requires
        !needs_setup(users),
    ensures
        after_ops(users, ops) == users,
        !needs_setup(after_ops(users, ops)),
    decreases ops.len(),
{
    if ops.len() > 0 {
        law_setup_never_reopens(after_op(users, ops.first()), ops.drop_first());
    }
}

/// After any sequence of operations the setup is still needed iff it was
/// needed before and no operation of the sequence was a bootstrap.
pub proof fn law_setup_closes_with_the_first_bootstrap(
    users: Seq<UserView>,
    ops: Seq<CredentialOp>,
)
    ensures
        needs_setup(after_ops(users, ops)) <==> needs_setup(users) && forall|i: int|
            0 <= i < ops.len() ==> !((#[trigger] ops[i]) is Bootstrap),
    decreases ops.len(),
{
    if ops.len() > 0 {
        let rest = ops.drop_first();
        law_setup_closes_with_the_first_bootstrap(after_op(users, ops.first()), rest);
        if forall|j: int| 0 <= j < rest.len() ==> !((#[trigger] rest[j]) is Bootstrap) {
            assert forall|i: int| 0 < i < ops.len() implies !((#[trigger] ops[i]) is Bootstrap) by {
                assert(rest[i - 1] == ops[i]);
            }
        }
        if forall|i: int| 0 <= i < ops.len() ==> !((#[trigger] ops[i]) is Bootstrap) {
            assert forall|j: int| 0 <= j < rest.len() implies !((#[trigger] rest[j])
                is Bootstrap) by {
                assert(rest[j] == ops[j + 1]);
            }
        }
    }
}

/// A bootstrap closes the setup whatever the store was, so the bootstrap
/// after it is turned away and changes nothing.
pub proof fn law_second_bootstrap_changes_nothing(
    users: Seq<UserView>,
    first: UserView,
    second: UserView,
)
    ensures
        !needs_setup(after_bootstrap(users, first)),
        after_bootstrap(after_bootstrap(users, first), second) == after_bootstrap(users, first),
{
}

/// Where a name occurs at all, it has a first place.
proof fn lemma_some_place_is_first(users: Seq<UserView>, username: Seq<char>, place: int)
    requires
        0 <= place < users.len(),
        users[place].username == username,
    ensures
        exists|k: int| is_first_named(users, username, k),
    decreases place,
{
    if forall|j: int| 0 <= j < place ==> (#[trigger] users[j]).username != username {
        assert(is_first_named(users, username, place));
    } else {
        let earlier = choose|j: int| 0 <= j < place && (#[trigger] users[j]).username == username;
        lemma_some_place_is_first(users, username, earlier);
    }
}

/// A name that is known is looked up at its first place, and at no other.
pub proof fn law_lookup_finds_the_first_of_a_name(
    users: Seq<UserView>,
    username: Seq<char>,
    place: int,
)
    ensures
        knows(users, username) <==> lookup(users, username) is Some,
        is_first_named(users, username, place) ==> lookup(users, username) == Some(users[place]),
        lookup(users, username) matches Some(user) ==> user.username == username,
{
    if knows(users, username) {
        let some = choose|i: int|
            0 <= i < users.len() && (#[trigger] users[i]).username == username;
        lemma_some_place_is_first(users, username, some);
    }
}

/// A login is accepted iff the name is known and the hash of the first
/// user of that name accepts the password; what comes back is that user
/// without its hash.
pub proof fn law_credentials_accepted_iff(
    users: Seq<UserView>,
    username: Seq<char>,
    password: Seq<char>,
)
    ensures
        credentials_accepted(users, username, password) is Some <==> knows(users, username)
            && password_matches(password, lookup(users, username)->0.password_hash),
        credentials_accepted(users, username, password) matches Some(who) ==> who == public_face(
            lookup(users, username)->0,
        ) && who.username == username,
{
    law_lookup_finds_the_first_of_a_name(users, username, 0);
}

/// A login under a name that no user bears is refused, whatever the
/// password.
pub proof fn law_unknown_user_is_refused(
    users: Seq<UserView>,
    username: Seq<char>,
    password: Seq<char>,
)
    requires
        !knows(users, username),
    ensures
        credentials_accepted(users, username, password) is None,
{
}

/// The first user is let in with the password it was created with: a store
/// whose only user has a hash that accepts `password` accepts that user's
/// name with `password`.
pub proof fn law_first_user_is_accepted(first: UserView, password: Seq<char>)
    requires
        password_matches(password, first.password_hash),
    ensures
        credentials_accepted(after_bootstrap(Seq::empty(), first), first.username, password)
            == Some(public_face(first)),
{
    let users = after_bootstrap(Seq::empty(), first);
    assert(is_first_named(users, first.username, 0));
    law_lookup_finds_the_first_of_a_name(users, first.username, 0);
}

/// A session is valid from the second it was issued until the last second
/// before its time to live is over.
pub proof fn law_issued_session_is_valid(
    sessions: Seq<SessionView>,
    session_id: Seq<char>,
    username: Seq<char>,
    now: nat,
    at: nat,
)
    requires
        at < now + SESSION_TTL_SECS,
    ensures
        valid_at(after_issue(sessions, session_id, username, now), session_id, now),
        valid_at(after_issue(sessions, session_id, username, now), session_id, at),
{
    let after = after_issue(sessions, session_id, username, now);
    assert(after[sessions.len() as int].session_id == session_id);
}

/// A session is invalid from the second `expires_at` on, with no sweep
/// in between: where every session of a name has expired, the name is not
/// valid, and it does not become valid again later.
pub proof fn law_expired_session_is_invalid(
    sessions: Seq<SessionView>,
    session_id: Seq<char>,
    at: nat,
    later: nat,
)
    requires
        forall|i: int|
            0 <= i < sessions.len() && (#[trigger] sessions[i]).session_id == session_id
                ==> sessions[i].expires_at <= at,
        at <= later,
    ensures
        !valid_at(sessions, session_id, at),
        !valid_at(sessions, session_id, later),
{
}

/// A session issued under a name that the store did not hold is valid for
/// exactly its time to live.
pub proof fn law_session_lives_for_its_ttl(
    sessions: Seq<SessionView>,
    session_id: Seq<char>,
    username: Seq<char>,
    now: nat,
    at: nat,
)
    requires
        !holds_id(sessions, session_id),
    ensures
        valid_at(after_issue(sessions, session_id, username, now), session_id, at) <==> at < now
            + SESSION_TTL_SECS,
{
    let after = after_issue(sessions, session_id, username, now);
    if at < now + SESSION_TTL_SECS {
        assert(after[sessions.len() as int].session_id == session_id);
    } else {
        assert forall|i: int| 0 <= i < after.len() implies !((#[trigger] after[i]).session_id
            == session_id && after[i].expires_at > at) by {
            if i < sessions.len() {
                assert(sessions[i] == after[i]);
            }
        }
    }
}

/// How often a session occurs after a filter: as often as before where the
/// filter keeps it, not at all where it does not.
proof fn lemma_filter_counts(
    all: Seq<SessionView>,
    keep: spec_fn(SessionView) -> bool,
    s: SessionView,
)
    ensures
        all.filter(keep).to_multiset().count(s) == if keep(s) {
            all.to_multiset().count(s)
        } else {
            0
        },
    decreases all.len(),
{
    if all.len() == 0 {
        all.lemma_filter_len(keep);
        assert(all.filter(keep) =~= all);
        all.to_multiset_ensures();
    } else {
        let rest = all.drop_last();
        let last = all.last();
        lemma_filter_counts(rest, keep, s);
        assert(all =~= rest.push(last));
        rest.lemma_filter_push(last, keep);
        to_multiset_build(rest, last);
        to_multiset_build(rest.filter(keep), last);
    }
}

/// A sweep removes exactly the sessions with `expires_at <= now`: each of
/// them is gone, and every other session is there as often as before.
pub proof fn law_sweep_removes_exactly_the_expired(
    sessions: Seq<SessionView>,
    now: nat,
    s: SessionView,
)
    ensures
        after_sweep(sessions, now).to_multiset().count(s) == if s.expires_at > now {
            sessions.to_multiset().count(s)
        } else {
            0
        },
        after_sweep(sessions, now).contains(s) <==> sessions.contains(s) && s.expires_at > now,
{
    lemma_filter_counts(sessions, live_at(now), s);
    sessions.to_multiset_ensures();
    after_sweep(sessions, now).to_multiset_ensures();
}

/// A sweep never changes an answer of `is_valid` from its own second on:
/// what it removes was invalid already.
pub proof fn law_sweep_keeps_validity(
    sessions: Seq<SessionView>,
    now: nat,
    session_id: Seq<char>,
    at: nat,
)
    requires
        now <= at,
    ensures
        valid_at(after_sweep(sessions, now), session_id, at) == valid_at(sessions, session_id, at),
{
    let swept = after_sweep(sessions, now);
    if valid_at(sessions, session_id, at) {
        let i = choose|i: int|
            0 <= i < sessions.len() && (#[trigger] sessions[i]).session_id == session_id
                && sessions[i].expires_at > at;
        law_sweep_removes_exactly_the_expired(sessions, now, sessions[i]);
        assert(swept.contains(sessions[i]));
    }
    if valid_at(swept, session_id, at) {
        let j = choose|j: int|
            0 <= j < swept.len() && (#[trigger] swept[j]).session_id == session_id
                && swept[j].expires_at > at;
        law_sweep_removes_exactly_the_expired(sessions, now, swept[j]);
        assert(sessions.contains(swept[j]));
    }
}

/// After a revocation the name is gone from the store, so it is valid at
/// no second.
pub proof fn law_revoked_session_is_invalid(
    sessions: Seq<SessionView>,
    session_id: Seq<char>,
    at: nat,
)
    ensures
        !holds_id(after_revoke(sessions, session_id), session_id),
        !valid_at(after_revoke(sessions, session_id), session_id, at),
{
    let left = after_revoke(sessions, session_id);
    assert forall|i: int| 0 <= i < left.len() implies (#[trigger] left[i]).session_id
        != session_id by {
        sessions.lemma_filter_pred(not_named(session_id), i);
    }
}

/// Revoking a name that the store does not hold changes nothing.
pub proof fn law_revoke_of_unknown_changes_nothing(
    sessions: Seq<SessionView>,
    session_id: Seq<char>,
)
    requires
        !holds_id(sessions, session_id),
    ensures
        after_revoke(sessions, session_id) == sessions,
    decreases sessions.len(),
{
    let keep = not_named(session_id);
    if sessions.len() == 0 {
        sessions.lemma_filter_len(keep);
    } else {
        let rest = sessions.drop_last();
        let last = sessions.last();
        assert(sessions =~= rest.push(last));
        assert forall|i: int| 0 <= i < rest.len() implies (#[trigger] rest[i]).session_id
            != session_id by {
            assert(rest[i] == sessions[i]);
        }
        law_revoke_of_unknown_changes_nothing(rest, session_id);
        rest.lemma_filter_push(last, keep);
    }
}

/// A revocation leaves every session of another name in the store, as
/// often as it was there.
pub proof fn law_revoke_spares_the_others(
    sessions: Seq<SessionView>,
    session_id: Seq<char>,
    s: SessionView,
)
    requires
        s.session_id != session_id,
    ensures
        after_revoke(sessions, session_id).to_multiset().count(s) == sessions.to_multiset().count(
            s,
        ),
{
    lemma_filter_counts(sessions, not_named(session_id), s);
}

} // verus!
