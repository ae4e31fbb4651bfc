use auth_core::clock::unix_now;
use auth_core::{
    cleanup_sessions, logout_all_sessions, logout_session, validate_login, validate_session,
    AuthError, CredentialStore, Session, SessionStore, User, SESSION_TTL_SECS,
};

const HASH_OF_PASSWORD: &str = "$2a$04$UuTkLRZZ6QofpDOlMz32MuuxEHA43WOemOYHPz6.SjsVsyO1tDU96";

fn admin_with_password_password() -> CredentialStore {
    CredentialStore::from_users(vec![User {
        username: "admin".to_string(),
        password_hash: HASH_OF_PASSWORD.to_string(),
        role: "admin".to_string(),
    }])
}

fn session(session_id: &str, expires_at: u64) -> Session {
    Session {
        session_id: session_id.to_string(),
        username: "admin".to_string(),
        created_at: 0,
        expires_at,
    }
}

#[test]
fn bootstrap_login_validate_logout() {
    let mut users = CredentialStore::new();
    let mut sessions = SessionStore::new();
    assert!(users.bootstrap_needed());
    assert!(users.create_admin("admin", "secret").is_ok());
    assert!(!users.bootstrap_needed());
    assert_eq!(users.create_admin("admin2", "x").unwrap_err(), AuthError::AlreadyInitialized);
    assert_eq!(users.len(), 1);
    let token = validate_login(&users, &mut sessions, "admin", "secret").unwrap();
    assert!(validate_session(&sessions, &token));
    assert!(logout_session(&mut sessions, &token));
    assert!(!validate_session(&sessions, &token));
    assert_eq!(sessions.len(), 0);
}

#[test]
fn login_with_a_wrong_password_leaves_the_sessions_alone() {
    let users = admin_with_password_password();
    let mut sessions = SessionStore::new();
    let first = validate_login(&users, &mut sessions, "admin", "password").unwrap();
    assert_eq!(sessions.len(), 1);
    assert!(validate_login(&users, &mut sessions, "admin", "wrong").is_none());
    assert_eq!(sessions.len(), 1);
    assert_eq!(sessions.records()[0].session_id, first);
    assert!(validate_login(&users, &mut sessions, "nobody", "password").is_none());
    assert_eq!(sessions.len(), 1);
}

#[test]
fn login_issues_a_session_for_a_day_from_now() {
    let users = admin_with_password_password();
    let mut sessions = SessionStore::new();
    let before = unix_now().unwrap();
    let token = validate_login(&users, &mut sessions, "admin", "password").unwrap();
    let after = unix_now().unwrap();
    assert_eq!(sessions.len(), 1);
    let s = &sessions.records()[0];
    assert_eq!(s.session_id, token);
    assert_eq!(s.username, "admin");
    assert!(before <= s.created_at && s.created_at <= after);
    assert_eq!(s.expires_at, s.created_at + SESSION_TTL_SECS);
}

#[test]
fn login_tokens_are_hyphenated_and_fresh() {
    let users = admin_with_password_password();
    let mut sessions = SessionStore::new();
    let one = validate_login(&users, &mut sessions, "admin", "password").unwrap();
    let two = validate_login(&users, &mut sessions, "admin", "password").unwrap();
    assert_eq!(one.chars().count(), 36);
    assert_eq!(two.chars().count(), 36);
    assert_ne!(one, two);
    assert_eq!(sessions.len(), 2);
    assert!(validate_session(&sessions, &one));
    assert!(validate_session(&sessions, &two));
}

#[test]
fn the_clock_reads_a_time_after_the_year_2020() {
    let now = unix_now().unwrap();
    assert!(now > 1_577_836_800);
}

#[test]
fn validate_session_goes_by_the_wall_clock() {
    let sessions = SessionStore::from_sessions(vec![
        session("past", 1),
        session("future", u64::MAX),
    ]);
    assert!(!validate_session(&sessions, "past"));
    assert!(validate_session(&sessions, "future"));
    assert!(!validate_session(&sessions, "unknown"));
    assert_eq!(sessions.len(), 2);
}

#[test]
fn cleanup_sessions_removes_what_has_expired_by_now() {
    let mut sessions = SessionStore::from_sessions(vec![
        session("past", 1),
        session("future", u64::MAX),
        session("long-ago", 1_000_000),
    ]);
    assert_eq!(cleanup_sessions(&mut sessions), 2);
    assert_eq!(sessions.len(), 1);
    assert_eq!(sessions.records()[0].session_id, "future");
    assert_eq!(cleanup_sessions(&mut sessions), 0);
    assert_eq!(sessions.len(), 1);
}

#[test]
fn logout_of_an_unknown_session_is_no_error() {
    let mut sessions = SessionStore::from_sessions(vec![session("a", u64::MAX)]);
    assert!(!logout_session(&mut sessions, "b"));
    assert_eq!(sessions.len(), 1);
    assert!(validate_session(&sessions, "a"));
}

#[test]
fn logout_all_ends_every_session() {
    let mut sessions = SessionStore::from_sessions(vec![
        session("a", u64::MAX),
        session("b", u64::MAX),
    ]);
    assert_eq!(logout_all_sessions(&mut sessions), 2);
    assert_eq!(sessions.len(), 0);
    assert!(!validate_session(&sessions, "a"));
    assert_eq!(logout_all_sessions(&mut sessions), 0);
}

#[test]
fn start_session_issues_without_asking_for_credentials() {
    let mut sessions = SessionStore::new();
    let token = auth_core::start_session(&mut sessions, "ann").unwrap();
    assert_eq!(token.chars().count(), 36);
    assert_eq!(sessions.len(), 1);
    assert_eq!(sessions.records()[0].session_id, token);
    assert_eq!(sessions.records()[0].username, "ann");
    assert_eq!(
        sessions.records()[0].expires_at,
        sessions.records()[0].created_at + SESSION_TTL_SECS
    );
    assert!(validate_session(&sessions, &token));
}

#[test]
fn a_session_outlives_its_user() {
    let users = admin_with_password_password();
    let mut sessions = SessionStore::new();
    let token = validate_login(&users, &mut sessions, "admin", "password").unwrap();
    // The credential store is replaced by an empty one; the session stays valid.
    let users = CredentialStore::new();
    assert!(users.bootstrap_needed());
    assert!(validate_session(&sessions, &token));
}

#[test]
fn open_session_issues_from_the_reading_under_the_token() {
    let mut sessions = SessionStore::new();
    let token = auth_core::open_session(&mut sessions, "ann", Some(1_000), "tok-1".to_string());
    assert_eq!(token, Some("tok-1".to_string()));
    assert_eq!(sessions.len(), 1);
    let s = &sessions.records()[0];
    assert_eq!(s.session_id, "tok-1");
    assert_eq!(s.username, "ann");
    assert_eq!(s.created_at, 1_000);
    assert_eq!(s.expires_at, 87_400);
}

#[test]
fn open_session_without_a_reading_issues_nothing() {
    let mut sessions = SessionStore::from_sessions(vec![session("a", u64::MAX)]);
    let token = auth_core::open_session(&mut sessions, "ann", None, "tok-1".to_string());
    assert_eq!(token, None);
    assert_eq!(sessions.len(), 1);
    assert_eq!(sessions.records()[0].session_id, "a");
}

#[test]
fn open_session_needs_room_for_the_whole_life() {
    let mut sessions = SessionStore::new();
    let last = u64::MAX - SESSION_TTL_SECS;
    let late = auth_core::open_session(&mut sessions, "ann", Some(last + 1), "late".to_string());
    assert_eq!(late, None);
    assert_eq!(sessions.len(), 0);
    let never = auth_core::open_session(&mut sessions, "ann", Some(u64::MAX), "never".to_string());
    assert_eq!(never, None);
    assert_eq!(sessions.len(), 0);
    let fits = auth_core::open_session(&mut sessions, "ann", Some(last), "fits".to_string());
    assert_eq!(fits, Some("fits".to_string()));
    assert_eq!(sessions.records()[0].expires_at, u64::MAX);
}
