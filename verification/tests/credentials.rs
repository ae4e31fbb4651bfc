use auth_core::credentials::{grant, user_from_hash};
use auth_core::{admin_exists, create_user, AuthError, CredentialStore, User};

// bcrypt hashes of cost 4, so that checking them is quick.
const HASH_OF_PASSWORD: &str = "$2a$04$UuTkLRZZ6QofpDOlMz32MuuxEHA43WOemOYHPz6.SjsVsyO1tDU96";
const HASH_OF_STAPLER: &str = "$2b$04$EGdrhbKUv8Oc9vGiXX0HQOxSg445d458Muh7DAHskb6QbtCvdxcie";

fn user(username: &str, password_hash: &str, role: &str) -> User {
    User {
        username: username.to_string(),
        password_hash: password_hash.to_string(),
        role: role.to_string(),
    }
}

#[test]
fn new_credential_store_needs_setup() {
    let store = CredentialStore::new();
    assert!(store.bootstrap_needed());
    assert_eq!(store.len(), 0);
    assert!(store.records().is_empty());
}

#[test]
fn loaded_credential_store_needs_no_setup() {
    let store = CredentialStore::from_users(vec![user("bob", HASH_OF_PASSWORD, "viewer")]);
    assert!(!store.bootstrap_needed());
    assert_eq!(store.len(), 1);
}

#[test]
fn bootstrap_admits_the_first_user() {
    let mut store = CredentialStore::new();
    let who = store.bootstrap(user("root", HASH_OF_PASSWORD, "admin")).unwrap();
    assert_eq!(who.username, "root");
    assert_eq!(who.role, "admin");
    assert_eq!(store.len(), 1);
    assert_eq!(store.records()[0].username, "root");
    assert_eq!(store.records()[0].password_hash, HASH_OF_PASSWORD);
    assert_eq!(store.records()[0].role, "admin");
    assert!(!store.bootstrap_needed());
}

#[test]
fn second_bootstrap_is_turned_away_and_changes_nothing() {
    let mut store = CredentialStore::new();
    store.bootstrap(user("root", HASH_OF_PASSWORD, "admin")).unwrap();
    let second = store.bootstrap(user("other", HASH_OF_STAPLER, "admin"));
    assert_eq!(second.unwrap_err(), AuthError::AlreadyInitialized);
    assert_eq!(store.len(), 1);
    assert_eq!(store.records()[0].username, "root");
    assert_eq!(store.records()[0].password_hash, HASH_OF_PASSWORD);
    let third = store.bootstrap(user("root", HASH_OF_PASSWORD, "admin"));
    assert_eq!(third.unwrap_err(), AuthError::AlreadyInitialized);
    assert_eq!(store.len(), 1);
    assert!(!store.bootstrap_needed());
}

#[test]
fn create_admin_on_a_used_store_is_already_initialized() {
    let mut store = CredentialStore::from_users(vec![user("bob", HASH_OF_PASSWORD, "viewer")]);
    let r = store.create_admin("admin", "secret");
    assert_eq!(r.unwrap_err(), AuthError::AlreadyInitialized);
    assert_eq!(store.len(), 1);
    assert_eq!(store.records()[0].username, "bob");
    assert_eq!(store.records()[0].role, "viewer");
}

#[test]
fn create_admin_stores_a_hash_that_accepts_the_password() {
    let mut store = CredentialStore::new();
    let who = store.create_admin("admin", "secret").unwrap();
    assert_eq!(who.username, "admin");
    assert_eq!(who.role, "admin");
    assert_eq!(store.len(), 1);
    let stored = &store.records()[0];
    assert_eq!(stored.username, "admin");
    assert_eq!(stored.role, "admin");
    assert_ne!(stored.password_hash, "secret");
    assert_eq!(stored.password_hash.len(), 60);
    assert!(bcrypt::verify("secret", &stored.password_hash).unwrap());
}

#[test]
fn create_user_keeps_name_and_role_and_hashes_the_password() {
    let made = create_user("carol", "hunter2", "editor").unwrap();
    assert_eq!(made.username, "carol");
    assert_eq!(made.role, "editor");
    assert_ne!(made.password_hash, "hunter2");
    assert!(made.password_hash.starts_with("$2b$12$"));
    let store = CredentialStore::from_users(vec![made]);
    assert!(store.verify_credentials("carol", "hunter2").is_some());
}

#[test]
fn user_from_hash_takes_the_hash_as_it_is() {
    let made = user_from_hash("dave", Ok(HASH_OF_PASSWORD.to_string()), "admin").unwrap();
    assert_eq!(made.username, "dave");
    assert_eq!(made.password_hash, HASH_OF_PASSWORD);
    assert_eq!(made.role, "admin");
}

#[test]
fn user_from_hash_reports_a_hashing_failure() {
    let failed = user_from_hash("dave", Err(bcrypt::BcryptError::CostNotAllowed(3)), "admin");
    assert_eq!(failed.unwrap_err(), AuthError::HashingFailure);
}

#[test]
fn find_gives_the_first_place_of_a_name() {
    let store = CredentialStore::from_users(vec![
        user("ann", HASH_OF_PASSWORD, "admin"),
        user("bob", HASH_OF_PASSWORD, "viewer"),
        user("bob", HASH_OF_STAPLER, "editor"),
    ]);
    assert_eq!(store.find("ann"), Some(0));
    assert_eq!(store.find("bob"), Some(1));
    assert_eq!(store.find("Bob"), None);
    assert_eq!(store.find(""), None);
    assert_eq!(CredentialStore::new().find("ann"), None);
}

#[test]
fn verify_credentials_accepts_the_right_password() {
    let store = CredentialStore::from_users(vec![
        user("ann", HASH_OF_PASSWORD, "admin"),
        user("bob", HASH_OF_STAPLER, "viewer"),
    ]);
    let ann = store.verify_credentials("ann", "password").unwrap();
    assert_eq!(ann.username, "ann");
    assert_eq!(ann.role, "admin");
    let bob = store.verify_credentials("bob", "correctbatteryhorsestapler").unwrap();
    assert_eq!(bob.username, "bob");
    assert_eq!(bob.role, "viewer");
}

#[test]
fn verify_credentials_refuses_another_password() {
    let store = CredentialStore::from_users(vec![
        user("ann", HASH_OF_PASSWORD, "admin"),
        user("bob", HASH_OF_STAPLER, "viewer"),
    ]);
    assert!(store.verify_credentials("ann", "wrong").is_none());
    assert!(store.verify_credentials("ann", "correctbatteryhorsestapler").is_none());
    assert!(store.verify_credentials("ann", "").is_none());
    // The hash itself is not a password.
    assert!(store.verify_credentials("ann", HASH_OF_PASSWORD).is_none());
}

#[test]
fn verify_credentials_refuses_an_unknown_user() {
    let store = CredentialStore::from_users(vec![user("ann", HASH_OF_PASSWORD, "admin")]);
    assert!(store.verify_credentials("nobody", "password").is_none());
    assert!(store.verify_credentials("Ann", "password").is_none());
    assert!(CredentialStore::new().verify_credentials("ann", "password").is_none());
}

#[test]
fn verify_credentials_refuses_where_the_hash_is_malformed() {
    let store = CredentialStore::from_users(vec![
        user("plain", "password", "admin"),
        user("cut", "$2a$04$tjARW6ZON3PhrAIRW2LG/u9a.", "admin"),
    ]);
    assert!(store.verify_credentials("plain", "password").is_none());
    assert!(store.verify_credentials("cut", "password").is_none());
}

#[test]
fn verify_credentials_goes_by_the_first_record_of_a_name() {
    let store = CredentialStore::from_users(vec![
        user("bob", HASH_OF_PASSWORD, "viewer"),
        user("bob", HASH_OF_STAPLER, "editor"),
    ]);
    let who = store.verify_credentials("bob", "password").unwrap();
    assert_eq!(who.role, "viewer");
    assert!(store.verify_credentials("bob", "correctbatteryhorsestapler").is_none());
}

#[test]
fn grant_lets_in_only_after_a_successful_check() {
    let ann = user("ann", HASH_OF_PASSWORD, "admin");
    let who = grant(&ann, Ok(true)).unwrap();
    assert_eq!(who.username, "ann");
    assert_eq!(who.role, "admin");
    assert!(grant(&ann, Ok(false)).is_none());
    assert!(grant(&ann, Err(bcrypt::BcryptError::CostNotAllowed(99))).is_none());
}

#[test]
fn admin_exists_looks_for_the_admin_role() {
    assert!(!admin_exists(&CredentialStore::new()));
    let viewers = CredentialStore::from_users(vec![
        user("bob", HASH_OF_PASSWORD, "viewer"),
        user("admin", HASH_OF_PASSWORD, "Admin"),
    ]);
    assert!(!admin_exists(&viewers));
    let mixed = CredentialStore::from_users(vec![
        user("bob", HASH_OF_PASSWORD, "viewer"),
        user("ann", HASH_OF_PASSWORD, "admin"),
    ]);
    assert!(admin_exists(&mixed));
}

#[test]
fn user_clone_keeps_every_field() {
    let ann = user("ann", HASH_OF_PASSWORD, "admin");
    let copy = ann.clone();
    assert_eq!(copy.username, ann.username);
    assert_eq!(copy.password_hash, ann.password_hash);
    assert_eq!(copy.role, ann.role);
    let face = ann.to_authenticated();
    assert_eq!(face.username, "ann");
    assert_eq!(face.role, "admin");
}

#[test]
fn setup_stays_closed_through_later_operations() {
    let mut store = CredentialStore::new();
    assert!(store.bootstrap_needed());
    assert!(store.verify_credentials("root", "password").is_none());
    assert!(store.bootstrap_needed());
    store.bootstrap(user("root", HASH_OF_PASSWORD, "admin")).unwrap();
    assert!(!store.bootstrap_needed());
    assert!(store.verify_credentials("root", "password").is_some());
    assert!(!store.bootstrap_needed());
    assert!(store.verify_credentials("root", "wrong").is_none());
    assert!(!store.bootstrap_needed());
    assert!(store.bootstrap(user("next", HASH_OF_STAPLER, "admin")).is_err());
    assert!(!store.bootstrap_needed());
    assert!(store.create_admin("again", "secret").is_err());
    assert!(!store.bootstrap_needed());
    assert_eq!(store.find("next"), None);
    assert_eq!(store.len(), 1);
}
