//! Authentication and session lifecycle for a single-node service.
//!
//! Two stores hold the state: the credential store owns the registered
//! users and the session store owns the issued session tokens.  Every
//! operation is an ordinary function on a store that the caller owns and
//! guards; nothing here touches the disk or the network.
//!
//! - [`model`]: the records and their views.
//! - [`credentials`]: the credential store.
//! - [`sessions`]: the session store, with the time as an argument.
//! - [`service`]: the operations as the transport calls them, on the wall
//!   clock.
//! - [`persistence`]: how a store starts from what was found on disk.
//! - [`error`]: the failures that the operations report.
//! - [`laws`]: what holds of the stores across calls.
//! - [`hashing`], [`token`], [`clock`]: what is taken on trust from
//!   `bcrypt`, `uuid` and the system clock.

pub mod clock;
pub mod credentials;
pub mod error;
pub mod hashing;
pub mod laws;
pub mod model;
pub mod persistence;
pub mod service;
pub mod sessions;
pub mod token;

pub use credentials::{admin_exists, create_user, CredentialStore};
pub use error::AuthError;
pub use model::{AuthenticatedUser, Session, User, SESSION_TTL_SECS};
pub use persistence::{load_sessions, load_users, Document};
pub use service::{
    cleanup_sessions, logout_all_sessions, logout_session, open_session, start_session,
    validate_login, validate_session,
};
pub use sessions::SessionStore;
