//! A session broker: it keeps credentials, sessions and registered
//! applications in one in-memory store, signs users in, and answers
//! applications that ask whether a session is valid.
//!
//! Every request flow is a function from the store and plain request values
//! to an outcome; carrying the outcome over HTTP is left to the caller.

pub mod apps;
pub mod broker;
pub mod credentials;
pub mod guarantees;
pub mod guard;
pub mod identifiers;
pub mod model;
pub mod primitives;
pub mod reply;
pub mod sessions;
pub mod signin;
pub mod validate;

pub use crate::apps::AppRegistry;
pub use crate::broker::{Broker, Grant};
pub use crate::credentials::{CredentialError, CredentialStore};
pub use crate::guard::{
    auth, auth_with, delete, delete_session, delete_session_with, delete_with, logout,
    logout_with, read_cookie, DeleteOutcome, LogoutOutcome, Presented, RevokeOutcome,
};
pub use crate::model::{App, Session, User};
pub use crate::reply::{CookieChange, Reply};
pub use crate::sessions::SessionStore;
pub use crate::signin::{
    login, login_with, register, register_with, LoginOutcome, Query, RegisterOutcome,
};
pub use crate::validate::{add_app, add_app_with, auth_session, auth_session_with, Validation};
