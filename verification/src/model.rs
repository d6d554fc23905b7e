//! The three kinds of record the broker keeps, each with its mathematical
//! view, and the view of the whole store.

use vstd::prelude::*;

verus! {

/// The length of a session: seven days, in nanoseconds.
pub const SESSION_NANOS: i128 = 604_800_000_000_000;

/// A credential record. The user's name is the key it is stored under.
#[derive(Clone, Debug, PartialEq, Eq)]
pub struct User {
    /// The bcrypt hash of the password; the password itself is never kept.
    pub password: String,
}

pub struct UserView {
    pub password: Seq<char>,
}

impl View for User {
    type V = UserView;

    open spec fn view(&self) -> UserView {
        UserView { password: self.password@ }
    }
}

/// A session record. The session's identifier is the key it is stored under.
#[derive(Clone, Debug, PartialEq, Eq)]
pub struct Session {
    /// The name of the user that signed in. The user may since have been
    /// deleted: look the name up again before use.
    pub username: String,
    /// When the session ends, in nanoseconds since the Unix epoch.
    pub expires: i128,
    /// The address the user signed in from.
    pub ip: String,
    /// The name of the application the user signed in for.
    pub app: String,
}

pub struct SessionView {
    pub username: Seq<char>,
    pub expires: int,
    pub ip: Seq<char>,
    pub app: Seq<char>,
}

impl View for Session {
    type V = SessionView;

    open spec fn view(&self) -> SessionView {
        SessionView {
            username: self.username@,
            expires: self.expires as int,
            ip: self.ip@,
            app: self.app@,
        }
    }
}

/// A registered application. Its name is the key it is stored under.
#[derive(Clone, Debug, PartialEq, Eq)]
pub struct App {
    /// The secret the application shows to prove who it is.
    pub secret: String,
    /// The address the user is sent back to; the session's identifier is
    /// appended to it as it stands.
    pub url: String,
}

pub struct AppView {
    pub secret: Seq<char>,
    pub url: Seq<char>,
}

impl View for App {
    type V = AppView;

    open spec fn view(&self) -> AppView {
        AppView { secret: self.secret@, url: self.url@ }
    }
}

impl User {
    /// A copy of the record.
    pub fn duplicate(&self) -> (r: User)
        ensures
            r@ == self@,
    {
        User { password: self.password.clone() }
    }
}

impl Session {
    /// A copy of the record.
    pub fn duplicate(&self) -> (r: Session)
        ensures
            r@ == self@,
    {
        Session {
            username: self.username.clone(),
            expires: self.expires,
            ip: self.ip.clone(),
            app: self.app.clone(),
        }
    }
}

impl App {
    /// A copy of the record.
    pub fn duplicate(&self) -> (r: App)
        ensures
            r@ == self@,
    {
        App { secret: self.secret.clone(), url: self.url.clone() }
    }
}

/// The whole store as three maps.
#[verifier::ext_equal]
pub struct BrokerView {
    pub users: Map<Seq<char>, UserView>,
    pub sessions: Map<u128, SessionView>,
    pub apps: Map<Seq<char>, AppView>,
}

} // verus!
