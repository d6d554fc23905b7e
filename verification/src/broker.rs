//! The store the broker works on, and what every sign-in has in common:
//! opening a session and choosing where to send the user next.

use crate::apps::AppRegistry;
use crate::credentials::CredentialStore;
use crate::model::{AppView, BrokerView, SessionView, UserView, SESSION_NANOS};
use crate::identifiers::hyphenated;
use crate::primitives::uuid_text;
use crate::sessions::{opened, SessionStore};
use vstd::prelude::*;
use vstd::string::StringExecFns;

verus! {

/// Credentials, sessions and applications, held together so that one
/// exclusive borrow covers a whole request.
pub struct Broker {
    pub users: CredentialStore,
    pub sessions: SessionStore,
    pub apps: AppRegistry,
}

impl View for Broker {
    type V = BrokerView;

    open spec fn view(&self) -> BrokerView {
        BrokerView { users: self.users@, sessions: self.sessions@, apps: self.apps@ }
    }
}

impl Broker {
    /// A broker that knows no user, no session and no application.
    pub fn new() -> (r: Broker)
        ensures
            r@.users == Map::<Seq<char>, UserView>::empty(),
            r@.sessions == Map::<u128, SessionView>::empty(),
            r@.apps == Map::<Seq<char>, AppView>::empty(),
    {
        Broker {
            users: CredentialStore::new(),
            sessions: SessionStore::new(),
            apps: AppRegistry::new(),
        }
    }
}

/// The texts of an optional borrowed string.
pub open spec fn text(s: Option<&str>) -> Option<Seq<char>> {
    match s {
        Some(s) => Some(s@),
        None => None,
    }
}

/// A session just issued: what the caller needs to set the cookie and send
/// the user on.
#[derive(Clone, Debug, PartialEq, Eq)]
pub struct Grant {
    /// The identifier of the new session.
    pub session: u128,
    /// When the session ends, in nanoseconds since the Unix epoch.
    pub expires: i128,
    /// Where the user is sent next.
    pub location: String,
}

pub struct GrantView {
    pub session: u128,
    pub expires: int,
    pub location: Seq<char>,
}

impl View for Grant {
    type V = GrantView;

    open spec fn view(&self) -> GrantView {
        GrantView {
            session: self.session,
            expires: self.expires as int,
            location: self.location@,
        }
    }
}

/// Where a user who signed in for `app` is sent. Where `app` is registered
/// and `secret` is its secret, that is the application's callback address
/// with `id=` and the session's identifier appended as they stand;
/// otherwise it is the broker's own front page.
pub open spec fn landing(
    apps: Map<Seq<char>, AppView>,
    app: Seq<char>,
    secret: Seq<char>,
    id: u128,
) -> Seq<char> {
    if apps.contains_key(app) && apps[app].secret == secret {
        apps[app].url + "id="@ + hyphenated(id)
    } else {
        "/"@
    }
}

/// The store after a session was opened in it.
pub open spec fn with_session(
    s: BrokerView,
    id: u128,
    username: Seq<char>,
    now: int,
    ip: Seq<char>,
    app: Seq<char>,
) -> BrokerView {
    BrokerView {
        users: s.users,
        sessions: s.sessions.insert(id, opened(username, now, ip, app)),
        apps: s.apps,
    }
}

/// The grant for a session opened at `now` under `id`.
pub open spec fn granted(
    s: BrokerView,
    id: u128,
    now: int,
    app: Seq<char>,
    secret: Seq<char>,
) -> GrantView {
    GrantView {
        session: id,
        expires: now + SESSION_NANOS,
        location: landing(s.apps, app, secret, id),
    }
}

/// Chooses where to send a user who signed in for `app` showing `secret`.
pub fn landing_for(apps: &AppRegistry, app: &str, secret: &str, id: u128) -> (location: String)
    ensures
        location@ == landing(apps@, app@, secret@, id),
{
    match apps.lookup(app) {
        Some(found) => {
            if found.secret == String::from_str(secret) {
                let mut location = found.url.clone();
                location.append("id=");
                location.append(uuid_text(id).as_str());
                location
            } else {
                String::from_str("/")
            }
        },
        None => String::from_str("/"),
    }
}

/// Opens a session for `username` under `id` and chooses where to send the
/// user. Only the session map changes.
pub fn open_session(
    broker: &mut Broker,
    id: u128,
    now: i128,
    username: &str,
    ip: &str,
    app: &str,
    secret: &str,
) -> (grant: Grant)
    requires
        now + SESSION_NANOS <= i128::MAX,
    ensures
        final(broker)@ == with_session(old(broker)@, id, username@, now as int, ip@, app@),
        grant@ == granted(old(broker)@, id, now as int, app@, secret@),
{
    let location = landing_for(&broker.apps, app, secret, id);
    let expires = broker.sessions.create_with(id, now, username, ip, app);
    Grant { session: id, expires, location }
}

} // verus!
