//! What applications do with the broker: they are registered, and they ask
//! whether a session is valid.

use crate::broker::{text, Broker};
use crate::guard::parse_id;
use crate::identifiers::hyphenated;
use crate::model::{AppView, BrokerView};
use crate::primitives::{parsed_uuid, random_uuid, unix_nanos_now, CLOCK_LIMIT};
use vstd::prelude::*;
use vstd::string::StringExecFns;

verus! {

/// The store after the application `name` was registered in it.
pub open spec fn with_app(
    s: BrokerView,
    name: Seq<char>,
    url: Seq<char>,
    token: u128,
) -> BrokerView {
    BrokerView {
        users: s.users,
        sessions: s.sessions,
        apps: s.apps.insert(name, AppView { secret: hyphenated(token), url }),
    }
}

/// Registers the application `name` with the secret that is the text of
/// `token`, and returns the secret. An application of that name is replaced.
pub fn add_app_with(broker: &mut Broker, name: &str, url: &str, token: u128) -> (secret: String)
    ensures
        secret@ == hyphenated(token),
        final(broker)@ == with_app(old(broker)@, name@, url@, token),
{
    broker.apps.register_with(name, url, token)
}

/// Registers the application `name` with a fresh random secret, and returns
/// the secret. Nothing is asked of the caller: whoever registers an
/// application learns its secret.
pub fn add_app(broker: &mut Broker, name: &str, url: &str) -> (secret: String)
    ensures
        exists|token: u128|
            secret@ == hyphenated(token) && final(broker)@ == #[trigger] with_app(
                old(broker)@,
                name@,
                url@,
                token,
            ),
{
    let token = random_uuid();
    let secret = add_app_with(broker, name, url, token);
    assert(broker@ == with_app(old(broker)@, name@, url@, token));
    secret
}

/// What the broker answers an application that asks about a session.
#[derive(Clone, Debug, PartialEq, Eq)]
pub enum Validation {
    /// The request showed no secret.
    Unauthenticated,
    /// The session's identifier could not be read; the request fails.
    Malformed,
    /// No session has this identifier.
    UnknownSession,
    /// The session has ended.
    Expired,
    /// No application has this name.
    UnknownApp,
    /// The secret is not the application's.
    WrongSecret,
    /// The session is valid: it belongs to `username` and was opened for
    /// `app`.
    Valid { username: String, app: String },
}

pub enum ValidationView {
    Unauthenticated,
    Malformed,
    UnknownSession,
    Expired,
    UnknownApp,
    WrongSecret,
    Valid { username: Seq<char>, app: Seq<char> },
}

impl View for Validation {
    type V = ValidationView;

    open spec fn view(&self) -> ValidationView {
        match *self {
            Validation::Unauthenticated => ValidationView::Unauthenticated,
            Validation::Malformed => ValidationView::Malformed,
            Validation::UnknownSession => ValidationView::UnknownSession,
            Validation::Expired => ValidationView::Expired,
            Validation::UnknownApp => ValidationView::UnknownApp,
            Validation::WrongSecret => ValidationView::WrongSecret,
            Validation::Valid { username, app } => ValidationView::Valid {
                username: username@,
                app: app@,
            },
        }
    }
}

/// The answer to an application that asks about the session `ssid` in the
/// name of the application `name`, at the time `now`. The questions are
/// asked in this order, and the first that fails gives the answer: was a
/// secret shown, can the identifier be read, is the session in the store,
/// does it end after `now`, is the application registered, is the secret
/// the application's.
pub open spec fn validation(
    s: BrokerView,
    ssid: Option<u128>,
    name: Seq<char>,
    authorization: Option<Seq<char>>,
    now: int,
) -> ValidationView {
    match (authorization, ssid) {
        (None, _) => ValidationView::Unauthenticated,
        (Some(_), None) => ValidationView::Malformed,
        (Some(secret), Some(id)) => if !s.sessions.contains_key(id) {
            ValidationView::UnknownSession
        } else if s.sessions[id].expires <= now {
            ValidationView::Expired
        } else if !s.apps.contains_key(name) {
            ValidationView::UnknownApp
        } else if s.apps[name].secret != secret {
            ValidationView::WrongSecret
        } else {
            ValidationView::Valid { username: s.sessions[id].username, app: s.sessions[id].app }
        },
    }
}

/// The store after that answer. Only a wrong secret changes it: the broker
/// then removes the session whose identifier the secret itself reads as,
/// if it reads as one. The session that was asked about stays.
pub open spec fn after_validation(
    s: BrokerView,
    ssid: Option<u128>,
    name: Seq<char>,
    authorization: Option<Seq<char>>,
    secret_id: Option<u128>,
    now: int,
) -> BrokerView {
    match (validation(s, ssid, name, authorization, now), secret_id) {
        (ValidationView::WrongSecret, Some(id)) => BrokerView {
            users: s.users,
            sessions: s.sessions.remove(id),
            apps: s.apps,
        },
        _ => s,
    }
}

/// What a secret reads as when it is taken for an identifier.
pub open spec fn read_as_id(authorization: Option<Seq<char>>) -> Option<u128> {
    match authorization {
        Some(secret) => parsed_uuid(secret),
        None => None,
    }
}

/// Answers an application, given the readings of the session's identifier
/// and of the secret as identifiers, and the time, all made elsewhere.
/// `secret_id` is what the secret reads as, `None` where it is no
/// identifier; it is looked at only where `authorization` holds a secret.
pub fn auth_session_with(
    broker: &mut Broker,
    ssid: Option<u128>,
    name: &str,
    authorization: Option<&str>,
    secret_id: Option<u128>,
    now: i128,
) -> (out: Validation)
    ensures
        out@ == validation(old(broker)@, ssid, name@, text(authorization), now as int),
        final(broker)@ == after_validation(
            old(broker)@,
            ssid,
            name@,
            text(authorization),
            secret_id,
            now as int,
        ),
{
    let secret = match authorization {
        Some(secret) => secret,
        None => return Validation::Unauthenticated,
    };
    let id = match ssid {
        Some(id) => id,
        None => return Validation::Malformed,
    };
    let (username, app) = match broker.sessions.get(id) {
        None => return Validation::UnknownSession,
        Some(session) => {
            if session.expires <= now {
                return Validation::Expired;
            }
            (session.username.clone(), session.app.clone())
        },
    };
    let secret_matches = match broker.apps.lookup(name) {
        None => return Validation::UnknownApp,
        Some(found) => found.secret == String::from_str(secret),
    };
    if secret_matches {
        Validation::Valid { username, app }
    } else {
        if let Some(named) = secret_id {
            broker.sessions.remove(named);
        }
        Validation::WrongSecret
    }
}

/// Answers an application that asks about the session whose identifier is
/// the text `ssid`, in the name of the application `name`.
///
/// The answer is the one `validation` gives at the time of the call; the
/// time itself is not known before the call.
pub fn auth_session(
    broker: &mut Broker,
    ssid: &str,
    name: &str,
    authorization: Option<&str>,
) -> (out: Validation)
    ensures
        exists|now: int|
            {
                &&& -CLOCK_LIMIT <= now <= CLOCK_LIMIT
                &&& out@ == #[trigger] validation(
                    old(broker)@,
                    parsed_uuid(ssid@),
                    name@,
                    text(authorization),
                    now,
                )
                &&& final(broker)@ == after_validation(
                    old(broker)@,
                    parsed_uuid(ssid@),
                    name@,
                    text(authorization),
                    read_as_id(text(authorization)),
                    now,
                )
            },
{
    let secret_id = match authorization {
        Some(secret) => parse_id(secret),
        None => None,
    };
    let now = unix_nanos_now();
    let out = auth_session_with(broker, parse_id(ssid), name, authorization, secret_id, now);
    assert(out@ == validation(
        old(broker)@,
        parsed_uuid(ssid@),
        name@,
        text(authorization),
        now as int,
    ));
    out
}

} // verus!
