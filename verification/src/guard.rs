//! The flows that start from a session cookie: finding out who is calling,
//! signing out, deleting the account, and revoking another session.

use crate::broker::{text, Broker};
use crate::model::{BrokerView, Session, SessionView, User, UserView};
use crate::primitives::{parse_uuid, parsed_uuid};
use vstd::prelude::*;

verus! {

/// What a request presented as its session cookie.
#[derive(Clone, Copy, Debug, PartialEq, Eq, Structural)]
pub enum Presented {
    /// No cookie.
    Absent,
    /// A cookie whose value is not the text of an identifier.
    Malformed,
    /// A cookie with this identifier.
    Id(u128),
}

/// The reading of a cookie value.
pub open spec fn presented(cookie: Option<Seq<char>>) -> Presented {
    match cookie {
        None => Presented::Absent,
        Some(value) => match parsed_uuid(value) {
            Some(id) => Presented::Id(id),
            None => Presented::Malformed,
        },
    }
}

/// Reads a text that should be an identifier.
pub fn parse_id(value: &str) -> (r: Option<u128>)
    ensures
        r == parsed_uuid(value@),
{
    match parse_uuid(value) {
        Ok(id) => Some(id),
        Err(_) => None,
    }
}

/// Reads the session cookie of a request.
pub fn read_cookie(cookie: Option<&str>) -> (r: Presented)
    ensures
        r == presented(text(cookie)),
{
    match cookie {
        None => Presented::Absent,
        Some(value) => match parse_id(value) {
            Some(id) => Presented::Id(id),
            None => Presented::Malformed,
        },
    }
}

/// The caller behind a cookie: the session it names and the user that
/// session belongs to, where both are in the store. Whether the session
/// has expired plays no part.
pub open spec fn caller(s: BrokerView, cookie: Presented) -> Option<(u128, SessionView, UserView)> {
    match cookie {
        Presented::Id(id) if s.sessions.contains_key(id) && s.users.contains_key(
            s.sessions[id].username,
        ) => Some((id, s.sessions[id], s.users[s.sessions[id].username])),
        _ => None,
    }
}

/// The views of what the guard hands out.
pub open spec fn caller_view(r: Option<(u128, Session, User)>) -> Option<
    (u128, SessionView, UserView),
> {
    match r {
        Some((id, session, user)) => Some((id, session@, user@)),
        None => None,
    }
}

/// Resolves the caller behind a cookie that was read elsewhere.
pub fn auth_with(broker: &Broker, cookie: Presented) -> (r: Option<(u128, Session, User)>)
    ensures
        caller_view(r) == caller(broker@, cookie),
{
    match cookie {
        Presented::Id(id) => match broker.sessions.get(id) {
            Some(session) => match broker.users.get(session.username.as_str()) {
                Some(user) => Some((id, session.duplicate(), user.duplicate())),
                None => None,
            },
            None => None,
        },
        _ => None,
    }
}

/// Resolves the caller of a request from its session cookie: the session's
/// identifier, the session and its user, or nothing where the cookie is
/// missing or unreadable, names no session, or names a session whose user
/// is gone.
pub fn auth(broker: &Broker, cookie: Option<&str>) -> (r: Option<(u128, Session, User)>)
    ensures
        caller_view(r) == caller(broker@, presented(text(cookie))),
{
    auth_with(broker, read_cookie(cookie))
}

/// How a sign-out ended.
#[derive(Clone, Copy, Debug, PartialEq, Eq, Structural)]
pub enum LogoutOutcome {
    /// There was no cookie. Nothing changed, and the cookie is left alone.
    NoCookie,
    /// The cookie could not be read. Nothing changed; the request fails.
    Malformed,
    /// The session the cookie names is gone from the store, whether or not
    /// it was there; the cookie is to be cleared.
    LoggedOut,
}

/// Sign-out as a step of the store: the session the cookie names is
/// removed, and nothing else.
pub open spec fn logout_step(s: BrokerView, cookie: Presented) -> (BrokerView, LogoutOutcome) {
    match cookie {
        Presented::Absent => (s, LogoutOutcome::NoCookie),
        Presented::Malformed => (s, LogoutOutcome::Malformed),
        Presented::Id(id) => (
            BrokerView { users: s.users, sessions: s.sessions.remove(id), apps: s.apps },
            LogoutOutcome::LoggedOut,
        ),
    }
}

/// Signs out the session of a cookie that was read elsewhere.
pub fn logout_with(broker: &mut Broker, cookie: Presented) -> (out: LogoutOutcome)
    ensures
        (final(broker)@, out) == logout_step(old(broker)@, cookie),
{
    match cookie {
        Presented::Absent => LogoutOutcome::NoCookie,
        Presented::Malformed => LogoutOutcome::Malformed,
        Presented::Id(id) => {
            broker.sessions.remove(id);
            LogoutOutcome::LoggedOut
        },
    }
}

/// Signs out the session named by the request's cookie.
pub fn logout(broker: &mut Broker, cookie: Option<&str>) -> (out: LogoutOutcome)
    ensures
        (final(broker)@, out) == logout_step(old(broker)@, presented(text(cookie))),
{
    logout_with(broker, read_cookie(cookie))
}

/// How the deletion of an account ended.
#[derive(Clone, Copy, Debug, PartialEq, Eq, Structural)]
pub enum DeleteOutcome {
    /// There was no cookie. Nothing changed, and the cookie is left alone.
    NoCookie,
    /// The cookie could not be read. Nothing changed; the request fails.
    Malformed,
    /// The cookie names no session in the store. Nothing changed; the
    /// request fails.
    UnknownSession,
    /// The user the session belonged to is gone from the store, and so is
    /// that one session; the cookie is to be cleared.
    Deleted,
}

/// Account deletion as a step of the store: the user that owns the
/// presented session is removed together with that session. Other sessions
/// of the same user stay where they are.
pub open spec fn delete_step(s: BrokerView, cookie: Presented) -> (BrokerView, DeleteOutcome) {
    match cookie {
        Presented::Absent => (s, DeleteOutcome::NoCookie),
        Presented::Malformed => (s, DeleteOutcome::Malformed),
        Presented::Id(id) => if s.sessions.contains_key(id) {
            (
                BrokerView {
                    users: s.users.remove(s.sessions[id].username),
                    sessions: s.sessions.remove(id),
                    apps: s.apps,
                },
                DeleteOutcome::Deleted,
            )
        } else {
            (s, DeleteOutcome::UnknownSession)
        },
    }
}

/// Deletes the account behind a cookie that was read elsewhere.
pub fn delete_with(broker: &mut Broker, cookie: Presented) -> (out: DeleteOutcome)
    ensures
        (final(broker)@, out) == delete_step(old(broker)@, cookie),
{
    match cookie {
        Presented::Absent => DeleteOutcome::NoCookie,
        Presented::Malformed => DeleteOutcome::Malformed,
        Presented::Id(id) => {
            let username = match broker.sessions.get(id) {
                Some(session) => session.username.clone(),
                None => return DeleteOutcome::UnknownSession,
            };
            broker.users.remove(username.as_str());
            broker.sessions.remove(id);
            DeleteOutcome::Deleted
        },
    }
}

/// Deletes the account that owns the session named by the request's cookie.
pub fn delete(broker: &mut Broker, cookie: Option<&str>) -> (out: DeleteOutcome)
    ensures
        (final(broker)@, out) == delete_step(old(broker)@, presented(text(cookie))),
{
    delete_with(broker, read_cookie(cookie))
}

/// How the revocation of a session ended.
#[derive(Clone, Copy, Debug, PartialEq, Eq, Structural)]
pub enum RevokeOutcome {
    /// No cookie, or a cookie that names no session in the store. Nothing
    /// changed.
    NoCaller,
    /// The cookie could not be read. Nothing changed; the request fails.
    MalformedCookie,
    /// The target is not the text of an identifier. Nothing changed; the
    /// request fails.
    MalformedTarget,
    /// The target names no session in the store. Nothing changed.
    UnknownTarget,
    /// The target belongs to another user. Nothing changed.
    NotOwner,
    /// The target is gone from the store.
    Revoked,
}

/// Revocation as a step of the store. The caller is looked at first and the
/// target only for a caller with a session in the store; the target is
/// removed where its user's name is the name on the caller's session.
pub open spec fn revoke_step(s: BrokerView, cookie: Presented, target: Option<u128>) -> (
    BrokerView,
    RevokeOutcome,
) {
    match (cookie, target) {
        (Presented::Absent, _) => (s, RevokeOutcome::NoCaller),
        (Presented::Malformed, _) => (s, RevokeOutcome::MalformedCookie),
        (Presented::Id(own), _) if !s.sessions.contains_key(own) => (s, RevokeOutcome::NoCaller),
        (Presented::Id(_), None) => (s, RevokeOutcome::MalformedTarget),
        (Presented::Id(_), Some(target)) if !s.sessions.contains_key(target) => (
            s,
            RevokeOutcome::UnknownTarget,
        ),
        (Presented::Id(own), Some(target)) => if s.sessions[target].username
            == s.sessions[own].username {
            (
                BrokerView { users: s.users, sessions: s.sessions.remove(target), apps: s.apps },
                RevokeOutcome::Revoked,
            )
        } else {
            (s, RevokeOutcome::NotOwner)
        },
    }
}

/// Revokes the session `target` for the caller behind a cookie, both read
/// elsewhere; `None` stands for a target that could not be read.
pub fn delete_session_with(broker: &mut Broker, cookie: Presented, target: Option<u128>) -> (out:
    RevokeOutcome)
    ensures
        (final(broker)@, out) == revoke_step(old(broker)@, cookie, target),
{
    let own = match cookie {
        Presented::Absent => return RevokeOutcome::NoCaller,
        Presented::Malformed => return RevokeOutcome::MalformedCookie,
        Presented::Id(own) => own,
    };
    let owner = match broker.sessions.get(own) {
        Some(session) => session.username.clone(),
        None => return RevokeOutcome::NoCaller,
    };
    let target = match target {
        Some(target) => target,
        None => return RevokeOutcome::MalformedTarget,
    };
    let same_user = match broker.sessions.get(target) {
        Some(session) => session.username == owner,
        None => return RevokeOutcome::UnknownTarget,
    };
    if same_user {
        broker.sessions.remove(target);
        RevokeOutcome::Revoked
    } else {
        RevokeOutcome::NotOwner
    }
}

/// Revokes the session whose identifier is the text `target`, for the
/// caller named by the request's cookie.
pub fn delete_session(broker: &mut Broker, cookie: Option<&str>, target: &str) -> (out:
    RevokeOutcome)
    ensures
        (final(broker)@, out) == revoke_step(
            old(broker)@,
            presented(text(cookie)),
            parsed_uuid(target@),
        ),
{
    delete_session_with(broker, read_cookie(cookie), parse_id(target))
}

} // verus!
