//! From outcomes to replies: the status, the redirect and the cookie that
//! each outcome is answered with, as plain values for the HTTP layer to
//! send.
//!
//! People get a redirect whatever happened, with the reason in the query
//! (`err=exists`, `err=incorrect`, `err=notfound`); only applications get a
//! bare status or a body. The session cookie is named `session`, has the
//! path `/` and, when it is issued, is kept from scripts.

use crate::broker::{Grant, GrantView};
use crate::guard::{presented, DeleteOutcome, LogoutOutcome, Presented, RevokeOutcome};
use crate::identifiers::hyphenated;
use crate::primitives::uuid_text;
use crate::signin::{LoginOutcome, LoginOutcomeView, RegisterOutcome, RegisterOutcomeView};
use crate::validate::{Validation, ValidationView};
use vstd::prelude::*;
use vstd::string::StringExecFns;

verus! {

/// The name of the session cookie.
pub const SESSION_COOKIE: &'static str = "session";

/// The path of the session cookie.
pub const COOKIE_PATH: &'static str = "/";

/// The status of a redirect.
pub const FOUND: u16 = 302;

/// The status of a reply with a body.
pub const OK: u16 = 200;

/// The status for a missing or wrong secret and for an expired session.
pub const UNAUTHORIZED: u16 = 401;

/// The status for an unknown session or application.
pub const NOT_FOUND: u16 = 404;

/// What a reply does to the session cookie.
#[derive(Clone, Debug, PartialEq, Eq)]
pub enum CookieChange {
    /// Nothing.
    Keep,
    /// The cookie is removed.
    Clear,
    /// The cookie is set to `value`, to be dropped by the browser at
    /// `expires` (nanoseconds since the Unix epoch) or, without one, when
    /// the browser closes. With `http_only` it is kept from scripts.
    Issue { value: String, http_only: bool, expires: Option<i128> },
}

pub enum CookieChangeView {
    Keep,
    Clear,
    Issue { value: Seq<char>, http_only: bool, expires: Option<int> },
}

impl View for CookieChange {
    type V = CookieChangeView;

    open spec fn view(&self) -> CookieChangeView {
        match *self {
            CookieChange::Keep => CookieChangeView::Keep,
            CookieChange::Clear => CookieChangeView::Clear,
            CookieChange::Issue { value, http_only, expires } => CookieChangeView::Issue {
                value: value@,
                http_only,
                expires: match expires {
                    Some(at) => Some(at as int),
                    None => None,
                },
            },
        }
    }
}

/// A reply, ready for the HTTP layer.
#[derive(Clone, Debug, PartialEq, Eq)]
pub enum Reply {
    /// The request fails as a whole, with no reply of the broker's own.
    Failure,
    /// A bare status.
    Status { code: u16 },
    /// A redirect (302) to `location`.
    Redirect { location: String, cookie: CookieChange },
    /// A body (200) that names the user and the application of a session.
    Session { username: String, app: String },
}

pub enum ReplyView {
    Failure,
    Status { code: int },
    Redirect { location: Seq<char>, cookie: CookieChangeView },
    Session { username: Seq<char>, app: Seq<char> },
}

impl View for Reply {
    type V = ReplyView;

    open spec fn view(&self) -> ReplyView {
        match *self {
            Reply::Failure => ReplyView::Failure,
            Reply::Status { code } => ReplyView::Status { code: code as int },
            Reply::Redirect { location, cookie } => ReplyView::Redirect {
                location: location@,
                cookie: cookie@,
            },
            Reply::Session { username, app } => ReplyView::Session {
                username: username@,
                app: app@,
            },
        }
    }
}

/// The status a reply is sent with; none for a request that fails.
pub open spec fn status_of(reply: ReplyView) -> Option<int> {
    match reply {
        ReplyView::Failure => None,
        ReplyView::Status { code } => Some(code),
        ReplyView::Redirect { .. } => Some(FOUND as int),
        ReplyView::Session { .. } => Some(OK as int),
    }
}

impl Reply {
    /// The status the reply is sent with; none for a request that fails.
    pub fn status(&self) -> (r: Option<u16>)
        ensures
            match r {
                Some(code) => status_of(self@) == Some(code as int),
                None => status_of(self@) is None,
            },
    {
        match self {
            Reply::Failure => None,
            Reply::Status { code } => Some(*code),
            Reply::Redirect { .. } => Some(FOUND),
            Reply::Session { .. } => Some(OK),
        }
    }
}

/// A redirect that leaves the cookie alone.
pub open spec fn redirect_to(location: Seq<char>) -> ReplyView {
    ReplyView::Redirect { location, cookie: CookieChangeView::Keep }
}

/// The redirect that follows a sign-in: to where the grant says, with the
/// cookie set to the text of the session's identifier and kept from
/// scripts.
pub open spec fn welcome(grant: GrantView, expires: Option<int>) -> ReplyView {
    ReplyView::Redirect {
        location: grant.location,
        cookie: CookieChangeView::Issue {
            value: hyphenated(grant.session),
            http_only: true,
            expires,
        },
    }
}

/// The reply to a registration. The cookie of a new session ends when the
/// session does.
pub open spec fn register_reply_of(out: RegisterOutcomeView) -> ReplyView {
    match out {
        RegisterOutcomeView::Unauthenticated => ReplyView::Status { code: UNAUTHORIZED as int },
        RegisterOutcomeView::Conflict => redirect_to("/register?err=exists"@),
        RegisterOutcomeView::HashFailed => ReplyView::Failure,
        RegisterOutcomeView::Registered(grant) => welcome(grant, Some(grant.expires)),
    }
}

/// The reply to a sign-in. The cookie of a new session has no end of its
/// own.
pub open spec fn login_reply_of(out: LoginOutcomeView) -> ReplyView {
    match out {
        LoginOutcomeView::Unauthenticated => ReplyView::Status { code: UNAUTHORIZED as int },
        LoginOutcomeView::NotFound => redirect_to("/?err=notfound"@),
        LoginOutcomeView::Incorrect => redirect_to("/?err=incorrect"@),
        LoginOutcomeView::HashFailed => ReplyView::Failure,
        LoginOutcomeView::LoggedIn(grant) => welcome(grant, None),
    }
}

/// The reply to a sign-out.
pub open spec fn logout_reply_of(out: LogoutOutcome) -> ReplyView {
    match out {
        LogoutOutcome::NoCookie => redirect_to("/"@),
        LogoutOutcome::Malformed => ReplyView::Failure,
        LogoutOutcome::LoggedOut => ReplyView::Redirect {
            location: "/"@,
            cookie: CookieChangeView::Clear,
        },
    }
}

/// The reply to the deletion of an account.
pub open spec fn delete_reply_of(out: DeleteOutcome) -> ReplyView {
    match out {
        DeleteOutcome::NoCookie => redirect_to("/"@),
        DeleteOutcome::Malformed | DeleteOutcome::UnknownSession => ReplyView::Failure,
        DeleteOutcome::Deleted => ReplyView::Redirect {
            location: "/"@,
            cookie: CookieChangeView::Clear,
        },
    }
}

/// The reply to a revocation: the same redirect whether or not a session
/// was revoked, and whether or not the target is in the store. Only a
/// cookie or a target that cannot be read fails the request.
pub open spec fn revoke_reply_of(out: RevokeOutcome) -> ReplyView {
    match out {
        RevokeOutcome::NoCaller
        | RevokeOutcome::UnknownTarget
        | RevokeOutcome::NotOwner
        | RevokeOutcome::Revoked => redirect_to("/sessions"@),
        RevokeOutcome::MalformedCookie | RevokeOutcome::MalformedTarget => ReplyView::Failure,
    }
}

/// The reply to an application that asked about a session.
pub open spec fn validation_reply_of(out: ValidationView) -> ReplyView {
    match out {
        ValidationView::Unauthenticated | ValidationView::Expired | ValidationView::WrongSecret =>
            ReplyView::Status { code: UNAUTHORIZED as int },
        ValidationView::Malformed => ReplyView::Failure,
        ValidationView::UnknownSession | ValidationView::UnknownApp => ReplyView::Status {
            code: NOT_FOUND as int,
        },
        ValidationView::Valid { username, app } => ReplyView::Session { username, app },
    }
}

fn redirect(location: &str) -> (r: Reply)
    ensures
        r@ == redirect_to(location@),
{
    Reply::Redirect { location: String::from_str(location), cookie: CookieChange::Keep }
}

/// The cookie that is issued for a session is one that names it.
pub open spec fn cookie_names(session: u128) -> bool {
    presented(Some(hyphenated(session))) == Presented::Id(session)
}

fn welcome_with(grant: Grant, expires: Option<i128>) -> (r: Reply)
    ensures
        r@ == welcome(
            grant@,
            match expires {
                Some(at) => Some(at as int),
                None => None,
            },
        ),
        cookie_names(grant.session),
{
    let value = uuid_text(grant.session);
    Reply::Redirect {
        location: grant.location,
        cookie: CookieChange::Issue { value, http_only: true, expires },
    }
}

/// The reply to a registration. The cookie it issues, read back by the
/// guard, names the new session.
pub fn register_reply(out: RegisterOutcome) -> (r: Reply)
    ensures
        r@ == register_reply_of(out@),
        out@ matches RegisterOutcomeView::Registered(grant) ==> cookie_names(grant.session),
{
    match out {
        RegisterOutcome::Unauthenticated => Reply::Status { code: UNAUTHORIZED },
        RegisterOutcome::Conflict => redirect("/register?err=exists"),
        RegisterOutcome::HashFailed => Reply::Failure,
        RegisterOutcome::Registered(grant) => {
            let expires = grant.expires;
            welcome_with(grant, Some(expires))
        },
    }
}

/// The reply to a sign-in. The cookie it issues, read back by the guard,
/// names the new session.
pub fn login_reply(out: LoginOutcome) -> (r: Reply)
    ensures
        r@ == login_reply_of(out@),
        out@ matches LoginOutcomeView::LoggedIn(grant) ==> cookie_names(grant.session),
{
    match out {
        LoginOutcome::Unauthenticated => Reply::Status { code: UNAUTHORIZED },
        LoginOutcome::NotFound => redirect("/?err=notfound"),
        LoginOutcome::Incorrect => redirect("/?err=incorrect"),
        LoginOutcome::HashFailed => Reply::Failure,
        LoginOutcome::LoggedIn(grant) => welcome_with(grant, None),
    }
}

/// The reply to a sign-out.
pub fn logout_reply(out: LogoutOutcome) -> (r: Reply)
    ensures
        r@ == logout_reply_of(out),
{
    match out {
        LogoutOutcome::NoCookie => redirect("/"),
        LogoutOutcome::Malformed => Reply::Failure,
        LogoutOutcome::LoggedOut => Reply::Redirect {
            location: String::from_str("/"),
            cookie: CookieChange::Clear,
        },
    }
}

/// The reply to the deletion of an account.
pub fn delete_reply(out: DeleteOutcome) -> (r: Reply)
    ensures
        r@ == delete_reply_of(out),
{
    match out {
        DeleteOutcome::NoCookie => redirect("/"),
        DeleteOutcome::Malformed | DeleteOutcome::UnknownSession => Reply::Failure,
        DeleteOutcome::Deleted => Reply::Redirect {
            location: String::from_str("/"),
            cookie: CookieChange::Clear,
        },
    }
}

/// The reply to a revocation.
pub fn revoke_reply(out: RevokeOutcome) -> (r: Reply)
    ensures
        r@ == revoke_reply_of(out),
{
    match out {
        RevokeOutcome::NoCaller
        | RevokeOutcome::UnknownTarget
        | RevokeOutcome::NotOwner
        | RevokeOutcome::Revoked => redirect("/sessions"),
        RevokeOutcome::MalformedCookie | RevokeOutcome::MalformedTarget => Reply::Failure,
    }
}

/// The reply to the registration of an application: a redirect to the
/// front page.
pub fn add_app_reply() -> (r: Reply)
    ensures
        r@ == redirect_to("/"@),
{
    redirect("/")
}

/// The reply to an application that asked about a session.
pub fn validation_reply(out: Validation) -> (r: Reply)
    ensures
        r@ == validation_reply_of(out@),
{
    match out {
        Validation::Unauthenticated | Validation::Expired | Validation::WrongSecret => {
            Reply::Status { code: UNAUTHORIZED }
        },
        Validation::Malformed => Reply::Failure,
        Validation::UnknownSession | Validation::UnknownApp => Reply::Status { code: NOT_FOUND },
        Validation::Valid { username, app } => Reply::Session { username, app },
    }
}

} // verus!
