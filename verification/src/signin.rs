//! Registration and sign-in. Each comes twice: a function that draws what
//! it needs from outside (a hash, a random identifier, the time) and a
//! function with the suffix `_with` that is handed those values and is
//! exact about what it does with them.

use crate::broker::{granted, open_session, text, with_session, Broker, Grant, GrantView};
use crate::credentials::{password_check, CredentialError, HASH_COST};
use crate::model::{BrokerView, UserView, SESSION_NANOS};
use crate::primitives::{
    bcrypt_hash, bcrypt_verdict, random_uuid, unix_nanos_now, CLOCK_LIMIT,
};
use vstd::prelude::*;
use vstd::string::{StrSliceExecFns, StringExecFns};

verus! {

/// The texts of an optional owned string.
pub open spec fn owned_text(s: Option<String>) -> Option<Seq<char>> {
    match s {
        Some(s) => Some(s@),
        None => None,
    }
}

/// The query of a sign-in request: the application the user signs in for.
#[derive(Clone, Debug, PartialEq, Eq)]
pub struct Query {
    pub app: String,
}

impl Default for Query {
    /// A request that names no application is for the broker itself.
    fn default() -> (r: Query)
        ensures
            r.app@ == "broker"@,
    {
        Query { app: String::from_str("broker") }
    }
}

/// How a registration ended.
#[derive(Clone, Debug, PartialEq, Eq)]
pub enum RegisterOutcome {
    /// The request showed no secret. Nothing changed.
    Unauthenticated,
    /// The name is taken. Nothing changed.
    Conflict,
    /// The password could not be hashed. Nothing changed.
    HashFailed,
    /// The user was stored and a session was opened.
    Registered(Grant),
}

pub enum RegisterOutcomeView {
    Unauthenticated,
    Conflict,
    HashFailed,
    Registered(GrantView),
}

impl View for RegisterOutcome {
    type V = RegisterOutcomeView;

    open spec fn view(&self) -> RegisterOutcomeView {
        match *self {
            RegisterOutcome::Unauthenticated => RegisterOutcomeView::Unauthenticated,
            RegisterOutcome::Conflict => RegisterOutcomeView::Conflict,
            RegisterOutcome::HashFailed => RegisterOutcomeView::HashFailed,
            RegisterOutcome::Registered(grant) => RegisterOutcomeView::Registered(grant@),
        }
    }
}

/// Registration as a step of the store. `hash` is the hash of the password,
/// or `None` where hashing failed; `id` and `now` are the identifier and
/// the opening time of the session.
///
/// The checks come in this order: a request without a secret is turned
/// away, then a taken name, then a failed hash. Past them the user is
/// stored with the hash, and a session is opened for the host part of the
/// peer address, as a sign-in opens it.
pub open spec fn register_step(
    s: BrokerView,
    username: Seq<char>,
    hash: Option<Seq<char>>,
    id: u128,
    now: int,
    app: Seq<char>,
    authorization: Option<Seq<char>>,
    peer: Seq<char>,
) -> (BrokerView, RegisterOutcomeView) {
    match (authorization, hash) {
        (None, _) => (s, RegisterOutcomeView::Unauthenticated),
        (Some(_), _) if s.users.contains_key(username) => (s, RegisterOutcomeView::Conflict),
        (Some(_), None) => (s, RegisterOutcomeView::HashFailed),
        (Some(secret), Some(hash)) => {
            let stored = BrokerView {
                users: s.users.insert(username, UserView { password: hash }),
                sessions: s.sessions,
                apps: s.apps,
            };
            (
                with_session(stored, id, username, now, host_of(peer), app),
                RegisterOutcomeView::Registered(granted(s, id, now, app, secret)),
            )
        },
    }
}

/// Registers `username` with a password hash, a session identifier and an
/// opening time that were made elsewhere.
pub fn register_with(
    broker: &mut Broker,
    username: &str,
    hash: Option<String>,
    id: u128,
    now: i128,
    app: &str,
    authorization: Option<&str>,
    peer: &str,
) -> (out: RegisterOutcome)
    requires
        now + SESSION_NANOS <= i128::MAX,
    ensures
        (final(broker)@, out@) == register_step(
            old(broker)@,
            username@,
            owned_text(hash),
            id,
            now as int,
            app@,
            text(authorization),
            peer@,
        ),
{
    let secret = match authorization {
        Some(secret) => secret,
        None => return RegisterOutcome::Unauthenticated,
    };
    if broker.users.contains(username) {
        return RegisterOutcome::Conflict;
    }
    let hash = match hash {
        Some(hash) => hash,
        None => return RegisterOutcome::HashFailed,
    };
    let _ = broker.users.register_hashed(username, hash);
    let host = client_host(peer);
    let grant = open_session(broker, id, now, username, host.as_str(), app, secret);
    RegisterOutcome::Registered(grant)
}

/// Registers `username` with `password`: hashes the password, stores the
/// user, and opens a session under a fresh random identifier, seven days
/// long from now.
///
/// The name is checked and the user stored under one exclusive borrow of
/// the store, so of two registrations of one name the second finds the
/// name taken. What the hash, the identifier and the time turn out to be
/// is not known before the call; whatever they are, the call is the step
/// `register_step` on them, and the hash is one that `password` checks
/// against.
pub fn register(
    broker: &mut Broker,
    username: &str,
    password: &str,
    app: &str,
    authorization: Option<&str>,
    peer: &str,
) -> (out: RegisterOutcome)
    ensures
        exists|hash: Option<Seq<char>>, id: u128, now: int|
            {
                &&& hash matches Some(stored) ==> bcrypt_verdict(password@, stored) == Some(true)
                &&& -CLOCK_LIMIT <= now <= CLOCK_LIMIT
                &&& (final(broker)@, out@) == #[trigger] register_step(
                    old(broker)@,
                    username@,
                    hash,
                    id,
                    now,
                    app@,
                    text(authorization),
                    peer@,
                )
            },
{
    let ghost mut hash_text: Option<Seq<char>> = None;
    let ghost mut drawn: (u128, int) = (0, 0);
    let out = if authorization.is_none() {
        RegisterOutcome::Unauthenticated
    } else if broker.users.contains(username) {
        RegisterOutcome::Conflict
    } else {
        match bcrypt_hash(password, HASH_COST) {
            Err(_) => RegisterOutcome::HashFailed,
            Ok(hash) => {
                let id = random_uuid();
                let now = unix_nanos_now();
                proof {
                    hash_text = Some(hash@);
                    drawn = (id, now as int);
                }
                register_with(broker, username, Some(hash), id, now, app, authorization, peer)
            },
        }
    };
    proof {
        let step = register_step(
            old(broker)@,
            username@,
            hash_text,
            drawn.0,
            drawn.1,
            app@,
            text(authorization),
            peer@,
        );
        assert(broker@ == step.0 && out@ == step.1);
    }
    out
}

/// How many characters of `s` come before its first colon; all of them
/// where it has none.
pub open spec fn host_len(s: Seq<char>) -> nat
    decreases s.len(),
{
    if s.len() == 0 || s[0] == ':' {
        0
    } else {
        1 + host_len(s.drop_first())
    }
}

/// The host part of a peer address: what stands before its first colon.
pub open spec fn host_of(peer: Seq<char>) -> Seq<char> {
    peer.take(host_len(peer) as int)
}

/// `host_len` is the one position up to which no colon occurs and at which
/// the text ends or a colon stands.
pub proof fn host_len_is_first_colon(s: Seq<char>, n: int)
    requires
        0 <= n <= s.len(),
        forall|j: int| 0 <= j < n ==> s[j] != ':',
        n == s.len() || s[n] == ':',
    ensures
        host_len(s) == n,
    decreases s.len(),
{
    if n > 0 {
        let rest = s.drop_first();
        assert forall|j: int| 0 <= j < n - 1 implies rest[j] != ':' by {
            assert(rest[j] == s[j + 1]);
        }
        host_len_is_first_colon(rest, n - 1);
    }
}

/// The host part of a peer address.
pub fn client_host(peer: &str) -> (host: String)
    ensures
        host@ == host_of(peer@),
{
    let len = peer.unicode_len();
    let mut end: usize = 0;
    while end < len && peer.get_char(end) != ':'
        invariant
            end <= len,
            len == peer@.len(),
            forall|j: int| 0 <= j < end ==> peer@[j] != ':',
        decreases len - end,
    {
        end += 1;
    }
    proof {
        host_len_is_first_colon(peer@, end as int);
    }
    String::from_str(peer.substring_char(0, end))
}

/// How a sign-in ended.
#[derive(Clone, Debug, PartialEq, Eq)]
pub enum LoginOutcome {
    /// The request showed no secret. Nothing changed.
    Unauthenticated,
    /// No user has this name. Nothing changed.
    NotFound,
    /// The password is not the user's. Nothing changed.
    Incorrect,
    /// The stored hash could not be read. Nothing changed.
    HashFailed,
    /// A session was opened.
    LoggedIn(Grant),
}

pub enum LoginOutcomeView {
    Unauthenticated,
    NotFound,
    Incorrect,
    HashFailed,
    LoggedIn(GrantView),
}

impl View for LoginOutcome {
    type V = LoginOutcomeView;

    open spec fn view(&self) -> LoginOutcomeView {
        match *self {
            LoginOutcome::Unauthenticated => LoginOutcomeView::Unauthenticated,
            LoginOutcome::NotFound => LoginOutcomeView::NotFound,
            LoginOutcome::Incorrect => LoginOutcomeView::Incorrect,
            LoginOutcome::HashFailed => LoginOutcomeView::HashFailed,
            LoginOutcome::LoggedIn(grant) => LoginOutcomeView::LoggedIn(grant@),
        }
    }
}

/// Sign-in as a step of the store. `verdict` is what comparing the password
/// with the stored hash gave: `Some(true)` for a match, `Some(false)` for
/// none, `None` where the comparison failed.
///
/// The checks come in this order: a request without a secret is turned
/// away, then an unknown name, then a failed or negative comparison. Past
/// them a session is opened for the host part of the peer address; users
/// and applications stay as they are.
pub open spec fn login_step(
    s: BrokerView,
    username: Seq<char>,
    verdict: Option<bool>,
    id: u128,
    now: int,
    app: Seq<char>,
    authorization: Option<Seq<char>>,
    peer: Seq<char>,
) -> (BrokerView, LoginOutcomeView) {
    match (authorization, verdict) {
        (None, _) => (s, LoginOutcomeView::Unauthenticated),
        (Some(_), _) if !s.users.contains_key(username) => (s, LoginOutcomeView::NotFound),
        (Some(_), None) => (s, LoginOutcomeView::HashFailed),
        (Some(_), Some(false)) => (s, LoginOutcomeView::Incorrect),
        (Some(secret), Some(true)) => (
            with_session(s, id, username, now, host_of(peer), app),
            LoginOutcomeView::LoggedIn(granted(s, id, now, app, secret)),
        ),
    }
}

/// What comparing `password` with the stored hash of `username` gives;
/// `None` too where there is no such user.
pub open spec fn stored_verdict(s: BrokerView, username: Seq<char>, password: Seq<char>) -> Option<
    bool,
> {
    match password_check(s.users, username, password) {
        Ok(matches) => Some(matches),
        Err(_) => None,
    }
}

/// Signs `username` in, given what the comparison of the password with the
/// stored hash gave, and a session identifier and an opening time that were
/// made elsewhere.
pub fn login_with(
    broker: &mut Broker,
    username: &str,
    verdict: Option<bool>,
    id: u128,
    now: i128,
    app: &str,
    authorization: Option<&str>,
    peer: &str,
) -> (out: LoginOutcome)
    requires
        now + SESSION_NANOS <= i128::MAX,
    ensures
        (final(broker)@, out@) == login_step(
            old(broker)@,
            username@,
            verdict,
            id,
            now as int,
            app@,
            text(authorization),
            peer@,
        ),
{
    let secret = match authorization {
        Some(secret) => secret,
        None => return LoginOutcome::Unauthenticated,
    };
    if !broker.users.contains(username) {
        return LoginOutcome::NotFound;
    }
    match verdict {
        None => LoginOutcome::HashFailed,
        Some(false) => LoginOutcome::Incorrect,
        Some(true) => {
            let host = client_host(peer);
            let grant = open_session(broker, id, now, username, host.as_str(), app, secret);
            LoginOutcome::LoggedIn(grant)
        },
    }
}

/// Signs `username` in with `password`: compares the password with the
/// stored hash and, where they match, opens a session under a fresh random
/// identifier, seven days long from now.
///
/// The comparison is a function of the password and the stored hash, so the
/// outcome is known but for the identifier and the time.
pub fn login(
    broker: &mut Broker,
    username: &str,
    password: &str,
    app: &str,
    authorization: Option<&str>,
    peer: &str,
) -> (out: LoginOutcome)
    ensures
        exists|id: u128, now: int|
            {
                &&& -CLOCK_LIMIT <= now <= CLOCK_LIMIT
                &&& (final(broker)@, out@) == #[trigger] login_step(
                    old(broker)@,
                    username@,
                    stored_verdict(old(broker)@, username@, password@),
                    id,
                    now,
                    app@,
                    text(authorization),
                    peer@,
                )
            },
{
    let ghost mut drawn: (u128, int) = (0, 0);
    let out = if authorization.is_none() {
        LoginOutcome::Unauthenticated
    } else {
        match broker.users.verify(username, password) {
            Err(CredentialError::NotFound) => LoginOutcome::NotFound,
            Err(_) => LoginOutcome::HashFailed,
            Ok(false) => LoginOutcome::Incorrect,
            Ok(true) => {
                let id = random_uuid();
                let now = unix_nanos_now();
                proof {
                    drawn = (id, now as int);
                }
                login_with(broker, username, Some(true), id, now, app, authorization, peer)
            },
        }
    };
    proof {
        let step = login_step(
            old(broker)@,
            username@,
            stored_verdict(old(broker)@, username@, password@),
            drawn.0,
            drawn.1,
            app@,
            text(authorization),
            peer@,
        );
        assert(broker@ == step.0 && out@ == step.1);
    }
    out
}

} // verus!
