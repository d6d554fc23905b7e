//! What the flows guarantee when they are taken together, stated over the
//! steps of the store and proved from their definitions.

use crate::broker::{with_session, GrantView};
use crate::guard::{
    caller, delete_step, logout_step, revoke_step, DeleteOutcome, Presented, RevokeOutcome,
};
use crate::identifiers::{hyphenated, text_names_one_identifier};
use crate::model::{BrokerView, UserView};
use crate::primitives::bcrypt_verdict;
use crate::reply::{
    redirect_to, revoke_reply_of, status_of, validation_reply_of, welcome, ReplyView, NOT_FOUND,
    OK, UNAUTHORIZED,
};
use crate::signin::{
    login_step, register_step, stored_verdict, LoginOutcomeView, RegisterOutcomeView,
};
use crate::validate::{after_validation, validation, with_app, ValidationView};
use vstd::prelude::*;

verus! {

/// A name is registered once. After a registration that succeeded, the
/// store holds the name with the hash of that registration, and a second
/// registration of the name, whatever else it brings, is answered with
/// `Conflict` and changes nothing.
pub proof fn name_is_registered_once(
    s: BrokerView,
    username: Seq<char>,
    hash: Option<Seq<char>>,
    id: u128,
    now: int,
    app: Seq<char>,
    authorization: Option<Seq<char>>,
    peer: Seq<char>,
    hash2: Option<Seq<char>>,
    id2: u128,
    now2: int,
    app2: Seq<char>,
    secret2: Seq<char>,
    peer2: Seq<char>,
)
    requires
        register_step(s, username, hash, id, now, app, authorization, peer).1 is Registered,
    ensures
        ({
            let first = register_step(s, username, hash, id, now, app, authorization, peer);
            let second = register_step(
                first.0,
                username,
                hash2,
                id2,
                now2,
                app2,
                Some(secret2),
                peer2,
            );
            &&& !s.users.contains_key(username)
            &&& hash is Some
            &&& first.0.users == s.users.insert(username, UserView { password: hash->0 })
            &&& second.1 == RegisterOutcomeView::Conflict
            &&& second.0 == first.0
        }),
{
}

/// Of two registrations of one free name, each of which would succeed
/// alone, the one that reaches the store first succeeds and the other is
/// answered with `Conflict`. The store is borrowed exclusively for a whole
/// registration, so one of the two does come first; the statement holds
/// for either order.
pub proof fn one_of_two_registrations_wins(
    s: BrokerView,
    username: Seq<char>,
    hash1: Seq<char>,
    id1: u128,
    now1: int,
    app1: Seq<char>,
    secret1: Seq<char>,
    peer1: Seq<char>,
    hash2: Seq<char>,
    id2: u128,
    now2: int,
    app2: Seq<char>,
    secret2: Seq<char>,
    peer2: Seq<char>,
)
    requires
        !s.users.contains_key(username),
    ensures
        ({
            let first = register_step(
                s,
                username,
                Some(hash1),
                id1,
                now1,
                app1,
                Some(secret1),
                peer1,
            );
            let second = register_step(
                first.0,
                username,
                Some(hash2),
                id2,
                now2,
                app2,
                Some(secret2),
                peer2,
            );
            &&& first.1 is Registered
            &&& second.1 == RegisterOutcomeView::Conflict
            &&& second.0.users == s.users.insert(username, UserView { password: hash1 })
        }),
{
}

/// Whoever registered can sign in. After a registration that succeeded
/// with a hash that the password checks against, a sign-in under the same
/// name with that password opens a second session beside the first; with
/// a password that does not check against the hash it is answered with
/// `Incorrect`. A sign-in under a name that the store does not hold is
/// answered with `NotFound`.
pub proof fn sign_in_after_registration(
    s: BrokerView,
    username: Seq<char>,
    password: Seq<char>,
    hash: Seq<char>,
    id: u128,
    now: int,
    app: Seq<char>,
    secret: Seq<char>,
    peer: Seq<char>,
    other: Seq<char>,
    attempt: Seq<char>,
    id2: u128,
    now2: int,
    app2: Seq<char>,
    secret2: Seq<char>,
    peer2: Seq<char>,
)
    requires
        !s.users.contains_key(username),
        bcrypt_verdict(password, hash) == Some(true),
    ensures
        ({
            let after = register_step(s, username, Some(hash), id, now, app, Some(secret), peer).0;
            let same = login_step(
                after,
                username,
                stored_verdict(after, username, password),
                id2,
                now2,
                app2,
                Some(secret2),
                peer2,
            );
            let wrong = login_step(
                after,
                username,
                stored_verdict(after, username, attempt),
                id2,
                now2,
                app2,
                Some(secret2),
                peer2,
            );
            let stranger = login_step(
                after,
                other,
                stored_verdict(after, other, attempt),
                id2,
                now2,
                app2,
                Some(secret2),
                peer2,
            );
            &&& same.1 is LoggedIn
            &&& same.1->LoggedIn_0.session == id2
            &&& same.0.sessions.contains_key(id2)
            &&& id2 != id ==> same.0.sessions.contains_key(id) && same.0.sessions[id]
                == after.sessions[id]
            &&& bcrypt_verdict(attempt, hash) == Some(false) ==> wrong.1
                == LoginOutcomeView::Incorrect && wrong.0 == after
            &&& !after.users.contains_key(other) ==> stranger.1 == LoginOutcomeView::NotFound
                && stranger.0 == after
        }),
{
}

/// A session is opened for a user that exists: right after a registration
/// or a sign-in that succeeded, the guard resolves the new session to the
/// user of that name.
pub proof fn new_session_has_its_user(
    s: BrokerView,
    username: Seq<char>,
    hash: Option<Seq<char>>,
    verdict: Option<bool>,
    id: u128,
    now: int,
    app: Seq<char>,
    authorization: Option<Seq<char>>,
    peer: Seq<char>,
)
    ensures
        ({
            let registered = register_step(s, username, hash, id, now, app, authorization, peer);
            registered.1 matches RegisterOutcomeView::Registered(grant) ==> caller(
                registered.0,
                Presented::Id(grant.session),
            ) == Some((id, registered.0.sessions[id], registered.0.users[username]))
                && registered.0.sessions[id].username == username
        }),
        ({
            let signed_in = login_step(s, username, verdict, id, now, app, authorization, peer);
            signed_in.1 matches LoginOutcomeView::LoggedIn(grant) ==> caller(
                signed_in.0,
                Presented::Id(grant.session),
            ) == Some((id, signed_in.0.sessions[id], s.users[username]))
                && signed_in.0.sessions[id].username == username
        }),
{
}

/// A sign-out removes the session that the cookie names and nothing else:
/// every other session, those of the same user too, every user and every
/// application stay as they were.
pub proof fn logout_removes_one_session(s: BrokerView, cookie: Presented, other: u128)
    ensures
        ({
            let after = logout_step(s, cookie).0;
            &&& after.users == s.users
            &&& after.apps == s.apps
            &&& cookie matches Presented::Id(id) ==> !after.sessions.contains_key(id)
            &&& cookie != Presented::Id(other) ==> after.sessions.contains_key(other)
                == s.sessions.contains_key(other) && (s.sessions.contains_key(other)
                ==> after.sessions[other] == s.sessions[other])
        }),
{
}

/// A session is revoked only by its owner. The target leaves the store
/// exactly when the caller's cookie names a stored session, the target is
/// a stored session, and both carry the same user name; then nothing but
/// the target leaves. In every other case the store is unchanged.
pub proof fn revocation_needs_the_owner(s: BrokerView, cookie: Presented, target: Option<u128>)
    ensures
        ({
            let step = revoke_step(s, cookie, target);
            let owned = cookie is Id && target is Some && s.sessions.contains_key(cookie->Id_0)
                && s.sessions.contains_key(target->0) && s.sessions[target->0].username
                == s.sessions[cookie->Id_0].username;
            &&& step.1 == RevokeOutcome::Revoked <==> owned
            &&& owned ==> step.0.sessions == s.sessions.remove(target->0) && step.0.users
                == s.users && step.0.apps == s.apps
            &&& !owned ==> step.0 == s
        }),
{
}

/// A revocation is answered with the redirect to the list of sessions
/// whenever cookie and target can be read, whether or not a session was
/// removed and whether or not the target is in the store. The request
/// fails only on a cookie that cannot be read, or on a target that cannot
/// be read and is looked at, which it is for a caller with a session in
/// the store.
pub proof fn revocation_always_redirects(s: BrokerView, cookie: Presented, target: Option<u128>)
    ensures
        ({
            let reply = revoke_reply_of(revoke_step(s, cookie, target).1);
            let unreadable = cookie == Presented::Malformed || (cookie is Id
                && s.sessions.contains_key(cookie->Id_0) && target is None);
            &&& !unreadable ==> reply == redirect_to("/sessions"@)
            &&& unreadable ==> reply == ReplyView::Failure
        }),
{
}

/// Deleting an account removes the user and the one session that was
/// presented. Another session of the same user stays in the store, but
/// the guard no longer resolves it: its user is gone.
pub proof fn deletion_does_not_cascade(s: BrokerView, id: u128, other: u128)
    requires
        s.sessions.contains_key(id),
        s.sessions.contains_key(other),
        other != id,
        s.sessions[other].username == s.sessions[id].username,
    ensures
        ({
            let step = delete_step(s, Presented::Id(id));
            &&& step.1 == DeleteOutcome::Deleted
            &&& !step.0.users.contains_key(s.sessions[id].username)
            &&& !step.0.sessions.contains_key(id)
            &&& step.0.sessions.contains_key(other)
            &&& step.0.sessions[other] == s.sessions[other]
            &&& caller(step.0, Presented::Id(other)) is None
        }),
{
}

/// An application is told that a session is valid exactly when the session
/// is in the store, ends after `now`, the application is registered, and
/// the secret is the application's. It is then told the user name and the
/// application name on the session, with status 200. Otherwise the first
/// of the four conditions that fails decides the status: 404, 401, 404,
/// 401, in that order.
pub proof fn validation_is_exact(
    s: BrokerView,
    id: u128,
    name: Seq<char>,
    secret: Seq<char>,
    now: int,
)
    ensures
        ({
            let answer = validation(s, Some(id), name, Some(secret), now);
            let status = status_of(validation_reply_of(answer));
            let stored = s.sessions.contains_key(id);
            let live = s.sessions[id].expires > now;
            let known = s.apps.contains_key(name);
            let trusted = s.apps[name].secret == secret;
            &&& answer is Valid <==> stored && live && known && trusted
            &&& answer is Valid ==> answer == (ValidationView::Valid {
                username: s.sessions[id].username,
                app: s.sessions[id].app,
            }) && status == Some(OK as int)
            &&& !stored ==> status == Some(NOT_FOUND as int)
            &&& stored && !live ==> status == Some(UNAUTHORIZED as int)
            &&& stored && live && !known ==> status == Some(NOT_FOUND as int)
            &&& stored && live && known && !trusted ==> status == Some(UNAUTHORIZED as int)
        }),
{
}

/// Asking about a session never removes it, unless the secret was wrong
/// and is itself the text of that session's identifier. Users and
/// applications are never touched.
pub proof fn validation_spares_the_session(
    s: BrokerView,
    ssid: Option<u128>,
    name: Seq<char>,
    authorization: Option<Seq<char>>,
    secret_id: Option<u128>,
    now: int,
    other: u128,
)
    ensures
        ({
            let after = after_validation(s, ssid, name, authorization, secret_id, now);
            &&& after.users == s.users
            &&& after.apps == s.apps
            &&& secret_id != Some(other) ==> after.sessions.contains_key(other)
                == s.sessions.contains_key(other) && (s.sessions.contains_key(other)
                ==> after.sessions[other] == s.sessions[other])
            &&& validation(s, ssid, name, authorization, now) !is WrongSecret ==> after == s
        }),
{
}

/// Opening a session touches no other session: one opened under an
/// identifier that is not yet in use adds to the store, and every session
/// under another identifier stays as it was.
pub proof fn sessions_are_kept_apart(
    s: BrokerView,
    id: u128,
    username: Seq<char>,
    now: int,
    ip: Seq<char>,
    app: Seq<char>,
    other: u128,
)
    requires
        other != id,
    ensures
        ({
            let after = with_session(s, id, username, now, ip, app);
            &&& after.sessions.contains_key(id)
            &&& after.sessions.contains_key(other) == s.sessions.contains_key(other)
            &&& s.sessions.contains_key(other) ==> after.sessions[other] == s.sessions[other]
            &&& after.users == s.users
            &&& after.apps == s.apps
        }),
{
}

/// Two sessions never share a cookie: the cookies issued for sessions with
/// different identifiers are different texts.
pub proof fn different_sessions_get_different_cookies(first: GrantView, second: GrantView)
    requires
        first.session != second.session,
    ensures
        welcome(first, None)->cookie->value != welcome(second, None)->cookie->value,
        hyphenated(first.session) != hyphenated(second.session),
{
    if hyphenated(first.session) == hyphenated(second.session) {
        text_names_one_identifier(first.session, second.session);
    }
}

/// Two applications registered with different tokens never share a secret,
/// under whatever names and addresses they are registered.
pub proof fn different_tokens_give_different_secrets(
    s: BrokerView,
    name1: Seq<char>,
    url1: Seq<char>,
    token1: u128,
    name2: Seq<char>,
    url2: Seq<char>,
    token2: u128,
)
    requires
        token1 != token2,
    ensures
        ({
            let first = with_app(s, name1, url1, token1);
            let second = with_app(first, name2, url2, token2);
            first.apps[name1].secret != second.apps[name2].secret
        }),
{
    if hyphenated(token1) == hyphenated(token2) {
        text_names_one_identifier(token1, token2);
    }
}

/// One request that opens a session: a registration with the hash of its
/// password, or a sign-in with the matching password.
pub enum Entry {
    Registration {
        username: Seq<char>,
        hash: Seq<char>,
        id: u128,
        now: int,
        app: Seq<char>,
        secret: Seq<char>,
        peer: Seq<char>,
    },
    SignIn {
        username: Seq<char>,
        id: u128,
        now: int,
        app: Seq<char>,
        secret: Seq<char>,
        peer: Seq<char>,
    },
}

/// The identifier that an entry brings for its session.
pub open spec fn drawn_id(entry: Entry) -> u128 {
    match entry {
        Entry::Registration { id, .. } => id,
        Entry::SignIn { id, .. } => id,
    }
}

/// The store after one entry, and whether the entry opened a session.
pub open spec fn enter(s: BrokerView, entry: Entry) -> (BrokerView, bool) {
    match entry {
        Entry::Registration { username, hash, id, now, app, secret, peer } => {
            let step = register_step(s, username, Some(hash), id, now, app, Some(secret), peer);
            (step.0, step.1 is Registered)
        },
        Entry::SignIn { username, id, now, app, secret, peer } => {
            let step = login_step(s, username, Some(true), id, now, app, Some(secret), peer);
            (step.0, step.1 is LoggedIn)
        },
    }
}

/// The store after the entries, one after the other.
pub open spec fn entered(s: BrokerView, entries: Seq<Entry>) -> BrokerView
    decreases entries.len(),
{
    if entries.len() == 0 {
        s
    } else {
        enter(entered(s, entries.drop_last()), entries.last()).0
    }
}

/// Whether each of the entries, in its turn, opened a session.
pub open spec fn all_opened(s: BrokerView, entries: Seq<Entry>) -> bool
    decreases entries.len(),
{
    entries.len() == 0 || (all_opened(s, entries.drop_last()) && enter(
        entered(s, entries.drop_last()),
        entries.last(),
    ).1)
}

/// Sessions opened under identifiers that are not in use and differ from
/// each other never collide: after any number of registrations and
/// sign-ins that succeeded, the store holds one session more for each of
/// them, every session that was there before is as it was, and every
/// identifier names its own session. That identifiers drawn at random do
/// differ is the random source's to give.
pub proof fn fresh_identifiers_never_collide(s: BrokerView, entries: Seq<Entry>)
    requires
        s.sessions.dom().finite(),
        all_opened(s, entries),
        forall|i: int|
            0 <= i < entries.len() ==> !s.sessions.contains_key(drawn_id(#[trigger] entries[i])),
        forall|i: int, j: int|
            0 <= i < j < entries.len() ==> drawn_id(#[trigger] entries[i]) != drawn_id(
                #[trigger] entries[j],
            ),
    ensures
        ({
            let after = entered(s, entries);
            &&& after.apps == s.apps
            &&& after.sessions.dom().finite()
            &&& after.sessions.len() == s.sessions.len() + entries.len()
            &&& forall|k: u128| #[trigger]
                s.sessions.contains_key(k) ==> after.sessions.contains_key(k) && after.sessions[k]
                    == s.sessions[k]
            &&& forall|i: int|
                0 <= i < entries.len() ==> after.sessions.contains_key(
                    drawn_id(#[trigger] entries[i]),
                )
            &&& forall|k: u128| #[trigger]
                after.sessions.contains_key(k) ==> s.sessions.contains_key(k) || exists|i: int|
                    0 <= i < entries.len() && drawn_id(#[trigger] entries[i]) == k
        }),
    decreases entries.len(),
{
    if entries.len() > 0 {
        let earlier = entries.drop_last();
        let last = entries.last();
        assert forall|i: int| 0 <= i < earlier.len() implies !s.sessions.contains_key(
            drawn_id(#[trigger] earlier[i]),
        ) by {
            assert(earlier[i] == entries[i]);
        }
        assert forall|i: int, j: int| 0 <= i < j < earlier.len() implies drawn_id(
            #[trigger] earlier[i],
        ) != drawn_id(#[trigger] earlier[j]) by {
            assert(earlier[i] == entries[i] && earlier[j] == entries[j]);
        }
        fresh_identifiers_never_collide(s, earlier);
        let before = entered(s, earlier);
        let after = entered(s, entries);
        let id = drawn_id(last);
        assert(last == entries[entries.len() - 1]);
        assert(!before.sessions.contains_key(id)) by {
            if before.sessions.contains_key(id) {
                let i = choose|i: int|
                    0 <= i < earlier.len() && drawn_id(#[trigger] earlier[i]) == id;
                assert(earlier[i] == entries[i]);
            }
        }
        assert(after.sessions.dom() == before.sessions.dom().insert(id));
        assert forall|i: int| 0 <= i < entries.len() implies after.sessions.contains_key(
            drawn_id(#[trigger] entries[i]),
        ) by {
            if i < earlier.len() {
                assert(earlier[i] == entries[i]);
            }
        }
        assert forall|k: u128| #[trigger]
            after.sessions.contains_key(k) implies s.sessions.contains_key(k) || exists|i: int|
            0 <= i < entries.len() && drawn_id(#[trigger] entries[i]) == k by {
            if k == id {
                assert(drawn_id(entries[entries.len() - 1]) == k);
            } else if !s.sessions.contains_key(k) {
                let i = choose|i: int|
                    0 <= i < earlier.len() && drawn_id(#[trigger] earlier[i]) == k;
                assert(earlier[i] == entries[i]);
            }
        }
    }
}

/// One registration of an application: its name, its callback address and
/// the token its secret is the text of.
pub struct Listing {
    pub name: Seq<char>,
    pub url: Seq<char>,
    pub token: u128,
}

/// The store after the applications were registered, one after the other.
pub open spec fn listed(s: BrokerView, listings: Seq<Listing>) -> BrokerView
    decreases listings.len(),
{
    if listings.len() == 0 {
        s
    } else {
        let last = listings.last();
        with_app(listed(s, listings.drop_last()), last.name, last.url, last.token)
    }
}

/// Applications registered under new names with tokens that differ from
/// each other get secrets that differ from each other: the registry holds
/// one record more for each of them, each with the text of its token for
/// a secret, and every earlier record is as it was. A new secret differs
/// from an earlier one unless the token drawn is the one which that
/// earlier secret is the text of. That tokens drawn at random do differ is
/// the random source's to give.
pub proof fn fresh_tokens_never_collide(s: BrokerView, listings: Seq<Listing>)
    requires
        s.apps.dom().finite(),
        forall|i: int|
            0 <= i < listings.len() ==> !s.apps.contains_key((#[trigger] listings[i]).name),
        forall|i: int, j: int|
            0 <= i < j < listings.len() ==> (#[trigger] listings[i]).name != (
            #[trigger] listings[j]).name && listings[i].token != listings[j].token,
    ensures
        ({
            let after = listed(s, listings);
            &&& after.users == s.users
            &&& after.sessions == s.sessions
            &&& after.apps.dom().finite()
            &&& after.apps.len() == s.apps.len() + listings.len()
            &&& forall|name: Seq<char>| #[trigger]
                s.apps.contains_key(name) ==> after.apps.contains_key(name) && after.apps[name]
                    == s.apps[name]
            &&& forall|i: int|
                0 <= i < listings.len() ==> after.apps.contains_key((#[trigger] listings[i]).name)
                    && after.apps[listings[i].name].secret == hyphenated(listings[i].token)
                    && after.apps[listings[i].name].url == listings[i].url
            &&& forall|i: int, j: int|
                0 <= i < j < listings.len() ==> after.apps[(#[trigger] listings[i]).name].secret
                    != after.apps[(#[trigger] listings[j]).name].secret
            &&& forall|name: Seq<char>, i: int|
                0 <= i < listings.len() && #[trigger] s.apps.contains_key(name)
                    && s.apps[name].secret != hyphenated((#[trigger] listings[i]).token)
                    ==> after.apps[name].secret != after.apps[listings[i].name].secret
            &&& forall|name: Seq<char>| #[trigger]
                after.apps.contains_key(name) ==> s.apps.contains_key(name) || exists|i: int|
                    0 <= i < listings.len() && (#[trigger] listings[i]).name == name
        }),
    decreases listings.len(),
{
    if listings.len() > 0 {
        let earlier = listings.drop_last();
        let last = listings.last();
        assert(last == listings[listings.len() - 1]);
        assert forall|i: int| 0 <= i < earlier.len() implies !s.apps.contains_key(
            (#[trigger] earlier[i]).name,
        ) by {
            assert(earlier[i] == listings[i]);
        }
        assert forall|i: int, j: int| 0 <= i < j < earlier.len() implies (
        #[trigger] earlier[i]).name != (#[trigger] earlier[j]).name && earlier[i].token
            != earlier[j].token by {
            assert(earlier[i] == listings[i] && earlier[j] == listings[j]);
        }
        fresh_tokens_never_collide(s, earlier);
        let before = listed(s, earlier);
        let after = listed(s, listings);
        assert(!before.apps.contains_key(last.name)) by {
            if before.apps.contains_key(last.name) {
                let i = choose|i: int|
                    0 <= i < earlier.len() && (#[trigger] earlier[i]).name == last.name;
                assert(earlier[i] == listings[i]);
            }
        }
        assert(after.apps.dom() == before.apps.dom().insert(last.name));
        assert forall|i: int| 0 <= i < listings.len() implies after.apps.contains_key(
            (#[trigger] listings[i]).name,
        ) && after.apps[listings[i].name].secret == hyphenated(listings[i].token)
            && after.apps[listings[i].name].url == listings[i].url by {
            if i < earlier.len() {
                assert(earlier[i] == listings[i]);
            }
        }
        assert forall|i: int, j: int| 0 <= i < j < listings.len() implies after.apps[(
        #[trigger] listings[i]).name].secret != after.apps[(
        #[trigger] listings[j]).name].secret by {
            if hyphenated(listings[i].token) == hyphenated(listings[j].token) {
                text_names_one_identifier(listings[i].token, listings[j].token);
            }
        }
        assert forall|name: Seq<char>| #[trigger]
            after.apps.contains_key(name) implies s.apps.contains_key(name) || exists|i: int|
            0 <= i < listings.len() && (#[trigger] listings[i]).name == name by {
            if name == last.name {
                assert(listings[listings.len() - 1].name == name);
            } else if !s.apps.contains_key(name) {
                let i = choose|i: int|
                    0 <= i < earlier.len() && (#[trigger] earlier[i]).name == name;
                assert(earlier[i] == listings[i]);
            }
        }
    }
}

} // verus!
