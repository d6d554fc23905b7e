//! The session store: session identifier to session record.

use crate::model::{Session, SessionView, SESSION_NANOS};
use crate::primitives::{random_uuid, unix_nanos_now, CLOCK_LIMIT};
use std::collections::HashMap;
use vstd::prelude::*;
use vstd::string::StringExecFns;

verus! {

broadcast use vstd::std_specs::hash::group_hash_axioms;

/// Sessions by identifier. A record stays until it is removed: the store
/// never looks at the time.
pub struct SessionStore {
    sessions: HashMap<u128, Session>,
}

impl View for SessionStore {
    type V = Map<u128, SessionView>;

    closed spec fn view(&self) -> Map<u128, SessionView> {
        self.sessions@.map_values(|s: Session| s@)
    }
}

/// The record of a session opened at `now`.
pub open spec fn opened(
    username: Seq<char>,
    now: int,
    ip: Seq<char>,
    app: Seq<char>,
) -> SessionView {
    SessionView { username, expires: now + SESSION_NANOS, ip, app }
}

impl SessionStore {
    /// A store with no session.
    pub fn new() -> (r: SessionStore)
        ensures
            r@ == Map::<u128, SessionView>::empty(),
    {
        let r = SessionStore { sessions: HashMap::new() };
        assert(r@ =~= Map::<u128, SessionView>::empty());
        r
    }

    /// Stores a session under `id`, opened at `now` and ending seven days
    /// later. A session already stored under `id` is replaced. Returns the
    /// time the session ends.
    pub fn create_with(
        &mut self,
        id: u128,
        now: i128,
        username: &str,
        ip: &str,
        app: &str,
    ) -> (expires: i128)
        requires
            now + SESSION_NANOS <= i128::MAX,
        ensures
            expires == now + SESSION_NANOS,
            final(self)@ == old(self)@.insert(id, opened(username@, now as int, ip@, app@)),
    {
        let expires = now + SESSION_NANOS;
        let session = Session {
            username: String::from_str(username),
            expires,
            ip: String::from_str(ip),
            app: String::from_str(app),
        };
        self.sessions.insert(id, session);
        assert(self@ =~= old(self)@.insert(id, opened(username@, now as int, ip@, app@)));
        expires
    }

    /// Opens a session under a fresh random identifier, ending seven days
    /// from now. Returns the identifier and the time the session ends.
    pub fn create(&mut self, username: &str, ip: &str, app: &str) -> (r: (u128, i128))
        ensures
            -CLOCK_LIMIT <= r.1 - SESSION_NANOS <= CLOCK_LIMIT,
            final(self)@ == old(self)@.insert(
                r.0,
                opened(username@, r.1 - SESSION_NANOS, ip@, app@),
            ),
    {
        let id = random_uuid();
        let now = unix_nanos_now();
        let expires = self.create_with(id, now, username, ip, app);
        (id, expires)
    }

    /// Whether a session is stored under `id`.
    pub fn contains(&self, id: u128) -> (r: bool)
        ensures
            r == self@.contains_key(id),
    {
        self.sessions.contains_key(&id)
    }

    /// The session stored under `id`, if there is one.
    pub fn get(&self, id: u128) -> (r: Option<&Session>)
        ensures
            match r {
                Some(session) => self@.contains_key(id) && session@ == self@[id],
                None => !self@.contains_key(id),
            },
    {
        self.sessions.get(&id)
    }

    /// Removes the session stored under `id`, if there is one. No other
    /// session is touched.
    pub fn remove(&mut self, id: u128)
        ensures
            final(self)@ == old(self)@.remove(id),
    {
        self.sessions.remove(&id);
        assert(self@ =~= old(self)@.remove(id));
    }
}

} // verus!
