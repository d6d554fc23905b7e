//! The credential store: user name to password hash.

use crate::model::{User, UserView};
use crate::primitives::{bcrypt_hash, bcrypt_verdict, bcrypt_verify};
use vstd::hash_map::StringHashMap;
use vstd::prelude::*;
use vstd::string::StringExecFns;

verus! {

/// The cost factor every password is hashed with.
pub const HASH_COST: u32 = 10;

/// Why the credential store turned a request down.
#[derive(Clone, Copy, Debug, PartialEq, Eq, Structural)]
pub enum CredentialError {
    /// The name is taken.
    Conflict,
    /// No user has this name.
    NotFound,
    /// The hashing primitive failed: it had no randomness for a salt, or the
    /// stored hash is not one it can read.
    HashFailed,
}

/// User names with the hashes of their passwords. No name occurs twice.
pub struct CredentialStore {
    users: StringHashMap<User>,
}

impl View for CredentialStore {
    type V = Map<Seq<char>, UserView>;

    closed spec fn view(&self) -> Map<Seq<char>, UserView> {
        self.users@.map_values(|u: User| u@)
    }
}

/// What checking `password` against the record of `username` gives: the
/// answer of the hash comparison where the record exists.
pub open spec fn password_check(
    users: Map<Seq<char>, UserView>,
    username: Seq<char>,
    password: Seq<char>,
) -> Result<bool, CredentialError> {
    if !users.contains_key(username) {
        Err(CredentialError::NotFound)
    } else {
        match bcrypt_verdict(password, users[username].password) {
            Some(matches) => Ok(matches),
            None => Err(CredentialError::HashFailed),
        }
    }
}

impl CredentialStore {
    /// A store with no user.
    pub fn new() -> (r: CredentialStore)
        ensures
            r@ == Map::<Seq<char>, UserView>::empty(),
    {
        let r = CredentialStore { users: StringHashMap::new() };
        assert(r@ =~= Map::<Seq<char>, UserView>::empty());
        r
    }

    /// Whether a user has this name.
    pub fn contains(&self, username: &str) -> (r: bool)
        ensures
            r == self@.contains_key(username@),
    {
        self.users.contains_key(username)
    }

    /// The record of `username`, if there is one.
    pub fn get(&self, username: &str) -> (r: Option<&User>)
        ensures
            match r {
                Some(user) => self@.contains_key(username@) && user@ == self@[username@],
                None => !self@.contains_key(username@),
            },
    {
        self.users.get(username)
    }

    /// Stores `username` with a password hash made elsewhere, unless the name
    /// is taken.
    pub fn register_hashed(&mut self, username: &str, hash: String) -> (r: Result<
        (),
        CredentialError,
    >)
        ensures
            old(self)@.contains_key(username@) ==> r == Err::<(), CredentialError>(
                CredentialError::Conflict,
            ) && final(self)@ == old(self)@,
            !old(self)@.contains_key(username@) ==> r is Ok && final(self)@ == old(self)@.insert(
                username@,
                UserView { password: hash@ },
            ),
    {
        if self.users.contains_key(username) {
            return Err(CredentialError::Conflict);
        }
        let ghost password = hash@;
        self.users.insert(String::from_str(username), User { password: hash });
        assert(self@ =~= old(self)@.insert(username@, UserView { password }));
        Ok(())
    }

    /// Stores `username` with the salted hash of `password`, unless the name
    /// is taken. The hash is new at each call, so the contract names it by
    /// where it ends up; what is known of it is that `password` checks
    /// against it.
    pub fn register(&mut self, username: &str, password: &str) -> (r: Result<(), CredentialError>)
        ensures
            old(self)@.contains_key(username@) <==> r == Err::<(), CredentialError>(
                CredentialError::Conflict,
            ),
            r is Err ==> final(self)@ == old(self)@ && r != Err::<(), CredentialError>(
                CredentialError::NotFound,
            ),
            r is Ok ==> final(self)@.contains_key(username@) && final(self)@ == old(
                self,
            )@.insert(username@, final(self)@[username@]) && password_check(
                final(self)@,
                username@,
                password@,
            ) == Ok::<bool, CredentialError>(true),
    {
        if self.users.contains_key(username) {
            return Err(CredentialError::Conflict);
        }
        match bcrypt_hash(password, HASH_COST) {
            Ok(hash) => self.register_hashed(username, hash),
            Err(_) => Err(CredentialError::HashFailed),
        }
    }

    /// Checks `password` against the stored hash of `username`.
    pub fn verify(&self, username: &str, password: &str) -> (r: Result<bool, CredentialError>)
        ensures
            r == password_check(self@, username@, password@),
    {
        match self.users.get(username) {
            None => Err(CredentialError::NotFound),
            Some(user) => match bcrypt_verify(password, user.password.as_str()) {
                Ok(matches) => Ok(matches),
                Err(_) => Err(CredentialError::HashFailed),
            },
        }
    }

    /// Removes the record of `username`, if there is one.
    pub fn remove(&mut self, username: &str)
        ensures
            final(self)@ == old(self)@.remove(username@),
    {
        self.users.remove(username);
        assert(self@ =~= old(self)@.remove(username@));
    }
}

} // verus!
