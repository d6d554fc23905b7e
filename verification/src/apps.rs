//! The application registry: application name to shared secret and
//! callback address.

use crate::model::{App, AppView};
use crate::identifiers::hyphenated;
use crate::primitives::{random_uuid, uuid_text};
use vstd::hash_map::StringHashMap;
use vstd::prelude::*;
use vstd::string::StringExecFns;

verus! {

/// Applications by name. An application is never removed; registering a
/// name again replaces its record.
pub struct AppRegistry {
    apps: StringHashMap<App>,
}

impl View for AppRegistry {
    type V = Map<Seq<char>, AppView>;

    closed spec fn view(&self) -> Map<Seq<char>, AppView> {
        self.apps@.map_values(|a: App| a@)
    }
}

impl AppRegistry {
    /// A registry with no application.
    pub fn new() -> (r: AppRegistry)
        ensures
            r@ == Map::<Seq<char>, AppView>::empty(),
    {
        let r = AppRegistry { apps: StringHashMap::new() };
        assert(r@ =~= Map::<Seq<char>, AppView>::empty());
        r
    }

    /// Stores the application `name` with the secret that is the text of
    /// `token`, and returns the secret.
    pub fn register_with(&mut self, name: &str, url: &str, token: u128) -> (secret: String)
        ensures
            secret@ == hyphenated(token),
            final(self)@ == old(self)@.insert(name@, AppView { secret: secret@, url: url@ }),
    {
        let secret = uuid_text(token);
        let app = App { secret: secret.clone(), url: String::from_str(url) };
        self.apps.insert(String::from_str(name), app);
        assert(self@ =~= old(self)@.insert(name@, AppView { secret: secret@, url: url@ }));
        secret
    }

    /// Stores the application `name` with a fresh random secret, and returns
    /// the secret.
    pub fn register(&mut self, name: &str, url: &str) -> (secret: String)
        ensures
            exists|token: u128| secret@ == hyphenated(token),
            final(self)@ == old(self)@.insert(name@, AppView { secret: secret@, url: url@ }),
    {
        let token = random_uuid();
        self.register_with(name, url, token)
    }

    /// The record of the application `name`, if there is one.
    pub fn lookup(&self, name: &str) -> (r: Option<&App>)
        ensures
            match r {
                Some(app) => self@.contains_key(name@) && app@ == self@[name@],
                None => !self@.contains_key(name@),
            },
    {
        self.apps.get(name)
    }
}

} // verus!
