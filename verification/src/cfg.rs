//! The client configuration: the service credential and the account
//! identifier.
//!
//! Reading the two values from the process environment is the caller's
//! job; `load` takes what the caller found (or did not find) and either
//! fills the configuration or names the missing value.

use vstd::prelude::*;

verus! {

/// The application configuration.
pub struct Cfg {
    api_key: String,
    steam_id: String,
}

impl Cfg {
    /// The configured service credential.
    pub closed spec fn spec_api_key(&self) -> Seq<char> {
        self.api_key@
    }

    /// The configured account identifier.
    pub closed spec fn spec_steam_id(&self) -> Seq<char> {
        self.steam_id@
    }

    /// Creates a new, empty configuration.
    pub fn new() -> (r: Self)
        ensures
            r.spec_api_key() == Seq::<char>::empty(),
            r.spec_steam_id() == Seq::<char>::empty(),
    {
        Self { api_key: String::new(), steam_id: String::new() }
    }

    /// Returns the service credential.
    pub fn api_key(&self) -> (r: &str)
        ensures
            r@ == self.spec_api_key(),
    {
        self.api_key.as_str()
    }

    /// Returns the account identifier.
    pub fn steam_id(&self) -> (r: &str)
        ensures
            r@ == self.spec_steam_id(),
    {
        self.steam_id.as_str()
    }

    /// Fills the configuration from the two environment values the
    /// caller read, `TROGUE_STEAM_API_KEY` and `TROGUE_STEAM_ID`; a
    /// missing value leaves the remaining fields untouched and names the
    /// missing variable in the error.
    pub fn load(&mut self, api_key: Option<String>, steam_id: Option<String>) -> (r: Result<
        (),
        &'static str,
    >)
        ensures
            api_key is None ==> (r matches Err(m)
                && m@ == "Missing TROGUE_STEAM_API_KEY environment variable."@
                && final(self).spec_api_key() == old(self).spec_api_key()
                && final(self).spec_steam_id() == old(self).spec_steam_id()),
            api_key is Some && steam_id is None ==> (r matches Err(m)
                && m@ == "Missing TROGUE_STEAM_ID environment variable."@
                && final(self).spec_api_key() == api_key->0@
                && final(self).spec_steam_id() == old(self).spec_steam_id()),
            api_key is Some && steam_id is Some ==> r is Ok
                && final(self).spec_api_key() == api_key->0@
                && final(self).spec_steam_id() == steam_id->0@,
    {
        match api_key {
            Some(k) => {
                self.api_key = k;
            },
            None => {
                return Err("Missing TROGUE_STEAM_API_KEY environment variable.");
            },
        }
        match steam_id {
            Some(s) => {
                self.steam_id = s;
            },
            None => {
                return Err("Missing TROGUE_STEAM_ID environment variable.");
            },
        }
        Ok(())
    }
}

impl Default for Cfg {
    /// Creates a default (empty) configuration.
    fn default() -> (r: Self)
        ensures
            r.spec_api_key() == Seq::<char>::empty(),
            r.spec_steam_id() == Seq::<char>::empty(),
    {
        Self::new()
    }
}

} // verus!
