//! The application state: the client description built from the loaded
//! configuration.

use vstd::prelude::*;

use crate::cfg::Cfg;
use crate::constants::STEAM_API_BASE_URL;
use crate::steam_api::Api;

verus! {

/// The main application structure.
pub struct App {
    api: Api,
}

impl App {
    /// The client description the application talks to the service with.
    pub closed spec fn spec_api(&self) -> Api {
        self.api
    }

    /// Creates the application state from a loaded configuration: a
    /// client description with the configured credential and account and
    /// the well-known base URL.
    pub fn new(cfg: Cfg) -> (r: App)
        ensures
            r.spec_api().spec_api_key() == cfg.spec_api_key(),
            r.spec_api().spec_steam_id() == cfg.spec_steam_id(),
            r.spec_api().spec_base_url() == STEAM_API_BASE_URL@,
    {
        let api = Api::new(
            cfg.api_key().to_owned(),
            cfg.steam_id().to_owned(),
            STEAM_API_BASE_URL.to_owned(),
        );
        App { api }
    }

    /// The client description, for building request URLs.
    pub fn api(&self) -> (r: &Api)
        ensures
            r == self.spec_api(),
    {
        &self.api
    }
}

} // verus!
