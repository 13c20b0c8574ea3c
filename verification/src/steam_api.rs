//! The data model of the game-statistics service and the request URLs of
//! its endpoints.
//!
//! The network transport itself is not part of this library: callers
//! perform the HTTP requests, decode the JSON payloads into the plain
//! records below, and hand those records to the rendering code. The URL
//! of each endpoint, however, is pure string logic and is built here with
//! an exact contract.

use vstd::prelude::*;

use crate::text::spec_decimal;
use crate::text::append_decimal_u64;

verus! {

/// A game owned by the user.
#[derive(Debug, Clone, PartialEq)]
pub struct Game {
    pub appid: u32,
    pub name: String,
    pub playtime_forever: u32,
    pub img_icon_url: String,
    pub playtime_windows_forever: u32,
    pub playtime_mac_forever: u32,
    pub playtime_linux_forever: u32,
    pub rtime_last_played: u64,
    pub playtime_disconnected: u32,
}

/// One achievement of a game: `achieved > 0` means unlocked, and
/// `unlocktime` is the unlock instant as a Unix timestamp (meaningless
/// while the achievement is locked).
#[derive(Debug, Clone, PartialEq)]
pub struct Achievement {
    pub apiname: String,
    pub achieved: u8,
    pub unlocktime: u64,
    pub name: String,
    pub description: String,
}

/// The payload of the player-achievements endpoint.
#[derive(Debug, Clone)]
pub struct PlayerStatsResponse {
    pub playerstats: PlayerStats,
}

/// The player statistics of one game.
#[derive(Debug, Clone)]
pub struct PlayerStats {
    pub steam_id: String,
    pub game_name: String,
    pub achievements: Vec<Achievement>,
    pub success: bool,
}

/// The share of all players that have unlocked one achievement, with the
/// percentage already rendered as display text by the caller.
#[derive(Debug, Clone, PartialEq)]
pub struct GlobalRate {
    pub name: String,
    pub percent_text: String,
}

/// A client description for the game-statistics service: the credential,
/// the account, and the base URL that every request URL starts with.
pub struct Api {
    api_key: String,
    steam_id: String,
    base_url: String,
}

impl Api {
    /// The credential that request URLs carry.
    pub closed spec fn spec_api_key(&self) -> Seq<char> {
        self.api_key@
    }

    /// The account identifier that request URLs carry.
    pub closed spec fn spec_steam_id(&self) -> Seq<char> {
        self.steam_id@
    }

    /// The base URL that every request URL starts with.
    pub closed spec fn spec_base_url(&self) -> Seq<char> {
        self.base_url@
    }

    /// Creates a client description from a credential, an account
    /// identifier and a base URL.
    pub fn new(api_key: String, steam_id: String, base_url: String) -> (r: Api)
        ensures
            r.spec_api_key() == api_key@,
            r.spec_steam_id() == steam_id@,
            r.spec_base_url() == base_url@,
    {
        Api { api_key, steam_id, base_url }
    }

    /// The URL of the owned-games endpoint.
    pub fn get_games_list_url(&self) -> (r: String)
        ensures
            r@ == self.spec_base_url() + "/IPlayerService/GetOwnedGames/v0001/?key="@
                + self.spec_api_key() + "&steamid="@ + self.spec_steam_id()
                + "&format=json&include_appinfo=1"@,
    {
        let mut url = self.base_url.clone();
        url.append("/IPlayerService/GetOwnedGames/v0001/?key=");
        url.append(self.api_key.as_str());
        url.append("&steamid=");
        url.append(self.steam_id.as_str());
        url.append("&format=json&include_appinfo=1");
        url
    }

    /// The URL of the player-achievements endpoint for the game `appid`.
    pub fn get_game_achievements_url(&self, appid: u32) -> (r: String)
        ensures
            r@ == self.spec_base_url() + "/ISteamUserStats/GetPlayerAchievements/v0001/?appid="@
                + spec_decimal(appid as int) + "&key="@ + self.spec_api_key() + "&steamid="@
                + self.spec_steam_id() + "&l=en"@,
    {
        let mut url = self.base_url.clone();
        url.append("/ISteamUserStats/GetPlayerAchievements/v0001/?appid=");
        append_decimal_u64(&mut url, appid as u64);
        url.append("&key=");
        url.append(self.api_key.as_str());
        url.append("&steamid=");
        url.append(self.steam_id.as_str());
        url.append("&l=en");
        url
    }

    /// The URL of the global-achievement-percentages endpoint for the
    /// game `appid`.
    pub fn get_global_achievements_url(&self, appid: u32) -> (r: String)
        ensures
            r@ == self.spec_base_url()
                + "/ISteamUserStats/GetGlobalAchievementPercentagesForApp/v0002/?gameid="@
                + spec_decimal(appid as int) + "&format=json&l=en"@,
    {
        let mut url = self.base_url.clone();
        url.append("/ISteamUserStats/GetGlobalAchievementPercentagesForApp/v0002/?gameid=");
        append_decimal_u64(&mut url, appid as u64);
        url.append("&format=json&l=en");
        url
    }
}

} // verus!
