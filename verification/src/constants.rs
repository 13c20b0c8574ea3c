//! Shared constants of the client.

use vstd::prelude::*;

verus! {

/// The base URL of the game-statistics web service.
pub const STEAM_API_BASE_URL: &'static str = "http://api.steampowered.com";

/// The largest Unix timestamp (in seconds) that the date formatter accepts:
/// the last second of the last calendar year chrono can represent.
pub const MAX_UTC_SECS: u64 = 8210266876799;

} // verus!
