//! A verified client for the Old School RuneScape hiscores service.
//!
//! Each public lookup builds the URL for one of the four leaderboard
//! variants, performs a blocking HTTP GET through `ureq`, and decodes the
//! comma-separated response body into a typed [`Player`] record. The URL
//! construction and the whole decoder are verified; only the network call
//! itself is trusted.

use vstd::prelude::*;
use vstd::string::StringExecFns;

pub mod decode;
mod fetch;
pub mod model;
pub mod numbers;
pub mod skills;
pub mod text;

pub use decode::player_from_body;
pub use decode::player_from_outcome;
pub use model::FetchOutcome;
pub use model::HighScoresError;
pub use model::Player;
pub use model::PlayerView;
pub use model::Stat;
pub use model::StatView;

use decode::outcome_decided;
use fetch::http_get;

verus! {

/// Base URL of the standard leaderboard.
pub const STANDARD_HIGH_SCORES: &'static str =
    "https://secure.runescape.com/m=hiscore_oldschool/index_lite.ws";

/// Base URL of the ironman leaderboard.
pub const IRONMAN_HIGH_SCORES: &'static str =
    "https://secure.runescape.com/m=hiscore_oldschool_ironman/index_lite.ws";

/// Base URL of the hardcore-ironman leaderboard.
pub const HARDCORE_HIGH_SCORES: &'static str =
    "https://secure.runescape.com/m=hiscore_oldschool_hardcore_ironman/index_lite.ws";

/// Base URL of the ultimate-ironman leaderboard.
pub const ULTIMATE_HIGH_SCORES: &'static str =
    "https://secure.runescape.com/m=hiscore_oldschool_hardcore_ultimate/index_lite.ws";

/// Builds the lookup URL for one leaderboard variant: the base URL followed
/// by `?player=` and the player name verbatim, with no encoding applied.
pub fn build_url(base: &str, player: &str) -> (u: String)
    ensures
        u@ == base@ + "?player="@ + player@,
{
    let mut u = base.to_owned();
    u.append("?player=");
    u.append(player);
    u
}

/// The shared lookup: one GET of `url`, and the outcome classified as
/// [`outcome_decided`] describes. Whatever the network does, the result is
/// the one its outcome dictates; in particular a player record only comes
/// from a success body, and it carries the requested name.
fn lookup(url: &str, player: &str) -> (r: Result<Player, HighScoresError>)
    ensures
        exists|o: FetchOutcome| #[trigger] outcome_decided(o, player@, r),
        r matches Ok(p) ==> p@.name == player@,
{
    let out = http_get(url);
    let ghost g = out;
    let r = player_from_outcome(out, player);
    proof {
        assert(outcome_decided(g, player@, r));
    }
    r
}

/// Looks `player` up on the standard leaderboard.
pub fn standard_high_scores(player: &str) -> (r: Result<Player, HighScoresError>)
    ensures
        exists|o: FetchOutcome| #[trigger] outcome_decided(o, player@, r),
        r matches Ok(p) ==> p@.name == player@,
{
    let url = build_url(STANDARD_HIGH_SCORES, player);
    lookup(url.as_str(), player)
}

/// Looks `player` up on the ironman leaderboard.
pub fn ironman_high_scores(player: &str) -> (r: Result<Player, HighScoresError>)
    ensures
        exists|o: FetchOutcome| #[trigger] outcome_decided(o, player@, r),
        r matches Ok(p) ==> p@.name == player@,
{
    let url = build_url(IRONMAN_HIGH_SCORES, player);
    lookup(url.as_str(), player)
}

/// Looks `player` up on the hardcore-ironman leaderboard.
pub fn hardcode_high_scores(player: &str) -> (r: Result<Player, HighScoresError>)
    ensures
        exists|o: FetchOutcome| #[trigger] outcome_decided(o, player@, r),
        r matches Ok(p) ==> p@.name == player@,
{
    let url = build_url(HARDCORE_HIGH_SCORES, player);
    lookup(url.as_str(), player)
}

/// Looks `player` up on the ultimate-ironman leaderboard.
pub fn ultimate_high_scores(player: &str) -> (r: Result<Player, HighScoresError>)
    ensures
        exists|o: FetchOutcome| #[trigger] outcome_decided(o, player@, r),
        r matches Ok(p) ==> p@.name == player@,
{
    let url = build_url(ULTIMATE_HIGH_SCORES, player);
    lookup(url.as_str(), player)
}

} // verus!
