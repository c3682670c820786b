//! The data the library hands to its callers: a player record, the per-skill
//! statistics it holds, the error taxonomy, and the classified outcome of one
//! HTTP fetch.

use vstd::prelude::*;

verus! {

/// One skill's entry of a hiscores response: the skill's name from the fixed
/// table, and the rank, level and experience the service reported for it.
/// A field that the service sent in a non-numeric form holds the sentinel -1.
#[derive(Debug)]
pub struct Stat {
    pub skill: String,
    pub rank: i64,
    pub level: i64,
    pub xp: i64,
}

/// The mathematical value of a `Stat`.
pub struct StatView {
    pub skill: Seq<char>,
    pub rank: int,
    pub level: int,
    pub xp: int,
}

impl View for Stat {
    type V = StatView;

    open spec fn view(&self) -> StatView {
        StatView {
            skill: self.skill@,
            rank: self.rank as int,
            level: self.level as int,
            xp: self.xp as int,
        }
    }
}

/// A player's hiscores record: the name the lookup was made with, and the
/// statistics decoded from the response body, in skill-table order.
#[derive(Debug)]
pub struct Player {
    pub name: String,
    pub stats: Vec<Stat>,
}

/// The mathematical value of a `Player`.
pub struct PlayerView {
    pub name: Seq<char>,
    pub stats: Seq<StatView>,
}

impl View for Player {
    type V = PlayerView;

    open spec fn view(&self) -> PlayerView {
        PlayerView { name: self.name@, stats: self.stats@.map_values(|s: Stat| s@) }
    }
}

/// Why a lookup failed.
#[derive(Debug)]
pub enum HighScoresError {
    /// The service answered the lookup with HTTP 404: the player has no
    /// entry on the requested leaderboard.
    PlayerNotFound,
    /// The request did not produce a readable response: a transport failure
    /// or an unexpected HTTP status. Carries the underlying cause's text.
    RequestFailed(String),
    /// The response arrived but its body could not be read as text.
    /// Carries the underlying cause's text.
    DecodeFailed(String),
}

/// What one HTTP GET came to, reduced to plain values: the body on success,
/// the status code when the service refused, or the failure's text.
#[derive(Debug)]
pub enum FetchOutcome {
    /// A response arrived and its body was read as text: the HTTP status
    /// code and the body's bytes.
    Body(u16, Vec<u8>),
    /// The service answered with this error status; the second field carries
    /// the transport layer's description of it.
    Status(u16, String),
    /// No response was obtained; carries the cause's text.
    Transport(String),
    /// A success status arrived but the body could not be read as text;
    /// carries the cause's text.
    Unreadable(String),
}

} // verus!
