//! Map state reported by the game client.

use vstd::prelude::*;

use std::collections::HashMap;

verus! {

/// Information about the map currently being played.
#[derive(Debug, Clone, PartialEq, Eq)]
pub struct MapInfo {
    /// The name of the map.
    pub name: String,
    /// The gamemode that is currently being played.
    pub mode: GameMode,
    /// The current phase of the game.
    pub phase: Phase,
    /// The current round number.
    pub round: u8,
    /// The amount of current spectators.
    pub spectator_count: usize,
    /// Who won which round and how.
    pub round_wins: HashMap<u64, String>,
    /// The number of matches to win the series.
    pub matches_to_win: usize,
    /// The amount of souvenirs dropped on this map so far.
    pub souvenirs_total: usize,
    /// The Terrorist's current stats.
    pub t_stats: Stats,
    /// The Counter-Terrorist's current stats.
    pub ct_stats: Stats,
}

/// The different game modes.
#[allow(missing_docs)]
#[derive(Debug, Clone, Copy, PartialEq, Eq, PartialOrd, Ord, Hash, Structural)]
pub enum GameMode {
    Competetive,
    Casual,
    Deathmatch,
    Training,
    Demolition,
    ArmsRace,
    Wingman,
}

/// The phases of a game.
#[allow(missing_docs)]
#[derive(Debug, Clone, Copy, PartialEq, Eq, PartialOrd, Ord, Hash, Structural)]
pub enum Phase {
    Warmup,
    Live,
    Halftime,
    GameOver,
}

/// The stats of one team in the current game.
#[derive(Debug, Clone, PartialEq, Eq, PartialOrd, Ord, Hash)]
pub struct Stats {
    /// Team name.
    pub name: Option<String>,
    /// Flag code.
    pub flag: Option<String>,
    /// The amount of won rounds.
    pub score: usize,
    /// The amount of lost rounds in a row.
    pub loss_streak: usize,
    /// The amount of timeouts remaining.
    pub timeouts: usize,
    /// The amount of wins this series.
    pub wins: usize,
}

} // verus!
