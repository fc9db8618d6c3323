//! The event envelope delivered to subscribers, and its parts.

use vstd::prelude::*;

use std::collections::HashMap;

mod game_info;

pub use game_info::GameInfo;

/// Types for map state.
pub mod map;

/// Types for player state.
pub mod player;

/// Types for round state.
pub mod round;

verus! {

/// The two teams.
#[derive(Debug, Clone, Copy, PartialEq, Eq, PartialOrd, Ord, Hash, Structural)]
pub enum Team {
    /// Terrorists.
    T,
    /// Counter-Terrorists.
    CT,
}

/// An event received from the game client.
///
/// Each optional part is `None` when the client has nothing to report for
/// that category, for example while in the main menu.
#[derive(Debug, Clone, PartialEq, Eq)]
pub struct Event {
    /// The game instance providing the update.
    pub game_info: Option<GameInfo>,
    /// The map currently being played.
    pub map: Option<map::MapInfo>,
    /// The player who is currently playing or being spectated.
    pub player: Option<player::Player>,
    /// The current ingame round.
    pub round: Option<round::Round>,
    /// Authentication information echoed back by the client.
    pub auth: HashMap<String, String>,
}

} // verus!
