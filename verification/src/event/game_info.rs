//! Information about the game instance providing updates.

use vstd::prelude::*;

verus! {

/// Information about a game instance.
#[derive(Debug, Clone, PartialEq, Eq, PartialOrd, Ord, Hash)]
pub struct GameInfo {
    /// The name of the game being played.
    pub name: String,
    /// The store id of the game being played.
    pub app_id: u32,
    /// The version of the game being played.
    pub version: u32,
    /// The player's platform id.
    pub steam_id: String,
    /// The timestamp of when the update happened.
    pub timestamp: u64,
}

} // verus!
