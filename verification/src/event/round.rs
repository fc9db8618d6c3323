//! Round state reported by the game client.

use vstd::prelude::*;

verus! {

/// Information about the current round.
#[allow(missing_docs)]
#[derive(Debug, Clone, Copy, PartialEq, Eq, PartialOrd, Ord, Hash)]
pub struct Round {
    pub phase: Phase,
    pub bomb_state: Option<BombState>,
    pub winner: Option<super::Team>,
}

/// The phases of a round.
#[allow(missing_docs)]
#[derive(Debug, Clone, Copy, PartialEq, Eq, PartialOrd, Ord, Hash, Structural)]
pub enum Phase {
    FreezeTime,
    Live,
    Over,
}

/// The state of the bomb.
#[allow(missing_docs)]
#[derive(Debug, Clone, Copy, PartialEq, Eq, PartialOrd, Ord, Hash, Structural)]
pub enum BombState {
    Planted,
    Defused,
    Exploded,
}

} // verus!
