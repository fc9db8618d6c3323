//! Player state reported by the game client.

use vstd::prelude::*;

use std::collections::HashMap;

verus! {

/// Information about the current player.
#[derive(Debug, Clone, PartialEq, Eq)]
pub struct Player {
    /// The name of the player.
    pub name: String,
    /// The player's platform id.
    pub steam_id: String,
    /// The player's current activity.
    pub activity: Activity,
    /// The player's clan tag.
    pub clan: Option<String>,
    /// The team the player is currently on.
    pub team: Option<super::Team>,
    /// The weapons that the player is currently holding.
    pub weapons: HashMap<String, Weapon>,
    /// The player's current state (health, armor, and so on).
    pub state: Option<State>,
    /// The player's stats for the current round.
    pub match_stats: Option<MatchStats>,
    /// The player's observer slot number.
    pub observer_slot: Option<usize>,
}

/// A player's current activity.
#[allow(missing_docs)]
#[derive(Debug, Clone, Copy, PartialEq, Eq, PartialOrd, Ord, Hash, Structural)]
pub enum Activity {
    Menu,
    Playing,
    TextInput,
}

/// Information about a weapon the player holds.
#[allow(missing_docs)]
#[derive(Debug, Clone, PartialEq, Eq, PartialOrd, Ord, Hash)]
pub struct Weapon {
    pub name: String,
    pub skin: String,
    pub weapon_type: WeaponType,
    pub state: WeaponState,
    pub ammo_clip: Option<usize>,
    pub max_ammo: Option<usize>,
    pub ammo_reserve: Option<usize>,
}

/// The different types of weapons.
#[allow(missing_docs)]
#[derive(Debug, Clone, Copy, PartialEq, Eq, PartialOrd, Ord, Hash, Structural)]
pub enum WeaponType {
    Knife,
    Pistol,
    SMG,
    MachineGun,
    Rifle,
    SniperRifle,
    Shotgun,
    StackableItem,
    Grenage,
    C4,
}

/// The states a weapon can be in.
#[allow(missing_docs)]
#[derive(Debug, Clone, Copy, PartialEq, Eq, PartialOrd, Ord, Hash, Structural)]
pub enum WeaponState {
    Holstered,
    Active,
    Reloading,
}

/// The state of the current player.
#[allow(missing_docs)]
#[derive(Debug, Clone, Copy, PartialEq, Eq, PartialOrd, Ord, Hash)]
pub struct State {
    pub health: u8,
    pub armor: u8,
    pub helmet: bool,
    pub flash_duration: usize,
    pub smoke_duration: usize,
    pub burn_duration: usize,
    pub money: usize,
    pub kills: isize,
    pub headshots: usize,
    pub equipment_value: usize,
    pub round_damage: Option<usize>,
    pub defuse_kit: Option<bool>,
}

/// The player's stats for the current match.
#[allow(missing_docs)]
#[derive(Debug, Clone, Copy, PartialEq, Eq, PartialOrd, Ord, Hash, Structural)]
pub struct MatchStats {
    pub kills: isize,
    pub assists: usize,
    pub deaths: usize,
    pub mvps: usize,
    pub score: usize,
}

} // verus!
