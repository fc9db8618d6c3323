//! The game-specific state types carried by an event.

use vstd::prelude::*;

use std::collections::HashMap;

verus! {

/// An event emitted by the game client.
#[derive(Debug, Clone, PartialEq, Eq)]
pub struct Event {
    /// The game instance providing the update.
    pub provider: Option<GameInfo>,
    /// Auth state.
    pub auth: HashMap<String, String>,
    /// The current player.
    ///
    /// If the game is spectating a player, that player is used.
    pub player: Option<Player>,
    /// The current map.
    ///
    /// Is `None` while in the main menu.
    pub map: Option<MapInfo>,
    /// The current round of the game.
    ///
    /// Is `None` while in the main menu.
    pub round: Option<Round>,
}

/// Information about a game instance.
#[derive(Debug, Clone, PartialEq, Eq, Hash)]
pub struct GameInfo {
    /// The name of the game.
    pub name: String,
    /// The store id of the game.
    pub app_id: u16,
    /// The version of the game.
    pub version: u32,
    /// The platform id of the player playing the game.
    pub steam_id: String,
    /// The timestamp of when this update was generated.
    pub timestamp: u64,
}

/// Information about the current player.
#[derive(Debug, Clone, PartialEq, Eq)]
pub struct Player {
    /// The player's name.
    pub name: String,
    /// The player's platform id.
    pub steam_id: String,
    /// What the player is currently doing.
    pub activity: PlayerActivity,
    /// The player's clan tag, if they have one selected.
    pub clan: Option<String>,
    /// The player's team.
    pub team: Option<Team>,
    /// The player's weapons.
    pub weapons: HashMap<String, Weapon>,
    /// The player's current game state.
    pub state: Option<PlayerState>,
    /// The player's stats for this match.
    pub match_stats: Option<MatchStats>,
    /// The player's spectator slot.
    pub observer_slot: Option<usize>,
}

/// A player's current activity.
#[derive(Debug, Clone, Copy, PartialEq, Eq, Hash, Structural)]
pub enum PlayerActivity {
    /// The main menu.
    Menu,
    /// In-game.
    Playing,
    /// Chat opened.
    TextInput,
}

/// The two teams.
#[derive(Debug, Clone, Copy, PartialEq, Eq, Hash, Structural)]
pub enum Team {
    /// Terrorists.
    T,
    /// Counter-Terrorists.
    CT,
}

/// Information about a weapon.
#[derive(Debug, Clone, PartialEq, Eq, Hash)]
pub struct Weapon {
    /// The name of the weapon.
    pub name: String,
    /// The name of the skin of the weapon.
    pub skin: String,
    /// The type of the weapon.
    pub weapon_type: WeaponType,
    /// The state of the weapon.
    pub weapon_state: WeaponState,
    /// The amount of ammo left.
    pub ammo_clip: Option<usize>,
    /// The maximum amount of ammo this weapon can hold.
    pub ammo_max: Option<usize>,
    /// The amount of ammo left in reserve.
    pub ammo_reserve: Option<usize>,
}

/// The different types of weapons.
#[allow(missing_docs)]
#[derive(Debug, Clone, Copy, PartialEq, Eq, Hash, Structural)]
pub enum WeaponType {
    Knife,
    Pistol,
    SMG,
    MachineGun,
    Rifle,
    SniperRifle,
    Shotgun,
    StackableItem,
    Grenage,
    C4,
}

/// The states a weapon can be in.
#[allow(missing_docs)]
#[derive(Debug, Clone, Copy, PartialEq, Eq, Hash, Structural)]
pub enum WeaponState {
    Holstered,
    Active,
    Reloading,
}

/// The state of a player.
#[derive(Debug, Clone, Copy, PartialEq, Eq, Hash)]
pub struct PlayerState {
    /// The player's health.
    pub health: u8,
    /// The player's armor.
    pub armor: u8,
    /// Whether the player is wearing a helmet.
    pub helmet: bool,
    /// How long the player will stay flashed for.
    pub flash_duration: usize,
    /// How long smoke will obscure the player's view for.
    pub smoke_duration: usize,
    /// How long the player will stay on fire for.
    pub burn_duration: usize,
    /// How much money the player currently has.
    pub money: usize,
    /// How many kills the player currently has.
    ///
    /// Can be negative if the player has more deaths / team kills than
    /// actual kills.
    pub kills: isize,
    /// How many headshots the player landed this game.
    pub headshots: usize,
    /// The value of the player's current equipment.
    pub equipment_value: usize,
    /// How much damage the player has dealt this round.
    pub round_damage: Option<usize>,
    /// Whether the player is holding a defuse kit.
    pub defuse_kit: Option<bool>,
}

/// Stats for the current match.
#[derive(Debug, Clone, Copy, PartialEq, Eq, Hash, Structural)]
pub struct MatchStats {
    /// How many kills the player has made this match.
    ///
    /// Can be negative if the player has more deaths / team kills than
    /// actual kills.
    pub kills: isize,
    /// How many kills the player has assisted with this match.
    pub assists: usize,
    /// How many times the player has died during this match.
    pub deaths: usize,
    /// How many times the player has been MVP this match.
    pub mvps: usize,
    /// How much score the player has achieved this match.
    pub score: usize,
}

/// Information about the current map.
#[derive(Debug, Clone, PartialEq, Eq)]
pub struct MapInfo {
    /// The name of the map.
    pub name: String,
    /// The game mode being played.
    pub mode: GameMode,
    /// The current phase of the game.
    pub phase: GamePhase,
    /// The current round being played.
    pub round: u8,
    /// The amount of current spectators.
    pub spectator_count: usize,
    /// Who won which round and how often.
    pub round_wins: HashMap<u64, String>,
    /// How many matches are required until a team wins.
    pub matches_to_win: usize,
    /// The amount of souvenir drops on this map.
    pub souveniers_total: usize,
    /// The Terrorist's current stats.
    pub t_stats: GameStats,
    /// The Counter-Terrorist's current stats.
    pub ct_stats: GameStats,
}

/// The different game modes.
#[allow(missing_docs)]
#[derive(Debug, Clone, Copy, PartialEq, Eq, Hash, Structural)]
pub enum GameMode {
    Competetive,
    Casual,
    Deathmatch,
    Training,
    Demolition,
    ArmsRace,
    Wingman,
}

/// The phases of a game.
#[allow(missing_docs)]
#[derive(Debug, Clone, Copy, PartialEq, Eq, Hash, Structural)]
pub enum GamePhase {
    Warmup,
    Live,
    Halftime,
    GameOver,
}

/// Stats about the current game.
#[derive(Debug, Clone, PartialEq, Eq, Hash)]
pub struct GameStats {
    /// Team name.
    pub name: Option<String>,
    /// The team's flag code.
    pub flag: Option<String>,
    /// The amount of won rounds.
    pub score: usize,
    /// The amount of lost rounds in a row.
    pub loss_streak: usize,
    /// The amount of timeouts remaining.
    pub timeouts: usize,
    /// The amount of wins this series.
    pub wins: usize,
}

/// Information about the current game round.
#[derive(Debug, Clone, Copy, PartialEq, Eq, Hash)]
pub struct Round {
    /// The current phase of the round.
    pub phase: RoundPhase,
    /// The state of the bomb.
    pub bomb_state: Option<BombState>,
    /// The winner of this round.
    pub winner: Option<Team>,
}

/// The phase of a round.
#[allow(missing_docs)]
#[derive(Debug, Clone, Copy, PartialEq, Eq, Hash, Structural)]
pub enum RoundPhase {
    FreezeTime,
    Live,
    Over,
}

/// The state of the bomb.
#[allow(missing_docs)]
#[derive(Debug, Clone, Copy, PartialEq, Eq, Hash, Structural)]
pub enum BombState {
    Planted,
    Defused,
    Exploded,
}

} // verus!
