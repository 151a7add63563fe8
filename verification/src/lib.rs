//! Turn-based combat core of a tile-based role-playing game.
//!
//! The crate holds the rules of one battle encounter and of the overworld
//! trigger that starts it, as plain data and verified transitions: the host
//! (renderer, input, clock, audio) feeds key presses and elapsed time in and
//! reads states, health numbers and notifications out.

pub mod ascii;
pub mod battle;
pub mod display;
pub mod effects;
pub mod encounter;
pub mod enemy;
pub mod fight;
pub mod menu;
pub mod movement;
pub mod player;
pub mod state;
pub mod stats;
pub mod theorems;
pub mod tilemap;

pub use ascii::NineSliceIndices;
pub use battle::{Battle, BattleInput, Hit, RewardGrant, TickReport};
pub use effects::AttackEffects;
pub use encounter::{EncounterTracker, Position, TileGrid};
pub use enemy::{Enemy, EnemyType};
pub use fight::FightEvent;
pub use menu::{BattleMenuOption, BattleMenuSelection};
pub use player::Player;
pub use state::{Actor, BattleState, GameState};
pub use stats::BattleStats;
