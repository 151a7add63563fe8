//! The attack intent that travels from whoever attacks to the resolver.

use vstd::prelude::*;
use crate::state::{Actor, BattleState};

verus! {

/// One queued attack: who is hit, with how much raw damage, and the state
/// the battle takes up once the hit is resolved and its target still stands.
#[derive(Clone, Copy, Debug, PartialEq, Eq, Structural)]
pub struct FightEvent {
    pub target: Actor,
    pub damage_amount: isize,
    pub next_state: BattleState,
}

impl FightEvent {
    /// The intent of the player's attack on the enemy.
    pub open spec fn player_attack(attack: isize) -> FightEvent {
        FightEvent {
            target: Actor::Enemy,
            damage_amount: attack,
            next_state: BattleState::PlayerAttack,
        }
    }

    /// The intent of the enemy's attack on the player.
    pub open spec fn enemy_attack(attack: isize) -> FightEvent {
        FightEvent {
            target: Actor::Player,
            damage_amount: attack,
            next_state: BattleState::EnemyAttack,
        }
    }
}

} // verus!
