//! The states of a battle and the modes of the game around it.

use vstd::prelude::*;

verus! {

/// Mode of the game as a whole.
#[derive(Clone, Copy, Debug, PartialEq, Eq, Hash, Structural)]
pub enum GameState {
    Overworld,
    Battle,
}

/// State of one battle encounter. Exactly one is active at a time.
///
/// `EnemyTurn(false)` is the enemy about to act, `EnemyTurn(true)` the
/// enemy having declared its attack and waiting for it to be resolved.
#[derive(Clone, Copy, Debug, PartialEq, Eq, Hash, Structural)]
pub enum BattleState {
    PlayerTurn,
    PlayerAttack,
    EnemyTurn(bool),
    EnemyAttack,
    Exiting,
    Reward,
}

/// A participant of the battle.
#[derive(Clone, Copy, Debug, PartialEq, Eq, Hash, Structural)]
pub enum Actor {
    Player,
    Enemy,
}

impl BattleState {
    /// The two states in which an attack effect plays.
    pub open spec fn spec_is_attack(self) -> bool {
        self == BattleState::PlayerAttack || self == BattleState::EnemyAttack
    }

    /// The two states in which the fight itself is over.
    pub open spec fn spec_is_over(self) -> bool {
        self == BattleState::Reward || self == BattleState::Exiting
    }

    /// Whether an attack effect plays in this state.
    #[verifier::when_used_as_spec(spec_is_attack)]
    pub fn is_attack(self) -> (attack: bool)
        ensures
            attack == self.spec_is_attack(),
    {
        match self {
            BattleState::PlayerAttack => true,
            BattleState::EnemyAttack => true,
            _ => false,
        }
    }

    /// Whether the fight is over in this state.
    #[verifier::when_used_as_spec(spec_is_over)]
    pub fn is_over(self) -> (over: bool)
        ensures
            over == self.spec_is_over(),
    {
        match self {
            BattleState::Reward => true,
            BattleState::Exiting => true,
            _ => false,
        }
    }
}

} // verus!
