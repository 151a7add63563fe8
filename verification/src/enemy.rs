//! The kinds of enemy, their fixed attributes, and the draw that picks one.

use vstd::prelude::*;
use crate::stats::BattleStats;

verus! {

/// Rolls below this bound pick a bat, the others a wraith: half of the
/// `u32` range each. A roll is below the bound exactly when the fraction
/// made of its top 24 bits is below one half.
pub const BAT_ROLL_BOUND: u32 = 0x8000_0000;

/// Kind of an enemy; fixed when the enemy appears.
#[derive(Clone, Copy, Debug, PartialEq, Eq, Structural)]
pub enum EnemyType {
    Bat,
    Wraith,
}

/// The enemy of one battle.
#[derive(Clone, Copy, Debug, PartialEq, Eq, Structural)]
pub struct Enemy {
    pub enemy_type: EnemyType,
}

impl EnemyType {
    /// The kind picked by a roll.
    pub open spec fn of_roll(roll: u32) -> EnemyType {
        if roll < BAT_ROLL_BOUND {
            EnemyType::Bat
        } else {
            EnemyType::Wraith
        }
    }

    /// The attributes an enemy of this kind starts with.
    pub open spec fn spec_base_stats(self) -> BattleStats {
        match self {
            EnemyType::Bat => BattleStats { health: 3, max_health: 3, attack: 2, defense: 1 },
            EnemyType::Wraith => BattleStats { health: 5, max_health: 5, attack: 3, defense: 2 },
        }
    }

    /// The experience that defeating an enemy of this kind is worth.
    pub open spec fn spec_exp_reward(self) -> usize {
        match self {
            EnemyType::Bat => 10,
            EnemyType::Wraith => 30,
        }
    }

    /// The kind picked by a roll.
    pub fn from_roll(roll: u32) -> (kind: EnemyType)
        ensures
            kind == EnemyType::of_roll(roll),
    {
        if roll < BAT_ROLL_BOUND {
            EnemyType::Bat
        } else {
            EnemyType::Wraith
        }
    }

    /// The attributes an enemy of this kind starts with.
    #[verifier::when_used_as_spec(spec_base_stats)]
    pub fn base_stats(self) -> (stats: BattleStats)
        ensures
            stats == self.spec_base_stats(),
            stats.wf(),
            stats.in_range(),
    {
        match self {
            EnemyType::Bat => BattleStats { health: 3, max_health: 3, attack: 2, defense: 1 },
            EnemyType::Wraith => BattleStats { health: 5, max_health: 5, attack: 3, defense: 2 },
        }
    }

    /// The experience that defeating an enemy of this kind is worth.
    #[verifier::when_used_as_spec(spec_exp_reward)]
    pub fn exp_reward(self) -> (exp: usize)
        ensures
            exp == self.spec_exp_reward(),
    {
        match self {
            EnemyType::Bat => 10,
            EnemyType::Wraith => 30,
        }
    }
}

/// Draws one `u32` with `rand::random`, which samples the thread's
/// generator. Nothing is claimed of the value drawn. The call takes no
/// argument; it fails only where the operating system cannot seed the
/// generator.
#[verifier::external_body]
fn random_roll() -> u32 {
    rand::random::<u32>()
}

/// A freshly drawn enemy with the attributes of its kind. Either kind may
/// come out; the attributes are those of the kind that did.
pub fn spawn_enemy() -> (spawned: (Enemy, BattleStats))
    ensures
        spawned.1 == spawned.0.enemy_type.spec_base_stats(),
        spawned.1.wf(),
        spawned.1.in_range(),
{
    let enemy_type = EnemyType::from_roll(random_roll());
    (Enemy { enemy_type }, enemy_type.base_stats())
}

/// The draw is fair: exactly half of all rolls pick each kind.
pub proof fn lemma_roll_halves(roll: u32)
    ensures
        EnemyType::of_roll(roll) == EnemyType::Bat <==> roll < 0x8000_0000,
        EnemyType::of_roll(roll) == EnemyType::Wraith <==> roll >= 0x8000_0000,
        BAT_ROLL_BOUND * 2 == u32::MAX + 1,
{
}

} // verus!
