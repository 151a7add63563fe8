//! The player's progression: experience and the level-up it buys.

use vstd::prelude::*;
use crate::stats::BattleStats;

verus! {

/// Experience at which a level is gained, and which a level costs.
pub const LEVEL_UP_EXP: usize = 50;

/// Health and maximum health gained with a level.
pub const LEVEL_UP_HEALTH: isize = 2;

/// Attack gained with a level.
pub const LEVEL_UP_ATTACK: isize = 1;

/// Defense gained with a level.
pub const LEVEL_UP_DEFENSE: isize = 1;

/// The player outside of their combat attributes.
#[derive(Clone, Copy, Debug, PartialEq, Eq, Structural)]
pub struct Player {
    /// Whether the player answers to movement input.
    pub active: bool,
    /// Whether the last movement step changed the position.
    pub just_moved: bool,
    /// Experience accumulated towards the next level.
    pub exp: usize,
}

impl BattleStats {
    /// The stats one level higher.
    pub open spec fn leveled_up(self) -> BattleStats {
        BattleStats {
            health: (self.health + LEVEL_UP_HEALTH) as isize,
            max_health: (self.max_health + LEVEL_UP_HEALTH) as isize,
            attack: (self.attack + LEVEL_UP_ATTACK) as isize,
            defense: (self.defense + LEVEL_UP_DEFENSE) as isize,
        }
    }

    /// Whether the stats one level higher are representable.
    pub open spec fn level_up_fits(self) -> bool {
        &&& self.health + LEVEL_UP_HEALTH <= isize::MAX
        &&& self.max_health + LEVEL_UP_HEALTH <= isize::MAX
        &&& self.attack + LEVEL_UP_ATTACK <= isize::MAX
        &&& self.defense + LEVEL_UP_DEFENSE <= isize::MAX
    }

    /// Whether [`level_up_fits`](BattleStats::level_up_fits) holds.
    pub fn can_level_up(&self) -> (fits: bool)
        ensures
            fits == self.level_up_fits(),
    {
        self.health <= isize::MAX - LEVEL_UP_HEALTH && self.max_health <= isize::MAX
            - LEVEL_UP_HEALTH && self.attack <= isize::MAX - LEVEL_UP_ATTACK && self.defense
            <= isize::MAX - LEVEL_UP_DEFENSE
    }
}

impl Player {
    /// Whether a grant of `exp` reaches the level threshold.
    pub open spec fn levels_with(self, exp: int) -> bool {
        self.exp + exp >= LEVEL_UP_EXP
    }

    /// Experience held after a grant of `exp`: the threshold is taken off
    /// once where it is reached, however far the grant goes beyond it.
    pub open spec fn exp_after(self, exp: int) -> int {
        if self.levels_with(exp) {
            self.exp + exp - LEVEL_UP_EXP
        } else {
            self.exp + exp
        }
    }

    /// The player after a grant of `exp`.
    pub open spec fn granted(self, exp: int) -> Player {
        Player { exp: self.exp_after(exp) as usize, ..self }
    }

    /// The stats after a grant of `exp` to this player.
    pub open spec fn stats_granted(self, exp: int, stats: BattleStats) -> BattleStats {
        if self.levels_with(exp) {
            stats.leveled_up()
        } else {
            stats
        }
    }

    /// Whether every number a grant of `exp` produces is representable.
    pub open spec fn grant_fits(self, exp: int, stats: BattleStats) -> bool {
        &&& self.exp + exp <= usize::MAX
        &&& self.levels_with(exp) ==> stats.level_up_fits()
    }

    /// A player at the start of the game: active, at rest, without experience.
    pub fn new() -> (player: Player)
        ensures
            player == (Player { active: true, just_moved: false, exp: 0 }),
    {
        Player { active: true, just_moved: false, exp: 0 }
    }

    /// Whether [`grant_fits`](Player::grant_fits) holds.
    pub fn can_give_exp(&self, exp: usize, stats: &BattleStats) -> (fits: bool)
        ensures
            fits == self.grant_fits(exp as int, *stats),
    {
        if exp > usize::MAX - self.exp {
            false
        } else if self.exp + exp >= LEVEL_UP_EXP {
            stats.can_level_up()
        } else {
            true
        }
    }

    /// Adds `exp` to the player's experience. Where the sum reaches the
    /// threshold, the threshold is taken off once, the stats rise by one
    /// level, and the result is `true`.
    pub fn give_exp(&mut self, exp: usize, stats: &mut BattleStats) -> (leveled: bool)
        requires
            old(self).grant_fits(exp as int, *old(stats)),
        ensures
            leveled == old(self).levels_with(exp as int),
            *final(self) == old(self).granted(exp as int),
            *final(stats) == old(self).stats_granted(exp as int, *old(stats)),
            final(self).exp == old(self).exp_after(exp as int),
    {
        self.exp += exp;
        if self.exp >= LEVEL_UP_EXP {
            stats.health += LEVEL_UP_HEALTH;
            stats.max_health += LEVEL_UP_HEALTH;
            stats.attack += LEVEL_UP_ATTACK;
            stats.defense += LEVEL_UP_DEFENSE;
            self.exp -= LEVEL_UP_EXP;
            return true;
        }
        false
    }

    /// Hands movement control back to the player, as on return to the overworld.
    pub fn activate(&mut self)
        ensures
            *final(self) == (Player { active: true, ..*old(self) }),
    {
        self.active = true;
    }
}

/// A level keeps well-formed stats well-formed and keeps the health within
/// its maximum; a grant below the threshold changes no stat.
pub proof fn lemma_grant_keeps_stats(player: Player, exp: int, stats: BattleStats)
    requires
        0 <= exp,
        stats.wf(),
        player.grant_fits(exp, stats),
    ensures
        player.stats_granted(exp, stats).wf(),
        stats.in_range() ==> player.stats_granted(exp, stats).in_range(),
        !player.levels_with(exp) ==> player.stats_granted(exp, stats) == stats,
        player.levels_with(exp) ==> player.stats_granted(exp, stats).attack == stats.attack + 1,
{
}

/// Experience only grows, but for the one threshold a level costs: a grant
/// never applies the level twice, even where what is left still reaches
/// the threshold.
pub proof fn lemma_exp_after(player: Player, exp: int)
    requires
        0 <= exp,
    ensures
        0 <= player.exp_after(exp),
        player.exp_after(exp) == player.exp + exp || player.exp_after(exp) == player.exp + exp
            - LEVEL_UP_EXP,
        !player.levels_with(exp) ==> player.exp_after(exp) >= player.exp,
        player.exp_after(exp) >= player.exp + exp - LEVEL_UP_EXP,
{
}

} // verus!
