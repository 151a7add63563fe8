//! Combat attributes of an actor and the damage formula.

use vstd::prelude::*;

verus! {

/// Combat attributes of one actor, player or enemy.
#[derive(Clone, Copy, Debug, PartialEq, Eq, Structural)]
pub struct BattleStats {
    pub health: isize,
    pub max_health: isize,
    pub attack: isize,
    pub defense: isize,
}

/// Health left after a hit of `damage` on a target with `defense`.
///
/// The defense is taken off the raw damage first, the difference off the
/// health, and only the resulting health is clamped at zero. A defense
/// above the damage therefore raises the health.
pub open spec fn resolve(health: int, damage: int, defense: int) -> int {
    let after = health - (damage - defense);
    if after > 0 {
        after
    } else {
        0
    }
}

impl BattleStats {
    /// No attribute is negative.
    pub open spec fn wf(&self) -> bool {
        &&& 0 <= self.health
        &&& 0 <= self.max_health
        &&& 0 <= self.attack
        &&& 0 <= self.defense
    }

    /// The health does not exceed its maximum.
    pub open spec fn in_range(&self) -> bool {
        self.health <= self.max_health
    }

    /// The stats after a hit of `damage`.
    pub open spec fn hit(self, damage: int) -> BattleStats {
        BattleStats { health: resolve(self.health as int, damage, self.defense as int) as isize, ..self }
    }

    /// Whether the health after a hit of `damage` is representable.
    pub open spec fn hit_fits(self, damage: int) -> bool {
        resolve(self.health as int, damage, self.defense as int) <= isize::MAX
    }

    /// Stats of a fresh actor at full health.
    pub fn new(max_health: isize, attack: isize, defense: isize) -> (stats: BattleStats)
        ensures
            stats == (BattleStats { health: max_health, max_health, attack, defense }),
            stats.in_range(),
            (0 <= max_health && 0 <= attack && 0 <= defense) ==> stats.wf(),
    {
        BattleStats { health: max_health, max_health, attack, defense }
    }

    /// Whether [`wf`](BattleStats::wf) holds.
    pub fn is_wf(&self) -> (ok: bool)
        ensures
            ok == self.wf(),
    {
        0 <= self.health && 0 <= self.max_health && 0 <= self.attack && 0 <= self.defense
    }

    /// Whether the actor has no health left.
    pub fn is_down(&self) -> (down: bool)
        ensures
            down == (self.health == 0),
    {
        self.health == 0
    }

    /// Applies a hit of `damage` to these stats.
    pub fn take_hit(&mut self, damage: isize)
        requires
            old(self).hit_fits(damage as int),
        ensures
            *final(self) == old(self).hit(damage as int),
            final(self).health == resolve(old(self).health as int, damage as int, old(self).defense as int),
    {
        self.health = resolve_damage(self.health, damage, self.defense);
    }
}

/// Computes [`resolve`] on machine integers.
pub fn resolve_damage(health: isize, damage: isize, defense: isize) -> (left: isize)
    requires
        resolve(health as int, damage as int, defense as int) <= isize::MAX,
    ensures
        left == resolve(health as int, damage as int, defense as int),
{
    let after: i128 = health as i128 - (damage as i128 - defense as i128);
    if after > 0 {
        after as isize
    } else {
        0
    }
}

/// [`resolve_damage`] for every input: `None` exactly when the health
/// after the hit is not representable.
pub fn checked_resolve_damage(health: isize, damage: isize, defense: isize) -> (left: Option<isize>)
    ensures
        left == (if resolve(health as int, damage as int, defense as int) <= isize::MAX {
            Some(resolve(health as int, damage as int, defense as int) as isize)
        } else {
            None
        }),
{
    let after: i128 = health as i128 - (damage as i128 - defense as i128);
    if after > isize::MAX as i128 {
        None
    } else {
        Some(resolve_damage(health, damage, defense))
    }
}

/// The damage formula clamps below at zero and never yields more health
/// than it started from unless the defense exceeds the damage; the result
/// stays within the maximum exactly when the unclamped health does.
pub proof fn lemma_resolve_bounds(health: int, max_health: int, damage: int, defense: int)
    requires
        0 <= damage,
        0 <= defense,
        0 <= health <= max_health,
    ensures
        resolve(health, damage, defense) == vstd::math::max(health - (damage - defense), 0),
        0 <= resolve(health, damage, defense),
        damage >= defense ==> resolve(health, damage, defense) <= health,
        resolve(health, damage, defense) <= max_health <==> health - (damage - defense) <= max_health,
        damage >= defense ==> 0 <= resolve(health, damage, defense) <= max_health,
{
}

} // verus!
