//! One battle encounter: its state, the phases of a tick, and the tick.
//!
//! A tick runs its phases in a fixed order: key presses, the enemy's move,
//! the resolution of the oldest queued attack, the attack effect, and the
//! reward where the tick has taken the battle into `Reward`. Each phase is
//! a function from the battle to the battle; what the host has to act on
//! (a change of mode, a hit, a reward) is collected in the battle's report.
//!
//! Entering a state has its own small effects, the same whichever phase
//! enters it: an attack state starts its effect, `Exiting` asks for the
//! overworld. Entering `Reward` changes nothing but the state; the reward
//! is granted by the phase of its own that follows.
//!
//! `Reward` and `Exiting` are left by no attack: the resolver still
//! applies an attack that is queued there, but the state stays.
//!
//! A battle ends in one of three ways. The enemy falls: the battle enters
//! `Reward`, the reward is granted, and the battle exits on confirm. The
//! player runs or cancels: the battle exits. The player falls: the battle
//! exits as well, and nothing is granted; the report of that tick carries
//! the hit that left the player without health.

use vstd::prelude::*;
use crate::effects::AttackEffects;
use crate::enemy::{spawn_enemy, Enemy};
use crate::fight::FightEvent;
use crate::menu::{step_of, BattleMenuOption, BattleMenuSelection};
use crate::player::Player;
use crate::state::{Actor, BattleState, GameState};
use crate::stats::{checked_resolve_damage, resolve, BattleStats};

verus! {

/// The keys that went down in one tick.
#[derive(Clone, Copy, Debug, PartialEq, Eq, Structural)]
pub struct BattleInput {
    /// Previous option.
    pub left: bool,
    /// Next option.
    pub right: bool,
    /// Confirm the selection, or accept the reward.
    pub confirm: bool,
    /// Leave the battle.
    pub cancel: bool,
}

/// A resolved attack: who was hit and the health they are left with.
#[derive(Clone, Copy, Debug, PartialEq, Eq)]
pub struct Hit {
    pub target: Actor,
    pub health: isize,
}

/// The reward of a won battle.
#[derive(Clone, Copy, Debug, PartialEq, Eq)]
pub struct RewardGrant {
    /// Experience earned.
    pub exp: usize,
    /// Whether the experience bought a level.
    pub level_up: bool,
}

/// What happened in a tick that the host has to act on.
#[derive(Clone, Copy, Debug, PartialEq, Eq)]
pub struct TickReport {
    /// The mode the battle asks the host to change to.
    pub mode_request: Option<GameState>,
    /// The attack that was resolved.
    pub hit: Option<Hit>,
    /// The reward that was granted.
    pub reward: Option<RewardGrant>,
}

/// One battle encounter.
pub struct Battle {
    pub state: BattleState,
    pub player: Player,
    pub player_stats: BattleStats,
    pub enemy: Enemy,
    pub enemy_stats: BattleStats,
    pub menu: BattleMenuSelection,
    pub effects: AttackEffects,
    /// Queued attacks, oldest first.
    pub intents: Vec<FightEvent>,
    /// What the phases run since the last tick began have reported.
    pub report: TickReport,
}

/// The mathematical value of a [`Battle`].
pub struct BattleView {
    pub state: BattleState,
    pub player: Player,
    pub player_stats: BattleStats,
    pub enemy: Enemy,
    pub enemy_stats: BattleStats,
    pub menu: BattleMenuSelection,
    pub effects: AttackEffects,
    pub intents: Seq<FightEvent>,
    pub report: TickReport,
}

impl View for Battle {
    type V = BattleView;

    open spec fn view(&self) -> BattleView {
        BattleView {
            state: self.state,
            player: self.player,
            player_stats: self.player_stats,
            enemy: self.enemy,
            enemy_stats: self.enemy_stats,
            menu: self.menu,
            effects: self.effects,
            intents: self.intents@,
            report: self.report,
        }
    }
}

impl BattleInput {
    /// No key went down.
    pub fn none() -> (input: BattleInput)
        ensures
            input == (BattleInput { left: false, right: false, confirm: false, cancel: false }),
    {
        BattleInput { left: false, right: false, confirm: false, cancel: false }
    }
}

impl TickReport {
    /// The report of a tick in which nothing happened.
    pub open spec fn spec_none() -> TickReport {
        TickReport { mode_request: None, hit: None, reward: None }
    }

    /// The report of a tick in which nothing happened.
    #[verifier::when_used_as_spec(spec_none)]
    pub fn none() -> (report: TickReport)
        ensures
            report == TickReport::spec_none(),
    {
        TickReport { mode_request: None, hit: None, reward: None }
    }
}

impl BattleView {
    /// The battle as it stands when the mode is entered: the player to
    /// move, nothing queued, nothing reported, the effect clock at its start.
    pub open spec fn start(
        player: Player,
        player_stats: BattleStats,
        enemy: Enemy,
        menu: BattleMenuSelection,
        effects: AttackEffects,
    ) -> BattleView {
        BattleView {
            state: BattleState::PlayerTurn,
            player,
            player_stats,
            enemy,
            enemy_stats: enemy.enemy_type.spec_base_stats(),
            menu,
            effects: effects.rewound(),
            intents: Seq::empty(),
            report: TickReport::spec_none(),
        }
    }

    /// No attribute or queued damage is negative, and the effect clock has
    /// not run past its duration.
    pub open spec fn wf(self) -> bool {
        &&& self.player_stats.wf()
        &&& self.enemy_stats.wf()
        &&& self.effects.wf()
        &&& forall|i: int| 0 <= i < self.intents.len() ==> (#[trigger] self.intents[i]).damage_amount >= 0
    }

    /// Both actors' health is within its maximum.
    pub open spec fn in_range(self) -> bool {
        self.player_stats.in_range() && self.enemy_stats.in_range()
    }

    /// The stats of an actor.
    pub open spec fn stats_of(self, actor: Actor) -> BattleStats {
        match actor {
            Actor::Player => self.player_stats,
            Actor::Enemy => self.enemy_stats,
        }
    }

    /// The battle with an actor's stats replaced.
    pub open spec fn with_stats(self, actor: Actor, stats: BattleStats) -> BattleView {
        match actor {
            Actor::Player => BattleView { player_stats: stats, ..self },
            Actor::Enemy => BattleView { enemy_stats: stats, ..self },
        }
    }

    /// Whether the enemy is drawn: always, but in the hidden half of the
    /// flash while the player's attack lands.
    pub open spec fn enemy_visible(self) -> bool {
        !(self.state == BattleState::PlayerAttack && self.effects.spec_flash_hidden())
    }

    /// While the enemy's attack lands, the time played of the shake and its
    /// full length; in every other state the camera is at rest.
    pub open spec fn shake_progress(self) -> Option<(u64, u64)> {
        if self.state == BattleState::EnemyAttack {
            Some((self.effects.elapsed, self.effects.duration))
        } else {
            None
        }
    }

    /// The experience this battle's enemy is worth.
    pub open spec fn bounty(self) -> usize {
        self.enemy.enemy_type.spec_exp_reward()
    }

    /// Whether the numbers of the reward are representable.
    pub open spec fn reward_fits(self) -> bool {
        self.player.grant_fits(self.bounty() as int, self.player_stats)
    }

    /// The battle after the reward: the experience granted, the level
    /// applied where it was reached, the grant reported. The state, the
    /// enemy and the queue are as before.
    pub open spec fn rewarded(self) -> BattleView {
        BattleView {
            player: self.player.granted(self.bounty() as int),
            player_stats: self.player.stats_granted(self.bounty() as int, self.player_stats),
            report: TickReport {
                reward: Some(
                    RewardGrant {
                        exp: self.bounty(),
                        level_up: self.player.levels_with(self.bounty() as int),
                    },
                ),
                ..self.report
            },
            ..self
        }
    }

    /// The battle after entering `next`. Entering the state it is in
    /// changes nothing. Entering `Exiting` asks for the overworld; entering
    /// an attack state starts its effect; entering any other state changes
    /// the state alone. No entry touches a stat, the player or the queue.
    pub open spec fn entered(self, next: BattleState) -> BattleView {
        if next == self.state {
            self
        } else {
            match next {
                BattleState::Exiting => BattleView {
                    state: next,
                    report: TickReport {
                        mode_request: Some(GameState::Overworld),
                        ..self.report
                    },
                    ..self
                },
                BattleState::PlayerAttack => BattleView {
                    state: next,
                    effects: self.effects.rewound(),
                    ..self
                },
                BattleState::EnemyAttack => BattleView {
                    state: next,
                    effects: self.effects.rewound(),
                    ..self
                },
                _ => BattleView { state: next, ..self },
            }
        }
    }

    /// The battle after the key presses of a tick.
    ///
    /// Cancel leaves any battle that is not already exiting. On the
    /// player's turn the direction keys move the selection, and confirm
    /// then acts on it: Fight queues the player's attack on the enemy and
    /// enters `PlayerAttack`, Run exits.
    pub open spec fn after_input(self, input: BattleInput) -> BattleView {
        if self.state == BattleState::Exiting {
            self
        } else if input.cancel {
            self.entered(BattleState::Exiting)
        } else if self.state == BattleState::PlayerTurn {
            let chosen = self.menu.selected.shifted(step_of(input.left, input.right));
            let moved = BattleView { menu: BattleMenuSelection { selected: chosen }, ..self };
            if !input.confirm {
                moved
            } else {
                match chosen {
                    BattleMenuOption::Fight => (BattleView {
                        intents: self.intents.push(
                            FightEvent::player_attack(self.player_stats.attack),
                        ),
                        ..moved
                    }).entered(BattleState::PlayerAttack),
                    BattleMenuOption::Run => moved.entered(BattleState::Exiting),
                }
            }
        } else {
            self
        }
    }

    /// The battle after the reward screen has seen the key presses of a
    /// tick: confirm exits.
    pub open spec fn after_accept(self, input: BattleInput) -> BattleView {
        if self.state == BattleState::Reward && input.confirm {
            self.entered(BattleState::Exiting)
        } else {
            self
        }
    }

    /// The battle after the enemy's move: about to act, the enemy queues
    /// its attack on the player and waits for it to be resolved.
    pub open spec fn after_enemy_turn(self) -> BattleView {
        if self.state == BattleState::EnemyTurn(false) {
            BattleView {
                state: BattleState::EnemyTurn(true),
                intents: self.intents.push(FightEvent::enemy_attack(self.enemy_stats.attack)),
                ..self
            }
        } else {
            self
        }
    }

    /// Whether an attack is there to be resolved: one is queued.
    pub open spec fn pending(self) -> bool {
        self.intents.len() > 0
    }

    /// The battle after the oldest queued attack has hit: its target's
    /// health is reduced, the hit is reported, and the queue is empty,
    /// whatever else was in it.
    pub open spec fn struck(self) -> BattleView {
        let attack = self.intents[0];
        let stats = self.stats_of(attack.target).hit(attack.damage_amount as int);
        (BattleView {
            intents: Seq::empty(),
            report: TickReport {
                hit: Some(Hit { target: attack.target, health: stats.health }),
                ..self.report
            },
            ..self
        }).with_stats(attack.target, stats)
    }

    /// The state the battle is in once the oldest queued attack has hit.
    /// With the fight over, in `Reward` or `Exiting`, it is the state the
    /// battle was in. Otherwise it is `Reward` where the attack fells the
    /// enemy, `Exiting` where it fells the player, and the state the
    /// attack names where its target still stands.
    pub open spec fn state_after_hit(self) -> BattleState {
        let attack = self.intents[0];
        if self.state.spec_is_over() {
            self.state
        } else if self.struck().stats_of(attack.target).health == 0 {
            match attack.target {
                Actor::Enemy => BattleState::Reward,
                Actor::Player => BattleState::Exiting,
            }
        } else {
            attack.next_state
        }
    }

    /// Whether the health that the resolution computes is representable.
    pub open spec fn resolution_fits(self) -> bool {
        self.pending() ==> self.stats_of(self.intents[0].target).hit_fits(
            self.intents[0].damage_amount as int,
        )
    }

    /// The battle after the resolver has run. Where an attack is queued,
    /// the oldest has hit its target, the others are dropped, and the
    /// battle has entered the state that follows the hit. Where none is,
    /// nothing has changed.
    pub open spec fn after_resolution(self) -> BattleView {
        if self.pending() {
            self.struck().entered(self.state_after_hit())
        } else {
            self
        }
    }

    /// The state entered when the attack effect completes: after the
    /// player's attack `Reward` where the enemy has no health left and the
    /// enemy's turn otherwise; after the enemy's attack `Exiting` where the
    /// player has no health left and the player's turn otherwise.
    pub open spec fn state_after_effect(self) -> BattleState {
        if self.state == BattleState::PlayerAttack {
            if self.enemy_stats.health == 0 {
                BattleState::Reward
            } else {
                BattleState::EnemyTurn(false)
            }
        } else {
            if self.player_stats.health == 0 {
                BattleState::Exiting
            } else {
                BattleState::PlayerTurn
            }
        }
    }

    /// The battle after `delta` more time of the attack effect. Outside
    /// the attack states nothing changes. Inside, the clock advances, and
    /// on completion the battle enters the state that follows the effect.
    pub open spec fn after_effects(self, delta: u64) -> BattleView {
        if !self.state.spec_is_attack() {
            self
        } else {
            let ticked = BattleView { effects: self.effects.advanced(delta), ..self };
            if self.effects.completes(delta) {
                ticked.entered(self.state_after_effect())
            } else {
                ticked
            }
        }
    }

    /// The battle of a tick at the point where the resolver takes over.
    pub open spec fn before_resolution(self, input: BattleInput) -> BattleView {
        (BattleView { report: TickReport::spec_none(), ..self }).after_input(input).after_accept(
            input,
        ).after_enemy_turn()
    }

    /// Whether the reward is due: the battle is in `Reward` and was not
    /// when the tick began, in `came_from`.
    pub open spec fn reward_due(self, came_from: BattleState) -> bool {
        came_from != BattleState::Reward && self.state == BattleState::Reward
    }

    /// The battle after the reward phase of a tick that began in
    /// `came_from`: the reward is granted where it is due.
    pub open spec fn after_reward(self, came_from: BattleState) -> BattleView {
        if self.reward_due(came_from) {
            self.rewarded()
        } else {
            self
        }
    }

    /// The battle of a tick at the point where the reward phase takes over.
    pub open spec fn before_reward(self, input: BattleInput, delta: u64) -> BattleView {
        self.before_resolution(input).after_resolution().after_effects(delta)
    }

    /// Whether a tick produces only representable numbers: the health that
    /// its resolution computes, and the reward where one is due.
    pub open spec fn tick_fits(self, input: BattleInput, delta: u64) -> bool {
        &&& self.before_resolution(input).resolution_fits()
        &&& self.before_reward(input, delta).reward_due(self.state) ==> self.before_reward(
            input,
            delta,
        ).reward_fits()
    }

    /// The battle after one tick.
    pub open spec fn after_tick(self, input: BattleInput, delta: u64) -> BattleView {
        self.before_reward(input, delta).after_reward(self.state)
    }

    /// Room for one more hit on either actor and one more reward, whatever
    /// the tick brings.
    pub open spec fn headroom(self) -> bool {
        &&& self.enemy_stats.health + self.enemy_stats.defense <= isize::MAX
        &&& self.player_stats.health + self.player_stats.defense <= isize::MAX - 2
        &&& self.player_stats.max_health <= isize::MAX - 2
        &&& self.player_stats.attack <= isize::MAX - 1
        &&& self.player_stats.defense <= isize::MAX - 1
        &&& self.player.exp + self.bounty() <= usize::MAX
    }
}

impl Battle {
    /// The battle's value is well-formed.
    pub open spec fn wf(&self) -> bool {
        self@.wf()
    }

    /// A battle at its start, against `enemy` at the full attributes of
    /// its kind.
    pub fn new(
        player: Player,
        player_stats: BattleStats,
        enemy: Enemy,
        menu: BattleMenuSelection,
        effects: AttackEffects,
    ) -> (battle: Battle)
        ensures
            battle@ == BattleView::start(player, player_stats, enemy, menu, effects),
            player_stats.wf() ==> battle.wf(),
    {
        let mut effects = effects;
        effects.reset();
        Battle {
            state: BattleState::PlayerTurn,
            player,
            player_stats,
            enemy,
            enemy_stats: enemy.enemy_type.base_stats(),
            menu,
            effects,
            intents: Vec::new(),
            report: TickReport::none(),
        }
    }

    /// A battle at its start against a freshly drawn enemy.
    pub fn begin(
        player: Player,
        player_stats: BattleStats,
        menu: BattleMenuSelection,
        effects: AttackEffects,
    ) -> (battle: Battle)
        ensures
            battle@ == BattleView::start(player, player_stats, battle.enemy, menu, effects),
            player_stats.wf() ==> battle.wf(),
    {
        let (enemy, _) = spawn_enemy();
        Battle::new(player, player_stats, enemy, menu, effects)
    }

    /// Whether [`wf`](Battle::wf) holds.
    pub fn is_wf(&self) -> (ok: bool)
        ensures
            ok == self.wf(),
    {
        if !(self.player_stats.is_wf() && self.enemy_stats.is_wf() && self.effects.elapsed
            <= self.effects.duration) {
            return false;
        }
        let mut i: usize = 0;
        while i < self.intents.len()
            invariant
                i <= self.intents.len(),
                forall|j: int| 0 <= j < i ==> (#[trigger] self.intents@[j]).damage_amount >= 0,
            decreases self.intents.len() - i,
        {
            if self.intents[i].damage_amount < 0 {
                return false;
            }
            i += 1;
        }
        true
    }

    /// Whether the battle has [`headroom`](BattleView::headroom), which is
    /// enough for any tick to fit.
    pub fn has_headroom(&self) -> (ok: bool)
        ensures
            ok == self@.headroom(),
    {
        let max: i128 = isize::MAX as i128;
        self.enemy_stats.health as i128 + self.enemy_stats.defense as i128 <= max
            && self.player_stats.health as i128 + self.player_stats.defense as i128 <= max - 2
            && self.player_stats.max_health as i128 <= max - 2 && self.player_stats.attack as i128
            <= max - 1 && self.player_stats.defense as i128 <= max - 1 && self.player.exp
            <= usize::MAX - self.enemy.enemy_type.exp_reward()
    }

    /// Whether the enemy is drawn.
    pub fn enemy_visible(&self) -> (visible: bool)
        ensures
            visible == self@.enemy_visible(),
    {
        !(self.state == BattleState::PlayerAttack && self.effects.flash_hidden())
    }

    /// The progress of the camera shake, if the camera shakes.
    pub fn shake_progress(&self) -> (progress: Option<(u64, u64)>)
        ensures
            progress == self@.shake_progress(),
    {
        if self.state == BattleState::EnemyAttack {
            Some((self.effects.elapsed, self.effects.duration))
        } else {
            None
        }
    }

    /// Grants the reward for the enemy: its experience goes to the player,
    /// with the level it may buy, and the grant is reported. Nothing else
    /// changes. The tick runs this once, when it has taken the battle into
    /// `Reward`.
    pub fn give_reward(&mut self)
        requires
            old(self)@.reward_fits(),
        ensures
            final(self)@ == old(self)@.rewarded(),
            final(self).state == old(self).state,
            final(self).enemy_stats == old(self).enemy_stats,
            old(self).wf() ==> final(self).wf(),
    {
        let exp_reward = self.enemy.enemy_type.exp_reward();
        let mut player = self.player;
        let mut stats = self.player_stats;
        let level_up = player.give_exp(exp_reward, &mut stats);
        self.player = player;
        self.player_stats = stats;
        self.report.reward = Some(RewardGrant { exp: exp_reward, level_up });
    }

    /// Whether the reward can be granted: [`reward_fits`](BattleView::reward_fits).
    pub fn can_give_reward(&self) -> (fits: bool)
        ensures
            fits == self@.reward_fits(),
    {
        self.player.can_give_exp(self.enemy.enemy_type.exp_reward(), &self.player_stats)
    }

    /// Enters `next`.
    fn enter(&mut self, next: BattleState)
        ensures
            final(self)@ == old(self)@.entered(next),
    {
        if next == self.state {
            return ;
        }
        match next {
            BattleState::Exiting => {
                self.report.mode_request = Some(GameState::Overworld);
                self.state = next;
            },
            BattleState::PlayerAttack => {
                self.effects.reset();
                self.state = next;
            },
            BattleState::EnemyAttack => {
                self.effects.reset();
                self.state = next;
            },
            _ => {
                self.state = next;
            },
        }
    }

    /// Handles the key presses of a tick: cancel, and on the player's turn
    /// the menu. Where that changes the state, the new state is entered:
    /// `PlayerAttack` with its effect started, `Exiting` with the overworld
    /// asked for.
    pub fn battle_input(&mut self, input: BattleInput)
        ensures
            final(self)@ == old(self)@.after_input(input),
            final(self).player_stats == old(self).player_stats,
            final(self).enemy_stats == old(self).enemy_stats,
            final(self).player == old(self).player,
            old(self).wf() ==> final(self).wf(),
    {
        if self.state == BattleState::Exiting {
            return ;
        }
        if input.cancel {
            self.enter(BattleState::Exiting);
            return ;
        }
        if self.state != BattleState::PlayerTurn {
            return ;
        }
        self.menu.apply(input.left, input.right);
        if input.confirm {
            match self.menu.selected {
                BattleMenuOption::Fight => {
                    self.intents.push(
                        FightEvent {
                            target: Actor::Enemy,
                            damage_amount: self.player_stats.attack,
                            next_state: BattleState::PlayerAttack,
                        },
                    );
                    self.enter(BattleState::PlayerAttack);
                },
                BattleMenuOption::Run => {
                    self.enter(BattleState::Exiting);
                },
            }
        }
    }

    /// Lets the reward screen see the key presses of a tick: confirm
    /// enters `Exiting`, with the overworld asked for.
    pub fn handle_accepting_reward(&mut self, input: BattleInput)
        ensures
            final(self)@ == old(self)@.after_accept(input),
            old(self).wf() ==> final(self).wf(),
    {
        if self.state == BattleState::Reward && input.confirm {
            self.enter(BattleState::Exiting);
        }
    }

    /// Lets the enemy make its move.
    pub fn process_enemy_turn(&mut self)
        ensures
            final(self)@ == old(self)@.after_enemy_turn(),
            old(self).wf() ==> final(self).wf(),
    {
        if self.state == BattleState::EnemyTurn(false) {
            self.intents.push(
                FightEvent {
                    target: Actor::Player,
                    damage_amount: self.enemy_stats.attack,
                    next_state: BattleState::EnemyAttack,
                },
            );
            self.state = BattleState::EnemyTurn(true);
        }
    }

    /// Resolves the oldest queued attack and drops the others.
    ///
    /// The attack changes its target's health and nothing else of either
    /// actor, in whatever state the battle is. The hit is reported. While
    /// the fight is on, the battle then enters the state that follows the
    /// hit: `Reward` where the enemy has fallen, `Exiting`, with the
    /// overworld asked for, where the player has, and otherwise the state
    /// the attack names, with its effect started where that is an attack
    /// state the battle was not in. In `Reward` and `Exiting` the state
    /// stays. The reward itself is not granted here. With nothing queued,
    /// nothing happens.
    pub fn damage_calculation(&mut self)
        requires
            old(self)@.resolution_fits(),
        ensures
            final(self)@ == old(self)@.after_resolution(),
            final(self).intents@.len() == 0,
            final(self).player == old(self).player,
            final(self).report.reward == old(self).report.reward,
            old(self)@.pending() ==> {
                let attack = old(self).intents@[0];
                &&& final(self)@.stats_of(attack.target) == old(self)@.stats_of(attack.target).hit(
                    attack.damage_amount as int,
                )
                &&& final(self)@.stats_of(attack.target).health == resolve(
                    old(self)@.stats_of(attack.target).health as int,
                    attack.damage_amount as int,
                    old(self)@.stats_of(attack.target).defense as int,
                )
                &&& forall|other: Actor|
                    other != attack.target ==> final(self)@.stats_of(other) == old(self)@.stats_of(
                        other,
                    )
                &&& final(self).state == old(self)@.state_after_hit()
                &&& final(self).report.hit == Some(
                    Hit {
                        target: attack.target,
                        health: final(self)@.stats_of(attack.target).health,
                    },
                )
            },
            !old(self)@.pending() ==> final(self)@ == old(self)@,
            old(self).state.spec_is_over() ==> final(self).state == old(self).state,
            old(self).wf() ==> final(self).wf(),
    {
        if self.intents.len() == 0 {
            return ;
        }
        let attack = self.intents[0];
        self.intents.clear();
        let health = match attack.target {
            Actor::Player => {
                self.player_stats.take_hit(attack.damage_amount);
                self.player_stats.health
            },
            Actor::Enemy => {
                self.enemy_stats.take_hit(attack.damage_amount);
                self.enemy_stats.health
            },
        };
        self.report.hit = Some(Hit { target: attack.target, health });
        if self.state.is_over() {
            return ;
        }
        let next = if health == 0 {
            match attack.target {
                Actor::Enemy => BattleState::Reward,
                Actor::Player => BattleState::Exiting,
            }
        } else {
            attack.next_state
        };
        self.enter(next);
    }

    /// Plays `delta` more time of the attack effect.
    ///
    /// Outside the attack states nothing happens. Inside, the clock
    /// advances. Where that completes the effect, the battle enters the
    /// state that follows: after the player's attack `Reward` where the
    /// enemy has no health left and the enemy's turn otherwise; after the
    /// enemy's attack `Exiting`, with the overworld asked for, where the
    /// player has no health left and the player's turn otherwise. No stat
    /// changes, and the reward itself is not granted here.
    pub fn handle_attack_effects(&mut self, delta: u64)
        ensures
            final(self)@ == old(self)@.after_effects(delta),
            final(self).player_stats == old(self).player_stats,
            final(self).enemy_stats == old(self).enemy_stats,
            final(self).player == old(self).player,
            final(self).report.reward == old(self).report.reward,
            (old(self).state.spec_is_attack() && old(self).effects.completes(delta))
                ==> final(self).state == old(self)@.state_after_effect(),
            !(old(self).state.spec_is_attack() && old(self).effects.completes(delta))
                ==> final(self).state == old(self).state,
            old(self).wf() ==> final(self).wf(),
    {
        if !self.state.is_attack() {
            return ;
        }
        let finished = self.effects.tick(delta);
        if finished {
            let next = if self.state == BattleState::PlayerAttack {
                if self.enemy_stats.health == 0 {
                    BattleState::Reward
                } else {
                    BattleState::EnemyTurn(false)
                }
            } else {
                if self.player_stats.health == 0 {
                    BattleState::Exiting
                } else {
                    BattleState::PlayerTurn
                }
            };
            self.enter(next);
        }
    }

    /// Whether the resolver can run: [`resolution_fits`](BattleView::resolution_fits).
    pub fn can_resolve(&self) -> (fits: bool)
        ensures
            fits == self@.resolution_fits(),
    {
        if self.intents.len() == 0 {
            return true;
        }
        let attack = self.intents[0];
        let target = match attack.target {
            Actor::Player => self.player_stats,
            Actor::Enemy => self.enemy_stats,
        };
        checked_resolve_damage(target.health, attack.damage_amount, target.defense).is_some()
    }

    /// A battle of the same value.
    pub fn duplicate(&self) -> (copy: Battle)
        ensures
            copy@ == self@,
    {
        let mut intents: Vec<FightEvent> = Vec::new();
        let mut i: usize = 0;
        while i < self.intents.len()
            invariant
                i <= self.intents.len(),
                intents@ == self.intents@.take(i as int),
            decreases self.intents.len() - i,
        {
            intents.push(self.intents[i]);
            proof {
                assert(self.intents@.take(i + 1) =~= self.intents@.take(i as int).push(
                    self.intents@[i as int],
                ));
            }
            i += 1;
        }
        proof {
            assert(self.intents@.take(self.intents.len() as int) =~= self.intents@);
        }
        Battle {
            state: self.state,
            player: self.player,
            player_stats: self.player_stats,
            enemy: self.enemy,
            enemy_stats: self.enemy_stats,
            menu: self.menu,
            effects: self.effects,
            intents,
            report: self.report,
        }
    }

    /// Runs one tick where its numbers are representable, and leaves the
    /// battle as it is where they are not.
    pub fn checked_tick(&mut self, input: BattleInput, delta: u64) -> (report: Option<TickReport>)
        ensures
            report is Some <==> old(self)@.tick_fits(input, delta),
            report matches Some(told) ==> {
                &&& final(self)@ == old(self)@.after_tick(input, delta)
                &&& told == final(self)@.report
            },
            report is None ==> final(self)@ == old(self)@,
            old(self).wf() ==> final(self).wf(),
    {
        let came_from = self.state;
        let mut trial = self.duplicate();
        trial.report = TickReport::none();
        trial.battle_input(input);
        trial.handle_accepting_reward(input);
        trial.process_enemy_turn();
        if !trial.can_resolve() {
            return None;
        }
        trial.damage_calculation();
        trial.handle_attack_effects(delta);
        if came_from != BattleState::Reward && trial.state == BattleState::Reward {
            if !trial.can_give_reward() {
                return None;
            }
            trial.give_reward();
        }
        let report = trial.report;
        *self = trial;
        Some(report)
    }

    /// Runs one tick: the key presses, the enemy's move, the resolver, the
    /// attack effect, and the reward where the tick has taken the battle
    /// into `Reward`. Returns the tick's report.
    pub fn tick(&mut self, input: BattleInput, delta: u64) -> (report: TickReport)
        requires
            old(self)@.tick_fits(input, delta),
        ensures
            final(self)@ == old(self)@.after_tick(input, delta),
            report == final(self)@.report,
            old(self).wf() ==> final(self).wf(),
    {
        let came_from = self.state;
        self.report = TickReport::none();
        self.battle_input(input);
        self.handle_accepting_reward(input);
        self.process_enemy_turn();
        self.damage_calculation();
        self.handle_attack_effects(delta);
        if came_from != BattleState::Reward && self.state == BattleState::Reward {
            self.give_reward();
        }
        self.report
    }
}

} // verus!
