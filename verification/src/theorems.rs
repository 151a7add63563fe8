//! What holds of every battle: statements over the transition functions
//! of the battle, proved once for all inputs.

use vstd::prelude::*;
use crate::battle::{BattleInput, BattleView, Hit, RewardGrant, TickReport};
use crate::fight::FightEvent;
use crate::menu::{step_of, BattleMenuOption};
use crate::state::{Actor, BattleState, GameState};
use crate::stats::{resolve, BattleStats};

verus! {

/// On the player's turn, confirming with Fight selected enters
/// `PlayerAttack` and queues exactly one attack more, on the enemy, with
/// the player's attack as its damage. Nothing else is touched but the
/// effect clock, which starts over.
pub proof fn lemma_confirmed_fight(battle: BattleView, input: BattleInput)
    requires
        battle.state == BattleState::PlayerTurn,
        input.confirm,
        !input.cancel,
        battle.menu.selected.shifted(step_of(input.left, input.right)) == BattleMenuOption::Fight,
    ensures
        battle.after_input(input).state == BattleState::PlayerAttack,
        battle.after_input(input).intents == battle.intents.push(
            FightEvent::player_attack(battle.player_stats.attack),
        ),
        battle.after_input(input).intents.len() == battle.intents.len() + 1,
        battle.after_input(input).intents.last().target == Actor::Enemy,
        battle.after_input(input).player_stats == battle.player_stats,
        battle.after_input(input).enemy_stats == battle.enemy_stats,
        battle.after_input(input).effects == battle.effects.rewound(),
        battle.after_input(input).report == battle.report,
{
}

/// On the player's turn, confirming with Run selected exits and asks for
/// the overworld; nothing is queued.
pub proof fn lemma_confirmed_run(battle: BattleView, input: BattleInput)
    requires
        battle.state == BattleState::PlayerTurn,
        input.confirm,
        battle.menu.selected.shifted(step_of(input.left, input.right)) == BattleMenuOption::Run,
    ensures
        battle.after_input(input).state == BattleState::Exiting,
        battle.after_input(input).intents == battle.intents,
        battle.after_input(input).report.mode_request == Some(GameState::Overworld),
{
}

/// Outside the player's turn the menu does not move, and without cancel
/// the key presses change nothing at all.
pub proof fn lemma_menu_only_on_player_turn(battle: BattleView, input: BattleInput)
    requires
        battle.state != BattleState::PlayerTurn,
    ensures
        battle.after_input(input).menu == battle.menu,
        !input.cancel ==> battle.after_input(input) == battle,
{
}

/// Cancel leaves every battle that is not exiting already, asks for the
/// overworld, and grants nothing.
pub proof fn lemma_cancel_exits(battle: BattleView, input: BattleInput)
    requires
        input.cancel,
        battle.state != BattleState::Exiting,
    ensures
        battle.after_input(input).state == BattleState::Exiting,
        battle.after_input(input).report.mode_request == Some(GameState::Overworld),
        battle.after_input(input).report.reward == battle.report.reward,
        battle.after_input(input).player == battle.player,
        battle.after_input(input).player_stats == battle.player_stats,
{
}

/// Whenever an attack is queued, in whatever state, the resolver applies
/// the damage formula to the health of the target of the oldest one and
/// changes nothing else of either actor: the target keeps its maximum,
/// attack and defense, the other actor keeps all its stats, and the
/// player's experience and the reward in the report stay as they were. The
/// hit is reported and the queue is left empty, so that no younger attack
/// is applied.
pub proof fn lemma_resolution_applies_formula(battle: BattleView)
    requires
        battle.pending(),
        battle.resolution_fits(),
    ensures
        battle.after_resolution().stats_of(battle.intents[0].target).health == resolve(
            battle.stats_of(battle.intents[0].target).health as int,
            battle.intents[0].damage_amount as int,
            battle.stats_of(battle.intents[0].target).defense as int,
        ),
        battle.after_resolution().stats_of(battle.intents[0].target).max_health == battle.stats_of(
            battle.intents[0].target,
        ).max_health,
        battle.after_resolution().stats_of(battle.intents[0].target).attack == battle.stats_of(
            battle.intents[0].target,
        ).attack,
        battle.after_resolution().stats_of(battle.intents[0].target).defense == battle.stats_of(
            battle.intents[0].target,
        ).defense,
        forall|other: Actor|
            other != battle.intents[0].target ==> battle.after_resolution().stats_of(other)
                == battle.stats_of(other),
        battle.after_resolution().player == battle.player,
        battle.after_resolution().report.reward == battle.report.reward,
        battle.after_resolution().report.hit == Some(
            Hit {
                target: battle.intents[0].target,
                health: battle.after_resolution().stats_of(battle.intents[0].target).health,
            },
        ),
        battle.after_resolution().intents.len() == 0,
        battle.after_resolution().state == battle.state_after_hit(),
{
}

/// What the resolver does depends on the oldest queued attack alone: two
/// battles that differ only in the attacks queued behind it come out the
/// same.
pub proof fn lemma_oldest_attack_alone(battle: BattleView, others: Seq<FightEvent>)
    requires
        battle.pending(),
    ensures
        (BattleView { intents: seq![battle.intents[0]] + others, ..battle }).after_resolution()
            == battle.after_resolution(),
{
    let other = BattleView { intents: seq![battle.intents[0]] + others, ..battle };
    assert(other.intents[0] == battle.intents[0]);
}

/// With nothing queued the resolver changes nothing.
pub proof fn lemma_empty_queue_resolves_nothing(battle: BattleView)
    requires
        battle.intents.len() == 0,
    ensures
        battle.after_resolution() == battle,
{
}

/// With the fight over, in `Reward` or `Exiting`, the resolver leaves the
/// state as it is and asks for nothing, whatever it resolves.
pub proof fn lemma_resolution_keeps_finished_state(battle: BattleView)
    requires
        battle.state.spec_is_over(),
    ensures
        battle.after_resolution().state == battle.state,
        battle.after_resolution().report.mode_request == battle.report.mode_request,
        battle.after_resolution().report.reward == battle.report.reward,
        battle.after_resolution().effects == battle.effects,
{
}

/// While the fight is on, an attack that leaves its target standing is
/// followed by the state it names; an attack state that the battle was
/// not in starts its effect, and nothing else changes with the state.
pub proof fn lemma_standing_target_goes_on(battle: BattleView)
    requires
        battle.pending(),
        !battle.state.spec_is_over(),
        battle.resolution_fits(),
        resolve(
            battle.stats_of(battle.intents[0].target).health as int,
            battle.intents[0].damage_amount as int,
            battle.stats_of(battle.intents[0].target).defense as int,
        ) > 0,
    ensures
        battle.after_resolution().state == battle.intents[0].next_state,
        battle.after_resolution() == battle.struck().entered(battle.intents[0].next_state),
{
}

/// While the fight is on, an attack that takes the enemy's last health
/// ends in `Reward`, whatever state it names, and one that takes the
/// player's last health ends in `Exiting`, with the overworld asked for.
/// Neither ends in the enemy's turn, and neither grants anything.
pub proof fn lemma_felled_ends_fight(battle: BattleView)
    requires
        battle.pending(),
        !battle.state.spec_is_over(),
        resolve(
            battle.stats_of(battle.intents[0].target).health as int,
            battle.intents[0].damage_amount as int,
            battle.stats_of(battle.intents[0].target).defense as int,
        ) == 0,
    ensures
        battle.intents[0].target == Actor::Enemy ==> battle.after_resolution().state
            == BattleState::Reward,
        battle.intents[0].target == Actor::Player ==> {
            &&& battle.after_resolution().state == BattleState::Exiting
            &&& battle.after_resolution().report.mode_request == Some(GameState::Overworld)
        },
        !(battle.after_resolution().state is EnemyTurn),
        battle.after_resolution().stats_of(battle.intents[0].target).health == 0,
        battle.after_resolution().report.reward == battle.report.reward,
        battle.after_resolution().player == battle.player,
{
}

/// The reward phase grants exactly where the tick has taken the battle
/// into `Reward`. The grant is the experience of the enemy's kind, with
/// the level it may buy; it leaves the state, the enemy, the queue and the
/// rest of the report alone.
pub proof fn lemma_reward_is_its_own_phase(battle: BattleView, came_from: BattleState)
    ensures
        !battle.reward_due(came_from) ==> battle.after_reward(came_from) == battle,
        battle.reward_due(came_from) ==> {
            &&& battle.after_reward(came_from).player == battle.player.granted(
                battle.bounty() as int,
            )
            &&& battle.after_reward(came_from).player_stats == battle.player.stats_granted(
                battle.bounty() as int,
                battle.player_stats,
            )
            &&& battle.after_reward(came_from).report.reward == Some(
                RewardGrant {
                    exp: battle.bounty(),
                    level_up: battle.player.levels_with(battle.bounty() as int),
                },
            )
        },
        battle.after_reward(came_from).state == battle.state,
        battle.after_reward(came_from).enemy_stats == battle.enemy_stats,
        battle.after_reward(came_from).intents == battle.intents,
        battle.after_reward(came_from).report.hit == battle.report.hit,
        battle.after_reward(came_from).report.mode_request == battle.report.mode_request,
{
}

/// When the effect of the player's attack completes on an enemy without
/// health, the battle is in `Reward`; while it still plays, the battle
/// stays in `PlayerAttack`. Either way it is not the enemy's turn, and the
/// effect phase changes no stat and grants nothing.
pub proof fn lemma_no_turn_for_felled_enemy(battle: BattleView, delta: u64)
    requires
        battle.state == BattleState::PlayerAttack,
        battle.enemy_stats.health == 0,
    ensures
        battle.effects.completes(delta) ==> battle.after_effects(delta).state
            == BattleState::Reward,
        !battle.effects.completes(delta) ==> battle.after_effects(delta).state
            == BattleState::PlayerAttack,
        !(battle.after_effects(delta).state is EnemyTurn),
        battle.after_effects(delta).player_stats == battle.player_stats,
        battle.after_effects(delta).enemy_stats == battle.enemy_stats,
        battle.after_effects(delta).player == battle.player,
        battle.after_effects(delta).report == battle.report,
{
}

/// A whole tick that starts in `PlayerAttack` with nothing queued and the
/// enemy without health never ends in the enemy's turn: it ends in
/// `Reward` once the effect completes, unless the player cancels.
pub proof fn lemma_tick_skips_felled_enemy(battle: BattleView, input: BattleInput, delta: u64)
    requires
        battle.state == BattleState::PlayerAttack,
        battle.enemy_stats.health == 0,
        battle.intents.len() == 0,
    ensures
        !(battle.after_tick(input, delta).state is EnemyTurn),
        (!input.cancel && battle.effects.completes(delta)) ==> battle.after_tick(
            input,
            delta,
        ).state == BattleState::Reward,
        input.cancel ==> battle.after_tick(input, delta).state == BattleState::Exiting,
{
}

/// The tick in which the player confirms Fight against an enemy that the
/// hit fells ends in `Reward`, with the hit and the reward reported.
pub proof fn lemma_winning_hit(battle: BattleView, input: BattleInput, delta: u64)
    requires
        battle.state == BattleState::PlayerTurn,
        battle.intents.len() == 0,
        input.confirm,
        !input.cancel,
        battle.menu.selected.shifted(step_of(input.left, input.right)) == BattleMenuOption::Fight,
        resolve(
            battle.enemy_stats.health as int,
            battle.player_stats.attack as int,
            battle.enemy_stats.defense as int,
        ) == 0,
    ensures
        battle.after_tick(input, delta).state == BattleState::Reward,
        battle.after_tick(input, delta).enemy_stats.health == 0,
        battle.after_tick(input, delta).report.reward is Some,
        battle.after_tick(input, delta).report.hit is Some,
{
}

/// `Exiting` is terminal: no phase and no tick leaves it, and none grants
/// or asks for anything once it is reached. An attack that is still queued
/// is applied and reported; with nothing queued, nothing changes at all.
pub proof fn lemma_exiting_is_terminal(battle: BattleView, input: BattleInput, delta: u64)
    requires
        battle.state == BattleState::Exiting,
    ensures
        battle.after_input(input) == battle,
        battle.after_accept(input) == battle,
        battle.after_enemy_turn() == battle,
        battle.after_resolution().state == BattleState::Exiting,
        battle.after_effects(delta) == battle,
        battle.after_tick(input, delta).state == BattleState::Exiting,
        battle.after_tick(input, delta).report.mode_request is None,
        battle.after_tick(input, delta).report.reward is None,
        battle.after_tick(input, delta).player == battle.player,
        battle.intents.len() == 0 ==> battle.after_tick(input, delta) == (BattleView {
            report: TickReport::spec_none(),
            ..battle
        }),
{
}

/// `Reward` is left only for `Exiting`, on confirm or cancel, and the
/// reward is not granted again while the battle waits there.
pub proof fn lemma_reward_waits_for_confirm(battle: BattleView, input: BattleInput, delta: u64)
    requires
        battle.state == BattleState::Reward,
    ensures
        (input.confirm || input.cancel) ==> battle.after_tick(input, delta).state
            == BattleState::Exiting,
        !(input.confirm || input.cancel) ==> battle.after_tick(input, delta).state
            == BattleState::Reward,
        (input.confirm || input.cancel) ==> battle.after_tick(input, delta).report.mode_request
            == Some(GameState::Overworld),
        battle.after_tick(input, delta).report.reward is None,
        battle.after_tick(input, delta).player == battle.player,
        battle.intents.len() == 0 ==> {
            &&& battle.after_tick(input, delta).player_stats == battle.player_stats
            &&& battle.after_tick(input, delta).enemy_stats == battle.enemy_stats
        },
{
}

/// The enemy about to act queues exactly one attack on the player, with
/// its own attack as the damage, and then waits; an enemy that waits
/// queues nothing more.
pub proof fn lemma_enemy_attacks_once(battle: BattleView)
    ensures
        battle.state == BattleState::EnemyTurn(false) ==> {
            &&& battle.after_enemy_turn().state == BattleState::EnemyTurn(true)
            &&& battle.after_enemy_turn().intents == battle.intents.push(
                FightEvent::enemy_attack(battle.enemy_stats.attack),
            )
        },
        battle.state != BattleState::EnemyTurn(false) ==> battle.after_enemy_turn() == battle,
        battle.after_enemy_turn().after_enemy_turn() == battle.after_enemy_turn(),
{
}

/// Every tick leaves the queue empty: at most one attack is resolved and
/// the others are dropped.
pub proof fn lemma_tick_empties_queue(battle: BattleView, input: BattleInput, delta: u64)
    ensures
        battle.after_tick(input, delta).intents.len() == 0,
        battle.before_resolution(input).after_resolution().intents.len() == 0,
{
}

/// Outside the attack states the enemy is drawn and the camera is at
/// rest; a completed effect leaves the attack states.
pub proof fn lemma_effects_at_rest(battle: BattleView, delta: u64)
    ensures
        !battle.state.spec_is_attack() ==> battle.enemy_visible() && battle.shake_progress()
            is None,
        (battle.state.spec_is_attack() && battle.effects.completes(delta)) ==> {
            &&& !battle.after_effects(delta).state.spec_is_attack()
            &&& battle.after_effects(delta).enemy_visible()
            &&& battle.after_effects(delta).shake_progress() is None
            &&& battle.after_effects(delta).effects.elapsed == 0
        },
        (battle.state.spec_is_attack() && !battle.effects.completes(delta)) ==> {
            &&& battle.after_effects(delta).state == battle.state
            &&& battle.after_effects(delta).effects.elapsed == battle.effects.elapsed + delta
        },
{
}

/// A hit keeps well-formed stats well-formed, and keeps the health within
/// its maximum where the damage is not below the defense.
pub proof fn lemma_hit_keeps_stats(stats: BattleStats, damage: int)
    requires
        stats.wf(),
        stats.hit_fits(damage),
    ensures
        stats.hit(damage).wf(),
        stats.hit(damage).health == resolve(stats.health as int, damage, stats.defense as int),
        (stats.in_range() && damage >= stats.defense) ==> stats.hit(damage).in_range(),
        damage >= stats.defense ==> stats.hit(damage).health <= stats.health,
{
}

/// A tick keeps a well-formed battle well-formed.
pub proof fn lemma_tick_keeps_wf(battle: BattleView, input: BattleInput, delta: u64)
    requires
        battle.wf(),
        battle.tick_fits(input, delta),
    ensures
        battle.after_tick(input, delta).wf(),
{
}

/// The report of a tick says what happened in it, no more and no less: a
/// reward exactly when the tick entered `Reward`, a request for the
/// overworld exactly when it entered `Exiting`, a hit exactly when an
/// attack was there to be resolved.
pub proof fn lemma_report_tells_events(battle: BattleView, input: BattleInput, delta: u64)
    ensures
        battle.after_tick(input, delta).report.reward is Some <==> (battle.state
            != BattleState::Reward && battle.after_tick(input, delta).state == BattleState::Reward),
        battle.after_tick(input, delta).report.mode_request is Some <==> (battle.state
            != BattleState::Exiting && battle.after_tick(input, delta).state
            == BattleState::Exiting),
        battle.after_tick(input, delta).report.mode_request is Some ==> battle.after_tick(
            input,
            delta,
        ).report.mode_request == Some(GameState::Overworld),
        battle.after_tick(input, delta).report.hit is Some <==> battle.before_resolution(
            input,
        ).pending(),
{
}

/// The states a tick can lead to from each state, for a battle with
/// nothing queued between ticks.
pub open spec fn may_follow(from: BattleState, to: BattleState) -> bool {
    match from {
        BattleState::PlayerTurn => to == BattleState::PlayerTurn || to == BattleState::PlayerAttack
            || to == BattleState::EnemyTurn(false) || to == BattleState::Reward || to
            == BattleState::Exiting,
        BattleState::PlayerAttack => to == BattleState::PlayerAttack || to
            == BattleState::EnemyTurn(false) || to == BattleState::Reward || to
            == BattleState::Exiting,
        BattleState::EnemyTurn(false) => to == BattleState::EnemyAttack || to
            == BattleState::PlayerTurn || to == BattleState::Exiting,
        BattleState::EnemyTurn(true) => to == BattleState::EnemyTurn(true) || to
            == BattleState::Exiting,
        BattleState::EnemyAttack => to == BattleState::EnemyAttack || to == BattleState::PlayerTurn
            || to == BattleState::Exiting,
        BattleState::Reward => to == BattleState::Reward || to == BattleState::Exiting,
        BattleState::Exiting => to == BattleState::Exiting,
    }
}

/// A tick of a battle with nothing queued moves along the edges of the
/// state machine only.
pub proof fn lemma_tick_follows_edges(battle: BattleView, input: BattleInput, delta: u64)
    requires
        battle.intents.len() == 0,
    ensures
        may_follow(battle.state, battle.after_tick(input, delta).state),
{
}

/// A tick keeps both actors' health within its maximum where nothing is
/// queued and neither actor's attack is below the other's defense.
pub proof fn lemma_tick_keeps_range(battle: BattleView, input: BattleInput, delta: u64)
    requires
        battle.wf(),
        battle.in_range(),
        battle.tick_fits(input, delta),
        battle.intents.len() == 0,
        battle.player_stats.attack >= battle.enemy_stats.defense,
        battle.enemy_stats.attack >= battle.player_stats.defense,
    ensures
        battle.after_tick(input, delta).in_range(),
{
}

/// A well-formed battle with headroom fits any tick.
pub proof fn lemma_headroom_fits(battle: BattleView, input: BattleInput, delta: u64)
    requires
        battle.wf(),
        battle.headroom(),
    ensures
        battle.tick_fits(input, delta),
{
}

} // verus!
