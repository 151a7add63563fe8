use rpg_battle::player::{LEVEL_UP_EXP, Player};
use rpg_battle::stats::{checked_resolve_damage, resolve_damage, BattleStats};

fn stats(health: isize, max_health: isize, attack: isize, defense: isize) -> BattleStats {
    BattleStats { health, max_health, attack, defense }
}

#[test]
fn damage_takes_defense_off_first() {
    assert_eq!(resolve_damage(3, 2, 1), 2);
    assert_eq!(resolve_damage(2, 2, 1), 1);
    assert_eq!(resolve_damage(1, 2, 1), 0);
    assert_eq!(resolve_damage(10, 3, 1), 8);
}

#[test]
fn damage_clamps_health_at_zero() {
    assert_eq!(resolve_damage(1, 5, 1), 0);
    assert_eq!(resolve_damage(0, 5, 1), 0);
    assert_eq!(resolve_damage(3, 100, 0), 0);
}

#[test]
fn equal_damage_and_defense_leave_health() {
    assert_eq!(resolve_damage(5, 2, 2), 5);
    assert_eq!(resolve_damage(0, 0, 0), 0);
}

#[test]
fn defense_above_damage_raises_health() {
    // The clamp is on the resulting health, not on the damage of the hit.
    assert_eq!(resolve_damage(3, 1, 3), 5);
    assert_eq!(resolve_damage(0, 0, 4), 4);
}

#[test]
fn checked_damage_agrees_where_it_fits() {
    for health in 0..6isize {
        for damage in 0..6isize {
            for defense in 0..6isize {
                let expected = std::cmp::max(health - (damage - defense), 0);
                assert_eq!(resolve_damage(health, damage, defense), expected);
                assert_eq!(checked_resolve_damage(health, damage, defense), Some(expected));
            }
        }
    }
}

#[test]
fn checked_damage_is_none_beyond_the_range() {
    assert_eq!(checked_resolve_damage(isize::MAX, 0, 1), None);
    assert_eq!(checked_resolve_damage(isize::MAX, 0, 0), Some(isize::MAX));
    assert_eq!(checked_resolve_damage(isize::MAX, 1, 1), Some(isize::MAX));
    assert_eq!(checked_resolve_damage(isize::MAX - 1, 0, 1), Some(isize::MAX));
    assert_eq!(checked_resolve_damage(isize::MIN, isize::MAX, 0), Some(0));
    assert_eq!(checked_resolve_damage(0, isize::MIN, isize::MAX), None);
}

#[test]
fn take_hit_changes_health_only() {
    let mut target = stats(3, 3, 2, 1);
    target.take_hit(2);
    assert_eq!(target, stats(2, 3, 2, 1));
    target.take_hit(2);
    target.take_hit(2);
    assert_eq!(target, stats(0, 3, 2, 1));
    assert!(target.is_down());
    target.take_hit(2);
    assert_eq!(target, stats(0, 3, 2, 1));
}

#[test]
fn new_stats_start_at_full_health() {
    let fresh = BattleStats::new(10, 2, 1);
    assert_eq!(fresh, stats(10, 10, 2, 1));
    assert!(fresh.is_wf());
    assert!(!fresh.is_down());
    assert!(!stats(-1, 3, 0, 0).is_wf());
    assert!(!stats(1, 3, 0, -1).is_wf());
}

#[test]
fn new_player_is_active_without_experience() {
    let player = Player::new();
    assert!(player.active);
    assert!(!player.just_moved);
    assert_eq!(player.exp, 0);
}

#[test]
fn experience_below_threshold_accumulates() {
    let mut player = Player::new();
    let mut own = stats(10, 10, 2, 1);
    assert!(!player.give_exp(10, &mut own));
    assert_eq!(player.exp, 10);
    assert!(!player.give_exp(30, &mut own));
    assert_eq!(player.exp, 40);
    assert_eq!(own, stats(10, 10, 2, 1));
}

#[test]
fn experience_from_40_plus_15_levels_once() {
    let mut player = Player { active: true, just_moved: false, exp: 40 };
    let mut own = stats(7, 10, 2, 1);
    assert!(player.give_exp(15, &mut own));
    assert_eq!(player.exp, 5);
    assert_eq!(own, stats(9, 12, 3, 2));
}

#[test]
fn experience_reaching_threshold_exactly_levels() {
    let mut player = Player { active: true, just_moved: false, exp: 40 };
    let mut own = stats(10, 10, 2, 1);
    assert!(player.give_exp(10, &mut own));
    assert_eq!(player.exp, 0);
    assert_eq!(own, stats(12, 12, 3, 2));
    assert_eq!(LEVEL_UP_EXP, 50);
}

#[test]
fn large_grant_levels_only_once() {
    let mut player = Player { active: true, just_moved: false, exp: 20 };
    let mut own = stats(10, 10, 2, 1);
    assert!(player.give_exp(130, &mut own));
    assert_eq!(player.exp, 100);
    assert_eq!(own, stats(12, 12, 3, 2));
    // What is left still reaches the threshold: the next grant levels again.
    assert!(player.give_exp(0, &mut own));
    assert_eq!(player.exp, 50);
    assert_eq!(own, stats(14, 14, 4, 3));
}

#[test]
fn grant_keeps_control_flags() {
    let mut player = Player { active: false, just_moved: true, exp: 49 };
    let mut own = stats(1, 1, 0, 0);
    assert!(player.give_exp(1, &mut own));
    assert!(!player.active);
    assert!(player.just_moved);
}

#[test]
fn can_give_exp_sees_the_limits() {
    let player = Player { active: true, just_moved: false, exp: usize::MAX - 5 };
    let own = stats(10, 10, 2, 1);
    assert!(player.can_give_exp(5, &own));
    assert!(!player.can_give_exp(6, &own));
    let low = Player { active: true, just_moved: false, exp: 0 };
    let high = stats(isize::MAX - 1, 10, 2, 1);
    assert!(low.can_give_exp(49, &high));
    assert!(!low.can_give_exp(50, &high));
    assert!(low.can_give_exp(50, &stats(isize::MAX - 2, isize::MAX - 2, isize::MAX - 1, isize::MAX - 1)));
    assert!(!stats(0, 0, isize::MAX, 0).can_level_up());
    assert!(!stats(0, 0, 0, isize::MAX).can_level_up());
    assert!(!stats(0, isize::MAX - 1, 0, 0).can_level_up());
}

#[test]
fn activate_returns_control() {
    let mut player = Player { active: false, just_moved: false, exp: 7 };
    player.activate();
    assert_eq!(player, Player { active: true, just_moved: false, exp: 7 });
}
