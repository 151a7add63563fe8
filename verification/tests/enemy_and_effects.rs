use rpg_battle::effects::{AttackEffects, ATTACK_EFFECT_NANOS, FLASH_PERIOD_NANOS};
use rpg_battle::enemy::{spawn_enemy, Enemy, EnemyType, BAT_ROLL_BOUND};
use rpg_battle::state::BattleState;
use rpg_battle::stats::BattleStats;

#[test]
fn rolls_split_the_range_in_half() {
    assert_eq!(BAT_ROLL_BOUND, 1u32 << 31);
    assert_eq!(EnemyType::from_roll(0), EnemyType::Bat);
    assert_eq!(EnemyType::from_roll(BAT_ROLL_BOUND - 1), EnemyType::Bat);
    assert_eq!(EnemyType::from_roll(BAT_ROLL_BOUND), EnemyType::Wraith);
    assert_eq!(EnemyType::from_roll(u32::MAX), EnemyType::Wraith);
}

#[test]
fn enemy_kinds_have_fixed_attributes() {
    assert_eq!(
        EnemyType::Bat.base_stats(),
        BattleStats { health: 3, max_health: 3, attack: 2, defense: 1 }
    );
    assert_eq!(
        EnemyType::Wraith.base_stats(),
        BattleStats { health: 5, max_health: 5, attack: 3, defense: 2 }
    );
    assert_eq!(EnemyType::Bat.exp_reward(), 10);
    assert_eq!(EnemyType::Wraith.exp_reward(), 30);
}

#[test]
fn spawned_enemy_has_the_attributes_of_its_kind() {
    let mut bats = 0;
    let mut wraiths = 0;
    for _ in 0..400 {
        let (enemy, stats) = spawn_enemy();
        assert_eq!(stats, enemy.enemy_type.base_stats());
        match enemy {
            Enemy { enemy_type: EnemyType::Bat } => bats += 1,
            Enemy { enemy_type: EnemyType::Wraith } => wraiths += 1,
        }
    }
    assert_eq!(bats + wraiths, 400);
    // Each kind has probability one half per draw.
    assert!(bats > 0);
    assert!(wraiths > 0);
}

#[test]
fn attack_states_are_the_two_attack_states() {
    assert!(BattleState::PlayerAttack.is_attack());
    assert!(BattleState::EnemyAttack.is_attack());
    assert!(!BattleState::PlayerTurn.is_attack());
    assert!(!BattleState::EnemyTurn(false).is_attack());
    assert!(!BattleState::EnemyTurn(true).is_attack());
    assert!(!BattleState::Reward.is_attack());
    assert!(!BattleState::Exiting.is_attack());
    assert!(BattleState::Reward.is_over());
    assert!(BattleState::Exiting.is_over());
    assert!(!BattleState::PlayerTurn.is_over());
    assert!(!BattleState::EnemyAttack.is_over());
}

#[test]
fn standard_effects_last_seven_tenths_of_a_second() {
    let effects = AttackEffects::standard();
    assert_eq!(ATTACK_EFFECT_NANOS, 700_000_000);
    assert_eq!(FLASH_PERIOD_NANOS, 100_000_000);
    assert_eq!(
        effects,
        AttackEffects { elapsed: 0, duration: 700_000_000, flash_period: 100_000_000 }
    );
}

#[test]
fn effect_completes_when_duration_is_reached() {
    let mut effects = AttackEffects::new(700, 100);
    assert!(!effects.tick(300));
    assert_eq!(effects.elapsed, 300);
    assert!(!effects.tick(399));
    assert_eq!(effects.elapsed, 699);
    assert!(effects.tick(1));
    assert_eq!(effects.elapsed, 0);
    assert!(!effects.tick(699));
    assert!(effects.tick(u64::MAX));
    assert_eq!(effects.elapsed, 0);
}

#[test]
fn effect_of_no_duration_completes_at_once() {
    let mut effects = AttackEffects::new(0, 100);
    assert!(effects.tick(0));
    assert_eq!(effects.elapsed, 0);
}

#[test]
fn reset_rewinds_the_clock() {
    let mut effects = AttackEffects { elapsed: 55, duration: 700, flash_period: 100 };
    effects.reset();
    assert_eq!(effects, AttackEffects { elapsed: 0, duration: 700, flash_period: 100 });
}

#[test]
fn flash_hides_in_second_half_of_each_period() {
    let at = |elapsed: u64| AttackEffects { elapsed, duration: 700, flash_period: 100 }.flash_hidden();
    assert!(!at(0));
    assert!(!at(49));
    assert!(!at(50));
    assert!(at(51));
    assert!(at(99));
    assert!(!at(100));
    assert!(!at(150));
    assert!(at(151));
    assert!(at(699));
}

#[test]
fn flash_with_zero_period_never_hides() {
    let effects = AttackEffects { elapsed: 10, duration: 700, flash_period: 0 };
    assert!(!effects.flash_hidden());
}

#[test]
fn flash_with_huge_period_does_not_overflow() {
    let effects = AttackEffects { elapsed: u64::MAX - 1, duration: u64::MAX, flash_period: u64::MAX };
    assert!(effects.flash_hidden());
    let effects = AttackEffects { elapsed: 1, duration: u64::MAX, flash_period: u64::MAX };
    assert!(!effects.flash_hidden());
}
