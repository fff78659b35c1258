use cosmic_climber::generation::{
    conveyor_dir_for_roll, enemy_for_roll, enemy_spawn_for_rolls, has_powerup_for_roll, platform_type_for_roll,
    powerup_for_roll, sparkle_for_roll, spawns_enemy_for_roll,
    roll_conveyor_dir, roll_enemy_spawn, roll_has_powerup, roll_platform_type, roll_powerup, roll_shield_sparkle,
    select_platform_type, weight_total,
};
use cosmic_climber::kinds::{EnemyType, GameState, PlatformType, PowerupType, PLAT_TYPE_COUNT};

const WEIGHTS: [i32; 10] = [5, 0, 3, 0, 0, 0, 0, 0, 0, 2];

#[test]
fn state_codes_follow_the_hud_protocol() {
    assert_eq!(GameState::Menu.code(), 0);
    assert_eq!(GameState::Playing.code(), 1);
    assert_eq!(GameState::Paused.code(), 2);
    assert_eq!(GameState::GameOver.code(), 3);
    assert_eq!(GameState::LevelTrans.code(), 4);
    assert_eq!(GameState::Win.code(), 5);
}

#[test]
fn platform_kinds_round_trip_through_their_index() {
    for i in 0..PLAT_TYPE_COUNT {
        assert_eq!(PlatformType::from_index(i).index(), i);
    }
    assert_eq!(PlatformType::from_index(0), PlatformType::Normal);
    assert_eq!(PlatformType::from_index(7), PlatformType::Lava);
    assert_eq!(PlatformType::from_index(9), PlatformType::Ice);
}

#[test]
fn weight_total_adds_all_ten() {
    assert_eq!(weight_total(&WEIGHTS), 10);
    assert_eq!(weight_total(&[0; 10]), 0);
    assert_eq!(weight_total(&[1, 2, 3, 4, 5, 6, 7, 8, 9, 10]), 55);
}

#[test]
fn a_roll_lands_in_the_band_of_its_kind() {
    for pick in 0..5 {
        assert_eq!(select_platform_type(&WEIGHTS, pick), PlatformType::Normal);
    }
    for pick in 5..8 {
        assert_eq!(select_platform_type(&WEIGHTS, pick), PlatformType::Bouncy);
    }
    for pick in 8..10 {
        assert_eq!(select_platform_type(&WEIGHTS, pick), PlatformType::Ice);
    }
}

#[test]
fn each_kind_gets_as_many_rolls_as_its_weight() {
    let weights = [3, 1, 0, 4, 2, 0, 1, 0, 5, 1];
    let total = weight_total(&weights);
    let mut counts = [0; 10];
    for pick in 0..total {
        counts[select_platform_type(&weights, pick).index()] += 1;
    }
    assert_eq!(counts, weights);
}

#[test]
fn rolls_past_the_table_give_normal() {
    assert_eq!(select_platform_type(&WEIGHTS, 10), PlatformType::Normal);
    assert_eq!(select_platform_type(&WEIGHTS, 1000), PlatformType::Normal);
    assert_eq!(select_platform_type(&[0; 10], 0), PlatformType::Normal);
}

#[test]
fn a_negative_weight_shifts_the_bands() {
    let weights = [-1, 2, 0, 0, 0, 0, 0, 0, 0, 0];
    assert_eq!(select_platform_type(&weights, 0), PlatformType::Moving);
    assert_eq!(select_platform_type(&weights, -2), PlatformType::Normal);
}

#[test]
fn rolled_kinds_always_have_weight() {
    let lava_only = [0, 0, 0, 0, 0, 0, 0, 9, 0, 0];
    for _ in 0..200 {
        assert_eq!(roll_platform_type(&lava_only), PlatformType::Lava);
    }
    for _ in 0..200 {
        let t = roll_platform_type(&WEIGHTS);
        assert!(WEIGHTS[t.index()] > 0);
    }
    for _ in 0..20 {
        assert_eq!(roll_platform_type(&[0; 10]), PlatformType::Normal);
    }
}

#[test]
fn rolled_kinds_vary_with_the_draws() {
    let mut seen = [false; 10];
    for _ in 0..500 {
        seen[roll_platform_type(&WEIGHTS).index()] = true;
    }
    assert!(seen[0] && seen[2] && seen[9]);
}

#[test]
fn draws_select_power_ups_enemies_and_belts() {
    assert_eq!(powerup_for_roll(0), PowerupType::Jetpack);
    assert_eq!(powerup_for_roll(4), PowerupType::Shield);
    assert_eq!(powerup_for_roll(5), PowerupType::Star);
    assert_eq!(enemy_for_roll(9), EnemyType::Wraith);
    assert_eq!(enemy_for_roll(10), EnemyType::Turret);
    assert_eq!(enemy_for_roll(u32::MAX), EnemyType::Wraith);
    assert_eq!(enemy_for_roll(11), EnemyType::Chaser);
    assert_eq!(conveyor_dir_for_roll(6), 1);
    assert_eq!(conveyor_dir_for_roll(7), -1);
    assert!(has_powerup_for_roll(0));
    assert!(has_powerup_for_roll(24));
    assert!(!has_powerup_for_roll(13));
}

#[test]
fn enemies_come_only_on_levels_that_have_them() {
    assert_eq!(enemy_spawn_for_rolls(false, 3, 0, 1), None);
    assert_eq!(enemy_spawn_for_rolls(true, 0, 0, 1), None);
    assert_eq!(enemy_spawn_for_rolls(true, -4, 0, 1), None);
    assert_eq!(enemy_spawn_for_rolls(true, 3, 4, 1), None);
    assert_eq!(enemy_spawn_for_rolls(true, 3, 6, 1), Some(EnemyType::Turret));
    assert_eq!(enemy_spawn_for_rolls(true, 1, 12345, 2), Some(EnemyType::Chaser));
    for _ in 0..50 {
        assert_eq!(roll_enemy_spawn(false, 1), None);
        assert_eq!(roll_enemy_spawn(true, 0), None);
        assert!(roll_enemy_spawn(true, 1).is_some());
    }
}

#[test]
fn rolled_platform_extras_stay_in_range() {
    let mut saw_powerup = false;
    let mut saw_plain = false;
    for _ in 0..300 {
        let d = roll_conveyor_dir();
        assert!(d == 1 || d == -1);
        assert_eq!(roll_powerup(false), None);
        assert!(roll_powerup(true).is_some());
        if roll_has_powerup() {
            saw_powerup = true;
        } else {
            saw_plain = true;
        }
    }
    assert!(saw_powerup && saw_plain);
}

#[test]
fn shields_sparkle_now_and_then() {
    let mut yes = 0;
    let mut no = 0;
    for _ in 0..1000 {
        if roll_shield_sparkle() {
            yes += 1;
        } else {
            no += 1;
        }
    }
    assert!(yes > 0);
    assert!(no > yes);
}

#[test]
fn a_draw_picks_its_kind_modulo_the_total() {
    assert_eq!(platform_type_for_roll(&WEIGHTS, 3), PlatformType::Normal);
    assert_eq!(platform_type_for_roll(&WEIGHTS, 6), PlatformType::Bouncy);
    assert_eq!(platform_type_for_roll(&WEIGHTS, 19), PlatformType::Ice);
    assert_eq!(platform_type_for_roll(&WEIGHTS, 28), PlatformType::Ice);
    assert_eq!(platform_type_for_roll(&WEIGHTS, u32::MAX), PlatformType::Bouncy);
    assert_eq!(platform_type_for_roll(&[0; 10], 9), PlatformType::Normal);
    let forest = [7, 3, 0, 0, 0, 0, 0, 0, 0, 0];
    assert_eq!(platform_type_for_roll(&forest, 9), PlatformType::Moving);
}

#[test]
fn the_first_enemy_draw_decides_whether_one_comes() {
    assert!(spawns_enemy_for_roll(true, 4, 8));
    assert!(!spawns_enemy_for_roll(true, 4, 9));
    assert!(!spawns_enemy_for_roll(false, 4, 8));
    assert!(!spawns_enemy_for_roll(true, 0, 8));
}

#[test]
fn only_a_zero_draw_sparkles() {
    assert!(sparkle_for_roll(0));
    assert!(!sparkle_for_roll(1));
    assert!(!sparkle_for_roll(9));
}
