use cosmic_climber::kinds::PowerupType;
use cosmic_climber::player::{FallOutcome, LandingKind, PlayerStatus};

#[test]
fn a_run_starts_with_three_lives_facing_right() {
    let p = PlayerStatus::fresh();
    assert!(p.alive);
    assert_eq!(p.lives, 3);
    assert_eq!(p.face, 1);
    assert!(!p.invincible && !p.has_jetpack && !p.has_shield && !p.has_star);
    assert!(p.vulnerable_to_bullets() && p.vulnerable_to_contact());
}

#[test]
fn a_hit_costs_a_life_and_grants_120_frames() {
    let mut p = PlayerStatus::fresh();
    p.take_hit();
    assert_eq!(p.lives, 2);
    assert!(p.invincible);
    assert_eq!(p.inv_timer, 120);
    assert!(!p.vulnerable_to_bullets());
    for _ in 0..119 {
        p.tick_invincibility();
        assert!(p.invincible);
    }
    p.tick_invincibility();
    assert!(!p.invincible);
    assert!(p.vulnerable_to_bullets());
}

#[test]
fn shields_and_stars_protect() {
    let mut p = PlayerStatus::fresh();
    p.pick_up(PowerupType::Shield);
    assert!(!p.vulnerable_to_bullets() && !p.vulnerable_to_contact());
    let mut q = PlayerStatus::fresh();
    q.pick_up(PowerupType::Star);
    assert!(q.vulnerable_to_bullets() && !q.vulnerable_to_contact());
    assert_eq!(q.star_timer, 300);
}

#[test]
fn shots_come_twenty_frames_apart() {
    let mut p = PlayerStatus::fresh();
    assert!(p.shoot(true));
    assert_eq!(p.shoot_cd, 20);
    for _ in 0..19 {
        assert!(!p.shoot(true));
    }
    assert!(p.shoot(true));
}

#[test]
fn the_cooldown_runs_without_the_key() {
    let mut p = PlayerStatus::fresh();
    assert!(p.shoot(true));
    for _ in 0..25 {
        assert!(!p.shoot(false));
    }
    assert_eq!(p.shoot_cd, 0);
    assert!(p.shoot(true));
}

#[test]
fn a_jetpack_thrusts_for_90_frames() {
    let mut p = PlayerStatus::fresh();
    assert!(!p.burn_jetpack(true));
    p.pick_up(PowerupType::Jetpack);
    assert_eq!(p.jet_fuel, 180);
    assert!(!p.burn_jetpack(false));
    for _ in 0..90 {
        assert!(p.burn_jetpack(true));
    }
    assert!(!p.has_jetpack);
    assert_eq!(p.jet_fuel, 0);
    assert!(!p.burn_jetpack(true));
}

#[test]
fn landing_decides_the_boost() {
    let mut p = PlayerStatus::fresh();
    p.begin_move();
    assert!(p.land(LandingKind::Bounce, false, true));
    assert!(!p.on_ground);
    assert!(p.land(LandingKind::Solid, false, true));
    assert!(p.on_ground);
    p.begin_move();
    assert!(p.was_on_ground && !p.on_ground);
    assert!(!p.land(LandingKind::Solid, false, true));
    assert!(!p.land(LandingKind::Crumble, false, false));
    assert!(p.land(LandingKind::Spring, false, true));
}

#[test]
fn steering_turns_the_sprite() {
    let mut p = PlayerStatus::fresh();
    p.steer(true, false);
    assert_eq!(p.face, -1);
    p.steer(false, false);
    assert_eq!(p.face, -1);
    p.steer(true, true);
    assert_eq!(p.face, 1);
}

#[test]
fn the_walk_cycle_has_three_frames_of_six_ticks() {
    let mut p = PlayerStatus::fresh();
    let mut frames = Vec::new();
    for _ in 0..18 {
        p.animate(true);
        frames.push(p.anim_frame);
    }
    assert_eq!(&frames[0..6], &[0, 0, 0, 0, 0, 1]);
    assert_eq!(frames[11], 2);
    assert_eq!(frames[17], 0);
}

#[test]
fn the_idle_cycle_has_two_frames_of_twenty_ticks() {
    let mut p = PlayerStatus::fresh();
    for _ in 0..19 {
        p.animate(false);
    }
    assert_eq!(p.anim_frame, 0);
    p.animate(false);
    assert_eq!((p.anim_frame, p.anim_timer), (1, 0));
    for _ in 0..20 {
        p.animate(false);
    }
    assert_eq!(p.anim_frame, 0);
}

#[test]
fn the_star_trail_wraps_after_eight_slots() {
    let mut p = PlayerStatus::fresh();
    assert_eq!(p.trail_step(), None);
    p.pick_up(PowerupType::Star);
    let slots: Vec<Option<usize>> = (0..10).map(|_| p.trail_step()).collect();
    assert_eq!(slots[0], Some(0));
    assert_eq!(slots[7], Some(7));
    assert_eq!(slots[8], Some(0));
    assert_eq!(slots[9], Some(1));
}

#[test]
fn falls_cost_lives_until_the_run_ends() {
    let mut p = PlayerStatus::fresh();
    assert_eq!(p.fall(), FallOutcome::Respawn);
    assert_eq!(p.lives, 2);
    assert!(p.invincible);
    assert_eq!(p.inv_timer, 180);
    assert_eq!(p.fall(), FallOutcome::Unharmed);
    assert_eq!(p.lives, 2);
    for _ in 0..180 {
        p.tick_invincibility();
    }
    assert_eq!(p.fall(), FallOutcome::Respawn);
    for _ in 0..180 {
        p.tick_invincibility();
    }
    assert_eq!(p.fall(), FallOutcome::GameOver);
    assert_eq!(p.lives, 0);
    assert!(!p.alive);
    assert!(!p.vulnerable_to_bullets());
}

#[test]
fn bullet_hits_can_take_lives_below_one() {
    let mut p = PlayerStatus::fresh();
    for _ in 0..3 {
        p.take_hit();
        p.invincible = false;
    }
    assert_eq!(p.lives, 0);
    assert!(p.alive);
    assert_eq!(p.fall(), FallOutcome::GameOver);
    assert_eq!(p.lives, -1);
}

#[test]
fn the_hud_shows_fuel_only_with_a_jetpack() {
    let mut p = PlayerStatus::fresh();
    assert_eq!(p.hud_fuel(), 0);
    p.pick_up(PowerupType::Jetpack);
    p.burn_jetpack(true);
    assert_eq!(p.hud_fuel(), 178);
    p.has_jetpack = false;
    assert_eq!(p.hud_fuel(), 0);
}

#[test]
fn an_invincible_sprite_blinks_every_four_frames() {
    let mut p = PlayerStatus::fresh();
    assert!(p.blink_visible());
    p.take_hit();
    let shown: Vec<bool> = (0..12)
        .map(|_| {
            p.tick_invincibility();
            p.blink_visible()
        })
        .collect();
    // Timers 119 to 116 give 29 (odd): hidden; 115 to 112 give 28: shown; 111 to 108: hidden.
    assert_eq!(shown, vec![false, false, false, false, true, true, true, true, false, false, false, false]);
}

#[test]
fn the_sprite_column_depends_on_walking() {
    let mut p = PlayerStatus::fresh();
    p.anim_frame = 2;
    assert_eq!(p.sprite_column(true), 10);
    p.anim_frame = 1;
    assert_eq!(p.sprite_column(false), 1);
}

#[test]
fn standing_on_ice_makes_the_astronaut_slide() {
    let mut p = PlayerStatus::fresh();
    p.begin_move();
    p.land(LandingKind::Solid, true, false);
    assert!(p.on_ice && p.slides());
    p.begin_move();
    assert!(!p.slides());
    p.land(LandingKind::Solid, false, false);
    assert!(!p.slides());
    p.begin_move();
    p.land(LandingKind::Bounce, true, false);
    assert!(!p.on_ice && !p.slides());
}

#[test]
fn a_negative_timer_blinks_by_truncated_division() {
    let mut p = PlayerStatus::fresh();
    p.invincible = true;
    p.inv_timer = -5;
    assert!(!p.blink_visible());
    p.inv_timer = -3;
    assert!(p.blink_visible());
    p.inv_timer = -9;
    assert!(p.blink_visible());
}

#[test]
fn the_sprite_column_never_overflows() {
    let mut p = PlayerStatus::fresh();
    p.anim_frame = i32::MAX;
    assert_eq!(p.sprite_column(true), i32::MAX as i64 + 8);
}
