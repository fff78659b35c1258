use cosmic_climber::combat::{bullet_speed, enemy_hp, enemy_speed, kill_bonus, EnemyStatus};
use cosmic_climber::kinds::{EnemyType, PlatformType, PowerupType};
use cosmic_climber::platform::{land_on, lava_contact, platform_height, PlatformStatus};
use cosmic_climber::player::{FallOutcome, LandingKind, PlayerStatus};

fn crumbling() -> PlatformStatus {
    PlatformStatus::new(PlatformType::Crumble, 1, false, None)
}

#[test]
fn new_platforms_are_whole_and_visible() {
    let p = PlatformStatus::new(PlatformType::Conveyor, -1, true, Some(PowerupType::Star));
    assert!(p.active && p.visible && !p.broken);
    assert_eq!((p.crumble, p.crumble_t), (0, 0));
    assert_eq!(p.conv_dir, -1);
    assert_eq!(p.pu_type, Some(PowerupType::Star));
}

#[test]
fn rolled_platforms_keep_their_kind() {
    for _ in 0..100 {
        let p = PlatformStatus::roll(PlatformType::Ice, false);
        assert_eq!(p.plat_type, PlatformType::Ice);
        assert!(p.conv_dir == 1 || p.conv_dir == -1);
        assert!(!p.has_pu && p.pu_type.is_none());
        let q = PlatformStatus::roll(PlatformType::Moving, true);
        assert!(q.has_pu && q.pu_type.is_some());
    }
}

#[test]
fn springs_stand_taller() {
    assert_eq!(platform_height(PlatformType::Spring), 18);
    assert_eq!(platform_height(PlatformType::Normal), 14);
    assert_eq!(platform_height(PlatformType::Lava), 14);
}

#[test]
fn a_crumbling_platform_breaks_30_frames_after_landing() {
    let mut p = crumbling();
    assert_eq!(p.land(), None);
    assert_eq!(p.crumble, 1);
    for frame in 1..=29 {
        p.tick();
        assert!(p.active && !p.broken, "frame {}", frame);
        if frame == 21 {
            assert_eq!((p.crumble, p.crumble_t), (2, 0));
        }
    }
    p.tick();
    assert!(p.broken && !p.active);
    assert!(!p.can_land(false));
    let before = p;
    p.tick();
    assert_eq!(p, before);
}

#[test]
fn a_touched_disappearing_platform_is_gone_for_60_frames() {
    let mut p = PlatformStatus::new(PlatformType::Disappear, 1, false, None);
    for _ in 0..100 {
        p.tick();
    }
    assert!(p.visible && p.can_land(false));
    p.land();
    assert!(!p.visible);
    assert_eq!(p.vanish_t, 60);
    for frame in 1..60 {
        p.tick();
        assert!(!p.can_land(false), "frame {}", frame);
    }
    p.tick();
    assert!(p.visible && p.can_land(false));
    assert_eq!(p.vanish_t, 0);
}

#[test]
fn untouched_platforms_do_not_crumble() {
    let mut p = crumbling();
    for _ in 0..100 {
        p.tick();
    }
    assert!(p.active && !p.broken);
    let mut n = PlatformStatus::new(PlatformType::Normal, 1, false, None);
    n.land();
    n.tick();
    assert_eq!(n.crumble, 0);
}

#[test]
fn which_platforms_can_be_landed_on() {
    let normal = PlatformStatus::new(PlatformType::Normal, 1, false, None);
    assert!(normal.can_land(false) && normal.can_land(true));
    let lava = PlatformStatus::new(PlatformType::Lava, 1, false, None);
    assert!(!lava.can_land(false));
    let cloud = PlatformStatus::new(PlatformType::Cloud, 1, false, None);
    assert!(cloud.can_land(false) && !cloud.can_land(true));
    let mut gone = PlatformStatus::new(PlatformType::Disappear, 1, false, None);
    gone.visible = false;
    assert!(!gone.can_land(false));
    assert!(!gone.safe_for_respawn());
    gone.visible = true;
    assert!(gone.can_land(false) && gone.safe_for_respawn());
    assert!(!lava.safe_for_respawn());
    assert!(cloud.safe_for_respawn());
}

#[test]
fn landings_by_kind() {
    let k = |t| PlatformStatus::new(t, 1, false, None).landing_kind();
    assert_eq!(k(PlatformType::Bouncy), LandingKind::Bounce);
    assert_eq!(k(PlatformType::Spring), LandingKind::Spring);
    assert_eq!(k(PlatformType::Crumble), LandingKind::Crumble);
    assert_eq!(k(PlatformType::Ice), LandingKind::Solid);
    assert!(!crumbling().allows_checkpoint());
    assert!(!PlatformStatus::new(PlatformType::Disappear, 1, false, None).allows_checkpoint());
    assert!(PlatformStatus::new(PlatformType::Moving, 1, false, None).allows_checkpoint());
    assert!(PlatformStatus::new(PlatformType::Lava, 1, false, None).burns());
    assert!(!PlatformStatus::new(PlatformType::Normal, 1, false, None).burns());
}

#[test]
fn a_power_up_is_taken_once() {
    let mut p = PlatformStatus::new(PlatformType::Normal, 1, true, Some(PowerupType::Shield));
    assert_eq!(p.land(), Some(PowerupType::Shield));
    assert!(!p.has_pu);
    assert_eq!(p.land(), None);
}

#[test]
fn enemy_kinds_start_differently() {
    assert_eq!(enemy_hp(EnemyType::Turret), 2);
    assert_eq!(enemy_hp(EnemyType::Wraith), 1);
    assert_eq!(enemy_hp(EnemyType::Chaser), 1);
    assert_eq!(enemy_speed(EnemyType::Turret), 0);
    assert_eq!(enemy_speed(EnemyType::Chaser), 2);
    assert_eq!(bullet_speed(true), 8);
    assert_eq!(bullet_speed(false), -18);
}

#[test]
fn turrets_take_two_hits() {
    let mut t = EnemyStatus::new(EnemyType::Turret);
    assert!(!t.take_hit());
    assert!(t.alive);
    assert!(t.take_hit());
    assert!(!t.alive);
    let mut w = EnemyStatus::new(EnemyType::Wraith);
    assert!(w.take_hit());
    assert!(!w.alive);
}

#[test]
fn a_second_bullet_on_a_dead_enemy_counts_again() {
    let mut c = EnemyStatus::new(EnemyType::Chaser);
    assert!(c.take_hit());
    assert!(c.take_hit());
    assert_eq!(c.hp, -1);
}

#[test]
fn enemies_age_by_frames() {
    let mut e = EnemyStatus::new(EnemyType::Wraith);
    e.tick();
    e.tick();
    assert_eq!(e.anim_t, 2);
}

#[test]
fn kills_pay_by_level() {
    assert_eq!(kill_bonus(0, 1), 50);
    assert_eq!(kill_bonus(2, 3), 450);
    assert_eq!(kill_bonus(9, 2), 1000);
    assert_eq!(kill_bonus(4, 0), 0);
}

#[test]
fn landing_on_a_conveyor_with_a_jetpack() {
    let mut player = PlayerStatus::fresh();
    player.begin_move();
    let mut plat = PlatformStatus::new(PlatformType::Conveyor, -1, true, Some(PowerupType::Jetpack));
    let r = land_on(&mut player, &mut plat, true);
    assert_eq!(r.kind, LandingKind::Solid);
    assert!(r.boost);
    assert_eq!(r.push, -1);
    assert_eq!(r.powerup, Some(PowerupType::Jetpack));
    assert!(player.on_ground && player.has_jetpack);
    assert_eq!(player.jet_fuel, 180);
    assert!(!plat.has_pu);
}

#[test]
fn landing_on_a_pad_or_a_crumbling_ledge() {
    let mut player = PlayerStatus::fresh();
    player.on_ground = true;
    player.begin_move();
    let mut pad = PlatformStatus::new(PlatformType::Bouncy, 1, false, None);
    let r = land_on(&mut player, &mut pad, true);
    assert_eq!((r.kind, r.boost, r.push, r.powerup), (LandingKind::Bounce, true, 0, None));
    assert!(!player.on_ground);
    let mut ledge = crumbling();
    let r = land_on(&mut player, &mut ledge, true);
    assert_eq!(r.kind, LandingKind::Crumble);
    assert!(!r.boost);
    assert!(player.on_ground);
    assert_eq!(ledge.crumble, 1);
}

#[test]
fn landing_on_ice_makes_the_floor_slippery() {
    let mut player = PlayerStatus::fresh();
    player.begin_move();
    let mut ice = PlatformStatus::new(PlatformType::Ice, 1, false, None);
    land_on(&mut player, &mut ice, false);
    assert!(player.slides());
    player.begin_move();
    let mut grass = PlatformStatus::new(PlatformType::Normal, 1, false, None);
    land_on(&mut player, &mut grass, false);
    assert!(!player.slides());
}

#[test]
fn lava_burns_through_a_shield() {
    let lava = PlatformStatus::new(PlatformType::Lava, 1, false, None);
    let mut player = PlayerStatus::fresh();
    player.pick_up(PowerupType::Shield);
    assert_eq!(lava_contact(&mut player, &lava), Some(FallOutcome::Respawn));
    assert_eq!(player.lives, 2);
    assert!(player.invincible);
    assert_eq!(lava_contact(&mut player, &lava), Some(FallOutcome::Unharmed));
    assert_eq!(player.lives, 2);
    let grass = PlatformStatus::new(PlatformType::Normal, 1, false, None);
    assert_eq!(lava_contact(&mut player, &grass), None);
    let mut last = PlayerStatus::fresh();
    last.lives = 1;
    assert_eq!(lava_contact(&mut last, &lava), Some(FallOutcome::GameOver));
    assert!(!last.alive);
}
