use vstd::prelude::*;

use crate::generation::{roll_conveyor_dir, roll_powerup, spec_conveyor_dir_for_roll, spec_powerup_for_roll};
use crate::kinds::{PlatformType, PowerupType};
use crate::player::{FallOutcome, LandingKind, PlayerStatus};

verus! {

/// Frames a crumbling platform shakes before it starts to fall apart.
pub const CRUMBLE_SHAKE_TICKS: i32 = 20;

/// Frames a crumbling platform takes to fall apart once it has started: with the shaking,
/// it is gone 30 frames after the first landing.
pub const CRUMBLE_BREAK_TICKS: i32 = 8;

/// Frames a disappearing platform stays non-solid after it is touched.
pub const DISAPPEAR_TICKS: i32 = 60;

/// The state of a platform apart from its position, size and motion.
#[derive(Debug, Clone, Copy, PartialEq, Eq, Structural)]
pub struct PlatformStatus {
    pub plat_type: PlatformType,
    pub active: bool,
    pub broken: bool,
    pub visible: bool,
    /// 0: intact; 1: shaking after a landing; 2: falling apart.
    pub crumble: i32,
    pub crumble_t: i32,
    /// Frames a touched disappearing platform has left to stay non-solid.
    pub vanish_t: i32,
    /// Which way a conveyor belt pushes: 1 right, -1 left.
    pub conv_dir: i32,
    pub has_pu: bool,
    pub pu_type: Option<PowerupType>,
}

/// The thickness of a platform of kind `t`: springs stand taller.
pub fn platform_height(t: PlatformType) -> (h: i32)
    ensures
        h == if t == PlatformType::Spring { 18i32 } else { 14i32 },
{
    match t {
        PlatformType::Spring => 18,
        _ => 14,
    }
}

impl PlatformStatus {
    /// The invariant every platform reached through these operations keeps.
    pub open spec fn wf(self) -> bool {
        &&& 0 <= self.crumble <= 2
        &&& self.crumble == 0 ==> self.crumble_t == 0
        &&& self.crumble == 1 ==> 0 <= self.crumble_t <= CRUMBLE_SHAKE_TICKS
        &&& self.crumble == 2 ==> 0 <= self.crumble_t <= CRUMBLE_BREAK_TICKS + 1
        &&& self.broken <==> (self.crumble == 2 && self.crumble_t == CRUMBLE_BREAK_TICKS + 1)
        &&& self.broken ==> !self.active
        &&& self.plat_type != PlatformType::Crumble ==> self.crumble == 0
        &&& 0 <= self.vanish_t <= DISAPPEAR_TICKS
        &&& self.plat_type == PlatformType::Disappear ==> (self.visible <==> self.vanish_t == 0)
        &&& self.plat_type != PlatformType::Disappear ==> self.visible && self.vanish_t == 0
        &&& self.conv_dir == 1 || self.conv_dir == -1
        &&& self.has_pu ==> self.pu_type is Some
    }

    /// A newly placed platform.
    pub open spec fn spec_new(plat_type: PlatformType, conv_dir: i32, has_pu: bool, pu_type: Option<PowerupType>) -> PlatformStatus {
        PlatformStatus {
            plat_type,
            active: true,
            broken: false,
            visible: true,
            crumble: 0,
            crumble_t: 0,
            vanish_t: 0,
            conv_dir,
            has_pu,
            pu_type,
        }
    }

    /// One frame of update: a crumbling platform counts down to its collapse, a touched
    /// disappearing one counts down to its return; other platforms and inactive ones do not
    /// change.
    pub open spec fn spec_tick(self) -> PlatformStatus {
        if !self.active {
            self
        } else if self.plat_type == PlatformType::Crumble && self.crumble > 0 {
            let t = self.crumble_t + 1;
            if self.crumble == 1 && t > CRUMBLE_SHAKE_TICKS {
                PlatformStatus { crumble: 2, crumble_t: 0, ..self }
            } else if self.crumble == 2 && t > CRUMBLE_BREAK_TICKS {
                PlatformStatus { crumble_t: t as i32, broken: true, active: false, ..self }
            } else {
                PlatformStatus { crumble_t: t as i32, ..self }
            }
        } else if self.plat_type == PlatformType::Disappear && self.vanish_t > 0 {
            let v = (self.vanish_t - 1) as i32;
            PlatformStatus { vanish_t: v, visible: v == 0, ..self }
        } else {
            self
        }
    }

    /// Whether a falling astronaut can land on this platform. `rising` is whether the
    /// astronaut moves up (or not at all) this frame: cloud platforms only hold from above.
    pub open spec fn spec_can_land(self, rising: bool) -> bool {
        &&& self.active
        &&& !self.broken
        &&& self.plat_type != PlatformType::Lava
        &&& !(self.plat_type == PlatformType::Disappear && !self.visible)
        &&& !(self.plat_type == PlatformType::Cloud && rising)
    }

    /// Whether a respawn may put the astronaut on this platform.
    pub open spec fn spec_safe_for_respawn(self) -> bool {
        &&& self.active
        &&& !self.broken
        &&& self.plat_type != PlatformType::Lava
        &&& !(self.plat_type == PlatformType::Disappear && !self.visible)
    }

    /// How a landing on this platform treats the astronaut.
    pub open spec fn spec_landing_kind(self) -> LandingKind {
        match self.plat_type {
            PlatformType::Bouncy => LandingKind::Bounce,
            PlatformType::Spring => LandingKind::Spring,
            PlatformType::Crumble => LandingKind::Crumble,
            _ => LandingKind::Solid,
        }
    }

    /// A landing: a crumbling platform starts to shake, a disappearing one turns non-solid
    /// for `DISAPPEAR_TICKS` frames, and a carried power-up is taken.
    pub open spec fn spec_land(self) -> (PlatformStatus, Option<PowerupType>) {
        let c = if self.plat_type == PlatformType::Crumble && self.crumble == 0 { 1i32 } else { self.crumble };
        let fades = self.plat_type == PlatformType::Disappear;
        let v = if fades { DISAPPEAR_TICKS } else { self.vanish_t };
        let vis = if fades { false } else { self.visible };
        if self.has_pu {
            (PlatformStatus { crumble: c, vanish_t: v, visible: vis, has_pu: false, ..self }, self.pu_type)
        } else {
            (PlatformStatus { crumble: c, vanish_t: v, visible: vis, ..self }, None)
        }
    }

    /// A newly placed platform of kind `plat_type`, pushing toward `conv_dir`, carrying
    /// `pu_type` when `has_pu`.
    pub fn new(plat_type: PlatformType, conv_dir: i32, has_pu: bool, pu_type: Option<PowerupType>) -> (p: PlatformStatus)
        ensures
            p == PlatformStatus::spec_new(plat_type, conv_dir, has_pu, pu_type),
            (conv_dir == 1 || conv_dir == -1) && (has_pu ==> pu_type is Some) ==> p.wf(),
    {
        PlatformStatus {
            plat_type,
            active: true,
            broken: false,
            visible: true,
            crumble: 0,
            crumble_t: 0,
            vanish_t: 0,
            conv_dir,
            has_pu,
            pu_type,
        }
    }

    /// Places a new platform of kind `plat_type`: draws its conveyor direction, then, when it
    /// carries a power-up, which one.
    pub fn roll(plat_type: PlatformType, has_pu: bool) -> (p: PlatformStatus)
        ensures
            p.wf(),
            exists|r: u32| p.conv_dir == #[trigger] spec_conveyor_dir_for_roll(r),
            !has_pu ==> p == PlatformStatus::spec_new(plat_type, p.conv_dir, false, None),
            has_pu ==> exists|r: u32| p == PlatformStatus::spec_new(
                plat_type,
                p.conv_dir,
                true,
                Some(#[trigger] spec_powerup_for_roll(r)),
            ),
    {
        let conv_dir = roll_conveyor_dir();
        let pu_type = roll_powerup(has_pu);
        PlatformStatus::new(plat_type, conv_dir, has_pu, pu_type)
    }

    /// Advances the platform's countdowns by one frame.
    pub fn tick(&mut self)
        requires
            old(self).crumble_t < i32::MAX,
        ensures
            *final(self) == old(self).spec_tick(),
            (old(self).broken ==> !old(self).active) ==> (final(self).broken ==> !final(self).active),
            old(self).wf() ==> final(self).wf(),
    {
        if !self.active {
            return;
        }
        if self.plat_type == PlatformType::Crumble && self.crumble > 0 {
            self.crumble_t = self.crumble_t + 1;
            if self.crumble == 1 && self.crumble_t > CRUMBLE_SHAKE_TICKS {
                self.crumble = 2;
                self.crumble_t = 0;
            }
            if self.crumble == 2 && self.crumble_t > CRUMBLE_BREAK_TICKS {
                self.broken = true;
                self.active = false;
            }
        } else if self.plat_type == PlatformType::Disappear && self.vanish_t > 0 {
            self.vanish_t = self.vanish_t - 1;
            self.visible = self.vanish_t == 0;
        }
    }

    /// Whether a falling astronaut can land here (see `spec_can_land`).
    pub fn can_land(&self, rising: bool) -> (b: bool)
        ensures
            b == self.spec_can_land(rising),
    {
        if !self.active || self.broken {
            return false;
        }
        match self.plat_type {
            PlatformType::Lava => false,
            PlatformType::Disappear => self.visible,
            PlatformType::Cloud => !rising,
            _ => true,
        }
    }

    /// Whether a respawn may use this platform.
    pub fn safe_for_respawn(&self) -> (b: bool)
        ensures
            b == self.spec_safe_for_respawn(),
    {
        self.active && !self.broken && self.plat_type != PlatformType::Lava && !(self.plat_type
            == PlatformType::Disappear && !self.visible)
    }

    /// Whether touching this platform burns: active lava.
    pub fn burns(&self) -> (b: bool)
        ensures
            b == (self.active && self.plat_type == PlatformType::Lava),
    {
        self.active && self.plat_type == PlatformType::Lava
    }

    /// Whether a landing here may become the checkpoint: not on platforms that vanish.
    pub fn allows_checkpoint(&self) -> (b: bool)
        ensures
            b == (self.plat_type != PlatformType::Disappear && self.plat_type != PlatformType::Crumble),
    {
        self.plat_type != PlatformType::Disappear && self.plat_type != PlatformType::Crumble
    }

    /// How a landing here treats the astronaut.
    pub fn landing_kind(&self) -> (k: LandingKind)
        ensures
            k == self.spec_landing_kind(),
            (k == LandingKind::Bounce) == (self.plat_type == PlatformType::Bouncy),
            (k == LandingKind::Spring) == (self.plat_type == PlatformType::Spring),
            (k == LandingKind::Crumble) == (self.plat_type == PlatformType::Crumble),
    {
        match self.plat_type {
            PlatformType::Bouncy => LandingKind::Bounce,
            PlatformType::Spring => LandingKind::Spring,
            PlatformType::Crumble => LandingKind::Crumble,
            _ => LandingKind::Solid,
        }
    }

    /// Lands on this platform: starts the crumbling or the vanishing, and hands over the
    /// power-up, if any.
    pub fn land(&mut self) -> (pu: Option<PowerupType>)
        ensures
            (*final(self), pu) == old(self).spec_land(),
            old(self).wf() ==> final(self).wf(),
    {
        if self.plat_type == PlatformType::Crumble && self.crumble == 0 {
            self.crumble = 1;
        }
        if self.plat_type == PlatformType::Disappear {
            self.vanish_t = DISAPPEAR_TICKS;
            self.visible = false;
        }
        if self.has_pu {
            self.has_pu = false;
            self.pu_type
        } else {
            None
        }
    }
}

/// What a landing does beyond the flags it sets, for the caller to apply to positions and
/// speeds.
#[derive(Debug, Clone, Copy, PartialEq, Eq, Structural)]
pub struct LandingReport {
    /// How the surface treats the astronaut.
    pub kind: LandingKind,
    /// Whether the jump gets the held-key boost.
    pub boost: bool,
    /// The conveyor push: the belt's direction on a conveyor, 0 elsewhere.
    pub push: i32,
    /// The power-up taken, if the platform carried one.
    pub powerup: Option<PowerupType>,
}

/// The astronaut, falling, touches the platform: the belt pushes, the surface decides the
/// jump, the platform starts crumbling or hands over its power-up, and the power-up takes
/// effect on the astronaut.
pub fn land_on(player: &mut PlayerStatus, plat: &mut PlatformStatus, up: bool) -> (r: LandingReport)
    ensures
        r.kind == old(plat).spec_landing_kind(),
        r.push == if old(plat).plat_type == PlatformType::Conveyor { old(plat).conv_dir } else { 0 },
        (*final(plat), r.powerup) == old(plat).spec_land(),
        r.boost == match r.kind {
            LandingKind::Bounce | LandingKind::Spring => up,
            _ => up && !old(player).was_on_ground,
        },
        ({
            let stood = PlayerStatus {
                on_ground: old(player).on_ground || r.kind == LandingKind::Crumble || r.kind
                    == LandingKind::Solid,
                on_ice: old(player).on_ice || (old(plat).plat_type == PlatformType::Ice && (r.kind
                    == LandingKind::Crumble || r.kind == LandingKind::Solid)),
                ..*old(player)
            };
            *final(player) == match r.powerup {
                Some(pu) => stood.spec_pick_up(pu),
                None => stood,
            }
        }),
        old(player).wf() ==> final(player).wf(),
        old(plat).wf() ==> final(plat).wf(),
{
    let push = if plat.plat_type == PlatformType::Conveyor { plat.conv_dir } else { 0 };
    let kind = plat.landing_kind();
    let boost = player.land(kind, plat.plat_type == PlatformType::Ice, up);
    let powerup = plat.land();
    match powerup {
        Some(pu) => player.pick_up(pu),
        None => {},
    }
    LandingReport { kind, boost, push, powerup }
}

/// The astronaut touches the platform: active lava costs a life exactly as a fall does,
/// and no shield protects against it (only invincibility does); other platforms do nothing.
pub fn lava_contact(player: &mut PlayerStatus, plat: &PlatformStatus) -> (outcome: Option<FallOutcome>)
    requires
        old(player).lives > i32::MIN,
    ensures
        plat.active && plat.plat_type == PlatformType::Lava ==> (*final(player), outcome->0)
            == old(player).spec_fall() && outcome is Some,
        !(plat.active && plat.plat_type == PlatformType::Lava) ==> outcome is None && *final(player)
            == *old(player),
        old(player).wf() ==> final(player).wf(),
{
    if plat.burns() {
        Some(player.fall())
    } else {
        None
    }
}

/// Lava burns through a shield: what a touch of lava costs does not depend on whether the
/// astronaut wears one, and a vulnerable astronaut always loses a life to it.
pub proof fn lemma_lava_ignores_shield(s: PlayerStatus, shield: bool)
    requires
        s.lives > i32::MIN,
    ensures
        (PlayerStatus { has_shield: shield, ..s }).spec_fall().1 == s.spec_fall().1,
        (PlayerStatus { has_shield: shield, ..s }).spec_fall().0.lives == s.spec_fall().0.lives,
        !s.invincible ==> s.spec_fall().0.lives == s.lives - 1,
{
}

/// Only a bouncy pad bounces, only a spring catapults, only a crumbling platform crumbles;
/// every other kind (normal, moving, disappearing, conveyor, cloud, ice, and lava, which is
/// never landed on) gives solid footing, so the astronaut stands after landing on it.
pub proof fn lemma_landing_kinds(p: PlatformStatus)
    ensures
        (p.spec_landing_kind() == LandingKind::Bounce) == (p.plat_type == PlatformType::Bouncy),
        (p.spec_landing_kind() == LandingKind::Spring) == (p.plat_type == PlatformType::Spring),
        (p.spec_landing_kind() == LandingKind::Crumble) == (p.plat_type == PlatformType::Crumble),
        (p.spec_landing_kind() == LandingKind::Solid) == (p.plat_type != PlatformType::Bouncy
            && p.plat_type != PlatformType::Spring && p.plat_type != PlatformType::Crumble),
{
}

/// A landing (as `land_on` states it) leaves an airborne astronaut standing exactly on
/// platforms that are neither a bouncy pad nor a spring.
pub proof fn lemma_landing_stands(s: PlayerStatus, p: PlatformStatus)
    requires
        !s.on_ground,
    ensures
        (PlayerStatus {
            on_ground: s.on_ground || p.spec_landing_kind() == LandingKind::Crumble
                || p.spec_landing_kind() == LandingKind::Solid,
            ..s
        }).on_ground == (p.plat_type != PlatformType::Bouncy && p.plat_type != PlatformType::Spring),
{
}

/// The platform after `k` frames of update.
pub open spec fn platform_after(p: PlatformStatus, k: nat) -> PlatformStatus
    decreases k,
{
    if k == 0 {
        p
    } else {
        platform_after(p, (k - 1) as nat).spec_tick()
    }
}

proof fn lemma_crumble_timeline(p: PlatformStatus, k: nat)
    requires
        p.plat_type == PlatformType::Crumble,
        p.active,
        !p.broken,
        p.crumble == 1,
        p.crumble_t == 0,
    ensures
        k <= 20 ==> platform_after(p, k) == (PlatformStatus { crumble_t: k as i32, ..p }),
        21 <= k <= 29 ==> platform_after(p, k) == (PlatformStatus {
            crumble: 2,
            crumble_t: (k - 21) as i32,
            ..p
        }),
        k >= 30 ==> platform_after(p, k) == (PlatformStatus {
            crumble: 2,
            crumble_t: 9,
            broken: true,
            active: false,
            ..p
        }),
    decreases k,
{
    if k > 0 {
        lemma_crumble_timeline(p, (k - 1) as nat);
    }
}

/// A crumbling platform breaks 30 frames after the first landing on it: it shakes for 20
/// updates, falls apart from the 21st, holds (and can be landed on) through the 29th, and
/// is broken, for good, from the 30th on.
pub proof fn lemma_crumble_breaks_on_time(p: PlatformStatus, k: nat)
    requires
        p.wf(),
        p.plat_type == PlatformType::Crumble,
        p.active,
        p.crumble == 0,
    ensures
        platform_after(p.spec_land().0, k).crumble == if k >= 21 { 2i32 } else { 1i32 },
        platform_after(p.spec_land().0, k).broken == (k >= 30),
        platform_after(p.spec_land().0, k).active == (k < 30),
        k >= 30 ==> forall|r: bool| !#[trigger] platform_after(p.spec_land().0, k).spec_can_land(r),
{
    lemma_crumble_timeline(p.spec_land().0, k);
}

proof fn lemma_vanish_timeline(p: PlatformStatus, k: nat)
    requires
        p.plat_type == PlatformType::Disappear,
        p.active,
        p.vanish_t == DISAPPEAR_TICKS,
        !p.visible,
    ensures
        k <= 60 ==> platform_after(p, k) == (PlatformStatus {
            vanish_t: (60 - k) as i32,
            visible: k == 60,
            ..p
        }),
        k >= 60 ==> platform_after(p, k) == (PlatformStatus { vanish_t: 0, visible: true, ..p }),
    decreases k,
{
    if k > 0 {
        lemma_vanish_timeline(p, (k - 1) as nat);
    }
}

/// A disappearing platform turns non-solid when touched and stays so for exactly 60
/// updates: it cannot be landed on after 0 to 59 updates, and is solid again from the
/// 60th on.
pub proof fn lemma_vanishes_after_touch(p: PlatformStatus, k: nat, rising: bool)
    requires
        p.wf(),
        p.plat_type == PlatformType::Disappear,
        p.active,
    ensures
        platform_after(p.spec_land().0, k).visible == (k >= 60),
        platform_after(p.spec_land().0, k).spec_can_land(rising) == (k >= 60),
{
    lemma_vanish_timeline(p.spec_land().0, k);
}

} // verus!
