use vstd::prelude::*;

use crate::kinds::PowerupType;

verus! {

/// Lives at the start of a run.
pub const LIVES_START: i32 = 3;

/// Jetpack fuel granted by a jetpack power-up.
pub const JETPACK_FUEL: i32 = 180;

/// Fuel one frame of thrust burns.
pub const JETPACK_BURN: i32 = 2;

/// Frames of invincibility after a bullet or a body blow.
pub const HIT_INVINCIBILITY: i32 = 120;

/// Frames of invincibility after a respawn.
pub const RESPAWN_INVINCIBILITY: i32 = 180;

/// The star timer set by a star power-up.
pub const STAR_TIME: i32 = 300;

/// Frames between two shots.
pub const SHOOT_COOLDOWN: i32 = 20;

/// Slots in the star trail ring.
pub const TRAIL_LEN: usize = 8;

/// Ticks between two walk frames, and between two idle (breathing) frames.
pub const WALK_FRAME_TICKS: i32 = 6;
pub const IDLE_FRAME_TICKS: i32 = 20;

/// The counters and flags of the astronaut: everything about the player but its position
/// and velocity.
#[derive(Debug, Clone, Copy, PartialEq, Eq, Structural)]
pub struct PlayerStatus {
    pub alive: bool,
    pub lives: i32,
    pub on_ground: bool,
    pub was_on_ground: bool,
    /// Standing on ice (since the last landing this frame).
    pub on_ice: bool,
    pub invincible: bool,
    pub inv_timer: i32,
    pub has_jetpack: bool,
    pub jet_fuel: i32,
    pub has_shield: bool,
    pub has_star: bool,
    pub star_timer: i32,
    pub shoot_cd: i32,
    pub anim_frame: i32,
    pub anim_timer: i32,
    pub face: i32,
    pub trail_head: usize,
}

/// How the surface under a landing treats the astronaut.
#[derive(Debug, Clone, Copy, PartialEq, Eq, Structural)]
pub enum LandingKind {
    /// A bouncy pad: launched high, not standing.
    Bounce,
    /// A spring: catapulted, not standing.
    Spring,
    /// A crumbling platform: a normal jump, and the platform starts to break.
    Crumble,
    /// Any other platform: a normal jump from solid footing.
    Solid,
}

/// What a fall below the screen costs.
#[derive(Debug, Clone, Copy, PartialEq, Eq, Structural)]
pub enum FallOutcome {
    /// Invincible: nothing happens.
    Unharmed,
    /// The last life is gone.
    GameOver,
    /// A life is lost and the astronaut is put back on a platform.
    Respawn,
}

/// The quotient of `x` by `n` as machine integers compute it: rounded toward zero.
pub open spec fn trunc_div(x: int, n: int) -> int {
    if x >= 0 {
        x / n
    } else {
        -((-x) / n)
    }
}

/// The remainder of `x` by `n` as machine integers compute it: it takes the sign of `x`.
pub open spec fn trunc_rem(x: int, n: int) -> int {
    if x >= 0 {
        x % n
    } else {
        -((-x) % n)
    }
}

impl PlayerStatus {
    /// The invariant every status reached through these operations keeps.
    pub open spec fn wf(self) -> bool {
        &&& self.lives <= LIVES_START
        &&& self.on_ice ==> self.on_ground
        &&& !self.alive ==> self.lives <= 0
        &&& 0 <= self.inv_timer <= RESPAWN_INVINCIBILITY
        &&& self.invincible ==> self.inv_timer >= 1
        &&& -1 <= self.jet_fuel <= JETPACK_FUEL
        &&& self.has_jetpack ==> self.jet_fuel >= 1
        &&& self.star_timer == 0 || self.star_timer == STAR_TIME
        &&& 0 <= self.shoot_cd <= SHOOT_COOLDOWN
        &&& 0 <= self.anim_frame < 3
        &&& 0 <= self.anim_timer < IDLE_FRAME_TICKS
        &&& self.trail_head < TRAIL_LEN
        &&& self.face == 1 || self.face == -1
    }

    /// The status at the start of a run: alive, three lives, facing right, all else clear.
    pub open spec fn spec_fresh() -> PlayerStatus {
        PlayerStatus {
            alive: true,
            lives: LIVES_START,
            on_ground: false,
            was_on_ground: false,
            on_ice: false,
            invincible: false,
            inv_timer: 0,
            has_jetpack: false,
            jet_fuel: 0,
            has_shield: false,
            has_star: false,
            star_timer: 0,
            shoot_cd: 0,
            anim_frame: 0,
            anim_timer: 0,
            face: 1,
            trail_head: 0,
        }
    }

    /// A hit: one life less and a spell of invincibility.
    pub open spec fn spec_hit(self) -> PlayerStatus {
        PlayerStatus {
            lives: (self.lives - 1) as i32,
            invincible: true,
            inv_timer: HIT_INVINCIBILITY,
            ..self
        }
    }

    /// One frame of the invincibility countdown.
    pub open spec fn spec_tick_invincibility(self) -> PlayerStatus {
        if self.invincible {
            let t = (self.inv_timer - 1) as i32;
            PlayerStatus { inv_timer: t, invincible: t > 0, ..self }
        } else {
            self
        }
    }

    /// One frame of the jetpack with the up key in state `up`: the status after, and whether
    /// the jetpack thrusts (rather than gravity pulling).
    pub open spec fn spec_burn(self, up: bool) -> (PlayerStatus, bool) {
        if self.has_jetpack && self.jet_fuel > 0 && up {
            let f = (self.jet_fuel - JETPACK_BURN) as i32;
            (PlayerStatus { jet_fuel: f, has_jetpack: f > 0, ..self }, true)
        } else {
            (self, false)
        }
    }

    /// One frame of the gun with the fire key in state `pressed`: the cooldown counts down,
    /// then a shot goes off if the key is pressed and the cooldown is over.
    pub open spec fn spec_shoot(self, pressed: bool) -> (PlayerStatus, bool) {
        let cd = if self.shoot_cd > 0 { (self.shoot_cd - 1) as i32 } else { self.shoot_cd };
        if pressed && cd <= 0 {
            (PlayerStatus { shoot_cd: SHOOT_COOLDOWN, ..self }, true)
        } else {
            (PlayerStatus { shoot_cd: cd, ..self }, false)
        }
    }

    /// The effect of a power-up.
    pub open spec fn spec_pick_up(self, pu: PowerupType) -> PlayerStatus {
        match pu {
            PowerupType::Jetpack => PlayerStatus { has_jetpack: true, jet_fuel: JETPACK_FUEL, ..self },
            PowerupType::Shield => PlayerStatus { has_shield: true, ..self },
            PowerupType::Star => PlayerStatus { has_star: true, star_timer: STAR_TIME, ..self },
        }
    }

    /// One frame of the sprite animation: walking steps through three frames, six ticks
    /// each; standing or flying breathes through two frames, twenty ticks each.
    pub open spec fn spec_animate(self, walking: bool) -> PlayerStatus {
        let t = self.anim_timer + 1;
        let (limit, frames) = if walking { (WALK_FRAME_TICKS, 3int) } else { (IDLE_FRAME_TICKS, 2int) };
        if t >= limit {
            PlayerStatus { anim_timer: 0, anim_frame: trunc_rem(self.anim_frame + 1, frames) as i32, ..self }
        } else {
            PlayerStatus { anim_timer: t as i32, ..self }
        }
    }

    /// A fall below the screen: the status after and what it cost.
    pub open spec fn spec_fall(self) -> (PlayerStatus, FallOutcome) {
        if self.invincible {
            (self, FallOutcome::Unharmed)
        } else {
            let l = (self.lives - 1) as i32;
            if l <= 0 {
                (PlayerStatus { lives: l, alive: false, ..self }, FallOutcome::GameOver)
            } else {
                (
                    PlayerStatus { lives: l, invincible: true, inv_timer: RESPAWN_INVINCIBILITY, ..self },
                    FallOutcome::Respawn,
                )
            }
        }
    }

    /// The status at the start of a run.
    pub fn fresh() -> (s: PlayerStatus)
        ensures
            s == PlayerStatus::spec_fresh(),
            s.wf(),
    {
        PlayerStatus {
            alive: true,
            lives: LIVES_START,
            on_ground: false,
            was_on_ground: false,
            on_ice: false,
            invincible: false,
            inv_timer: 0,
            has_jetpack: false,
            jet_fuel: 0,
            has_shield: false,
            has_star: false,
            star_timer: 0,
            shoot_cd: 0,
            anim_frame: 0,
            anim_timer: 0,
            face: 1,
            trail_head: 0,
        }
    }

    /// The fuel the HUD shows: what is left while the jetpack is on, 0 otherwise.
    pub fn hud_fuel(&self) -> (f: i32)
        ensures
            f == if self.has_jetpack { self.jet_fuel } else { 0 },
    {
        if self.has_jetpack {
            self.jet_fuel
        } else {
            0
        }
    }

    /// Whether the sprite shows this frame: while invincible it blinks, four frames shown
    /// and four hidden as the timer runs down.
    pub fn blink_visible(&self) -> (b: bool)
        ensures
            !self.invincible ==> b,
            self.invincible ==> b == (trunc_rem(trunc_div(self.inv_timer as int, 4), 2) == 0),
    {
        if self.invincible {
            let t = self.inv_timer;
            if t >= 0 {
                (t / 4) % 2 == 0
            } else {
                let q = (-(t / 4)) as i64;
                q % 2 == 0
            }
        } else {
            true
        }
    }

    /// The sprite-sheet column to draw: walking uses columns 8 to 10, standing and flying
    /// columns 0 and 1.
    pub fn sprite_column(&self, walking: bool) -> (c: i64)
        ensures
            c == if walking { self.anim_frame + 8 } else { self.anim_frame as int },
    {
        if walking {
            8 + self.anim_frame as i64
        } else {
            self.anim_frame as i64
        }
    }

    /// Enemy bullets can hurt the astronaut: alive, not invincible, no shield.
    pub fn vulnerable_to_bullets(&self) -> (b: bool)
        ensures
            b == (self.alive && !self.invincible && !self.has_shield),
    {
        self.alive && !self.invincible && !self.has_shield
    }

    /// Touching an enemy can hurt the astronaut: as for bullets, and no star either.
    pub fn vulnerable_to_contact(&self) -> (b: bool)
        ensures
            b == (self.alive && !self.invincible && !self.has_shield && !self.has_star),
    {
        self.alive && !self.invincible && !self.has_shield && !self.has_star
    }

    /// Takes a hit from a bullet or an enemy body.
    pub fn take_hit(&mut self)
        requires
            old(self).lives > i32::MIN,
        ensures
            *final(self) == old(self).spec_hit(),
            old(self).wf() ==> final(self).wf(),
    {
        self.lives = self.lives - 1;
        self.invincible = true;
        self.inv_timer = HIT_INVINCIBILITY;
    }

    /// Turns the sprite toward the steering input: right wins when both are held.
    pub fn steer(&mut self, left: bool, right: bool)
        ensures
            *final(self) == (PlayerStatus {
                face: if right { 1i32 } else if left { -1i32 } else { old(self).face },
                ..*old(self)
            }),
            old(self).wf() ==> final(self).wf(),
    {
        if left {
            self.face = -1;
        }
        if right {
            self.face = 1;
        }
    }

    /// Runs the jetpack for one frame; `true` when it thrusts.
    pub fn burn_jetpack(&mut self, up: bool) -> (thrust: bool)
        ensures
            (*final(self), thrust) == old(self).spec_burn(up),
            old(self).wf() ==> final(self).wf(),
    {
        if self.has_jetpack && self.jet_fuel > 0 && up {
            self.jet_fuel = self.jet_fuel - JETPACK_BURN;
            if self.jet_fuel <= 0 {
                self.has_jetpack = false;
            }
            true
        } else {
            false
        }
    }

    /// Starts a frame's movement: remembers whether the astronaut stood, and lifts it.
    pub fn begin_move(&mut self)
        ensures
            *final(self) == (PlayerStatus {
                was_on_ground: old(self).on_ground,
                on_ground: false,
                on_ice: false,
                ..*old(self)
            }),
            old(self).wf() ==> final(self).wf(),
    {
        self.was_on_ground = self.on_ground;
        self.on_ground = false;
        self.on_ice = false;
    }

    /// Lands on a surface of the given kind with the up key in state `up`; `icy` tells
    /// whether the surface is ice. The astronaut stands afterwards on a crumbling or solid
    /// platform (on ice when it is icy); the result tells whether the jump gets the held-key
    /// boost, which pads and springs give whenever up is held and other platforms only when
    /// the astronaut was not already standing.
    pub fn land(&mut self, kind: LandingKind, icy: bool, up: bool) -> (boost: bool)
        ensures
            *final(self) == (PlayerStatus {
                on_ground: old(self).on_ground || kind == LandingKind::Crumble || kind == LandingKind::Solid,
                on_ice: old(self).on_ice || (icy && (kind == LandingKind::Crumble || kind == LandingKind::Solid)),
                ..*old(self)
            }),
            boost == match kind {
                LandingKind::Bounce | LandingKind::Spring => up,
                _ => up && !old(self).was_on_ground,
            },
            old(self).wf() ==> final(self).wf(),
    {
        match kind {
            LandingKind::Bounce | LandingKind::Spring => up,
            _ => {
                self.on_ground = true;
                if icy {
                    self.on_ice = true;
                }
                up && !self.was_on_ground
            },
        }
    }

    /// Whether the astronaut slides this frame: it stood on ice at the end of the last one.
    pub fn slides(&self) -> (b: bool)
        ensures
            b == (self.on_ground && self.on_ice),
    {
        self.on_ground && self.on_ice
    }

    /// Applies a power-up.
    pub fn pick_up(&mut self, pu: PowerupType)
        ensures
            *final(self) == old(self).spec_pick_up(pu),
            old(self).wf() ==> final(self).wf(),
    {
        match pu {
            PowerupType::Jetpack => {
                self.has_jetpack = true;
                self.jet_fuel = JETPACK_FUEL;
            },
            PowerupType::Shield => {
                self.has_shield = true;
            },
            PowerupType::Star => {
                self.has_star = true;
                self.star_timer = STAR_TIME;
            },
        }
    }

    /// Runs the gun for one frame; `true` when a shot goes off.
    pub fn shoot(&mut self, pressed: bool) -> (fired: bool)
        ensures
            (*final(self), fired) == old(self).spec_shoot(pressed),
            old(self).wf() ==> final(self).wf(),
    {
        if self.shoot_cd > 0 {
            self.shoot_cd = self.shoot_cd - 1;
        }
        if pressed && self.shoot_cd <= 0 {
            self.shoot_cd = SHOOT_COOLDOWN;
            true
        } else {
            false
        }
    }

    /// Counts down one frame of invincibility.
    pub fn tick_invincibility(&mut self)
        requires
            old(self).invincible ==> old(self).inv_timer > i32::MIN,
        ensures
            *final(self) == old(self).spec_tick_invincibility(),
            old(self).wf() ==> final(self).wf(),
    {
        if self.invincible {
            self.inv_timer = self.inv_timer - 1;
            if self.inv_timer <= 0 {
                self.invincible = false;
            }
        }
    }

    /// With a star, hands out the trail slot to record this frame's position in and moves
    /// the ring on; without one, leaves the ring alone.
    pub fn trail_step(&mut self) -> (slot: Option<usize>)
        requires
            old(self).trail_head < TRAIL_LEN,
        ensures
            old(self).has_star ==> slot == Some(old(self).trail_head) && *final(self) == (PlayerStatus {
                trail_head: ((old(self).trail_head + 1) % (TRAIL_LEN as int)) as usize,
                ..*old(self)
            }),
            !old(self).has_star ==> slot is None && *final(self) == *old(self),
            old(self).wf() ==> final(self).wf(),
    {
        if self.has_star {
            let slot = self.trail_head;
            self.trail_head = (self.trail_head + 1) % TRAIL_LEN;
            Some(slot)
        } else {
            None
        }
    }

    /// Advances the sprite animation by one tick.
    pub fn animate(&mut self, walking: bool)
        requires
            old(self).anim_timer < i32::MAX,
            old(self).anim_frame < i32::MAX,
        ensures
            *final(self) == old(self).spec_animate(walking),
            old(self).wf() ==> final(self).wf(),
    {
        self.anim_timer = self.anim_timer + 1;
        if walking {
            if self.anim_timer >= WALK_FRAME_TICKS {
                self.anim_timer = 0;
                self.anim_frame = (self.anim_frame + 1) % 3;
            }
        } else {
            if self.anim_timer >= IDLE_FRAME_TICKS {
                self.anim_timer = 0;
                self.anim_frame = (self.anim_frame + 1) % 2;
            }
        }
    }

    /// The astronaut has dropped out below the screen: unless invincible it loses a life,
    /// and either the run is over or it comes back with a spell of invincibility.
    pub fn fall(&mut self) -> (outcome: FallOutcome)
        requires
            old(self).lives > i32::MIN,
        ensures
            (*final(self), outcome) == old(self).spec_fall(),
            old(self).wf() ==> final(self).wf(),
    {
        if self.invincible {
            return FallOutcome::Unharmed;
        }
        self.lives = self.lives - 1;
        if self.lives <= 0 {
            self.alive = false;
            FallOutcome::GameOver
        } else {
            self.invincible = true;
            self.inv_timer = RESPAWN_INVINCIBILITY;
            FallOutcome::Respawn
        }
    }
}

/// The status after `k` frames of the invincibility countdown.
pub open spec fn invincibility_after(s: PlayerStatus, k: nat) -> PlayerStatus
    decreases k,
{
    if k == 0 {
        s
    } else {
        invincibility_after(s, (k - 1) as nat).spec_tick_invincibility()
    }
}

/// The status after `k` frames with the fire key held.
pub open spec fn firing_after(s: PlayerStatus, k: nat) -> PlayerStatus
    decreases k,
{
    if k == 0 {
        s
    } else {
        firing_after(s, (k - 1) as nat).spec_shoot(true).0
    }
}

/// Whether the `k`-th frame (counting from 1) with the fire key held fires a shot.
pub open spec fn fires_on_frame(s: PlayerStatus, k: nat) -> bool {
    firing_after(s, (k - 1) as nat).spec_shoot(true).1
}

/// The status after `k` frames with the up key held on the jetpack.
pub open spec fn thrusting_after(s: PlayerStatus, k: nat) -> PlayerStatus
    decreases k,
{
    if k == 0 {
        s
    } else {
        thrusting_after(s, (k - 1) as nat).spec_burn(true).0
    }
}

/// Whether the `k`-th frame (counting from 1) with the up key held thrusts.
pub open spec fn thrusts_on_frame(s: PlayerStatus, k: nat) -> bool {
    thrusting_after(s, (k - 1) as nat).spec_burn(true).1
}

/// A spell of invincibility of `t` frames lasts exactly `t` frames: after `k <= t` frames
/// of countdown the timer shows `t - k`, and the astronaut is invincible until `k == t`.
pub proof fn lemma_invincibility_lasts(s: PlayerStatus, k: nat)
    requires
        s.invincible,
        s.inv_timer >= 1,
        k <= s.inv_timer,
    ensures
        invincibility_after(s, k).inv_timer == s.inv_timer - k,
        invincibility_after(s, k).invincible == (k < s.inv_timer),
    decreases k,
{
    if k > 0 {
        lemma_invincibility_lasts(s, (k - 1) as nat);
    }
}

/// After a hit the astronaut cannot be hurt again, by bullets or by bodies, for exactly
/// 120 frames.
pub proof fn lemma_hit_grace(s: PlayerStatus, k: nat)
    requires
        s.lives > i32::MIN,
        k <= HIT_INVINCIBILITY,
    ensures
        invincibility_after(s.spec_hit(), k).invincible == (k < HIT_INVINCIBILITY),
{
    lemma_invincibility_lasts(s.spec_hit(), k);
}

/// After a respawn the astronaut is invincible for exactly 180 frames.
pub proof fn lemma_respawn_grace(s: PlayerStatus, k: nat)
    requires
        s.lives > i32::MIN,
        s.spec_fall().1 == FallOutcome::Respawn,
        k <= RESPAWN_INVINCIBILITY,
    ensures
        invincibility_after(s.spec_fall().0, k).invincible == (k < RESPAWN_INVINCIBILITY),
{
    lemma_invincibility_lasts(s.spec_fall().0, k);
}

proof fn lemma_cooldown_counts_down(s: PlayerStatus, k: nat)
    requires
        s.shoot_cd >= 1,
        k < s.shoot_cd,
    ensures
        firing_after(s, k).shoot_cd == s.shoot_cd - k,
        firing_after(s, k) == (PlayerStatus { shoot_cd: firing_after(s, k).shoot_cd, ..s }),
    decreases k,
{
    if k > 0 {
        lemma_cooldown_counts_down(s, (k - 1) as nat);
    }
}

/// With the fire key held and a cooldown of `c >= 1` frames left, the gun stays silent
/// for `c - 1` frames and fires on the `c`-th.
pub proof fn lemma_cooldown_fires_on_time(s: PlayerStatus, k: nat)
    requires
        s.shoot_cd >= 1,
        1 <= k <= s.shoot_cd,
    ensures
        fires_on_frame(s, k) == (k == s.shoot_cd),
{
    lemma_cooldown_counts_down(s, (k - 1) as nat);
}

/// Two shots are exactly 20 frames apart when the fire key stays held: after a shot, the
/// next 19 frames are silent and the 20th fires.
pub proof fn lemma_shot_spacing(s: PlayerStatus, pressed: bool, k: nat)
    requires
        s.spec_shoot(pressed).1,
        1 <= k <= SHOOT_COOLDOWN,
    ensures
        fires_on_frame(s.spec_shoot(pressed).0, k) == (k == SHOOT_COOLDOWN),
{
    lemma_cooldown_fires_on_time(s.spec_shoot(pressed).0, k);
}

proof fn lemma_fuel_burns_down(s: PlayerStatus, m: nat, k: nat)
    requires
        s.has_jetpack,
        s.jet_fuel == 2 * m,
        m >= 1,
        k <= m,
    ensures
        thrusting_after(s, k).jet_fuel == 2 * m - 2 * k,
        thrusting_after(s, k).has_jetpack == (k < m),
        thrusting_after(s, k) == (PlayerStatus {
            jet_fuel: thrusting_after(s, k).jet_fuel,
            has_jetpack: thrusting_after(s, k).has_jetpack,
            ..s
        }),
    decreases k,
{
    if k > 0 {
        lemma_fuel_burns_down(s, m, (k - 1) as nat);
    }
}

/// A fresh jetpack thrusts for exactly 90 frames of held up key: frames 1 to 90 thrust,
/// after the 90th the jetpack is gone, and frame 91 falls back on gravity.
pub proof fn lemma_jetpack_lasts(s: PlayerStatus, k: nat)
    requires
        1 <= k <= JETPACK_FUEL / JETPACK_BURN + 1,
    ensures
        thrusts_on_frame(s.spec_pick_up(PowerupType::Jetpack), k) == (k <= JETPACK_FUEL / JETPACK_BURN),
        !thrusting_after(s.spec_pick_up(PowerupType::Jetpack), (JETPACK_FUEL / JETPACK_BURN) as nat).has_jetpack,
{
    let j = s.spec_pick_up(PowerupType::Jetpack);
    lemma_fuel_burns_down(j, 90, (k - 1) as nat);
    lemma_fuel_burns_down(j, 90, 90);
}

} // verus!
