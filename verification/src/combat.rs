use vstd::prelude::*;

use crate::kinds::EnemyType;

verus! {

/// The state of an enemy apart from its position and motion.
#[derive(Debug, Clone, Copy, PartialEq, Eq, Structural)]
pub struct EnemyStatus {
    pub enemy_type: EnemyType,
    pub alive: bool,
    pub hp: i32,
    /// Frames lived, which drives the enemy's bobbing.
    pub anim_t: i32,
}

/// Hit points of a new enemy: turrets take two hits, the others one.
pub open spec fn spec_enemy_hp(t: EnemyType) -> i32 {
    if t == EnemyType::Turret {
        2
    } else {
        1
    }
}

/// Hit points of a new enemy of kind `t`.
pub fn enemy_hp(t: EnemyType) -> (hp: i32)
    ensures
        hp == spec_enemy_hp(t),
{
    match t {
        EnemyType::Turret => 2,
        _ => 1,
    }
}

/// The starting horizontal speed of an enemy of kind `t`: wraiths and chasers move, turrets
/// stand.
pub fn enemy_speed(t: EnemyType) -> (v: i32)
    ensures
        v == if t == EnemyType::Turret { 0i32 } else { 2i32 },
{
    match t {
        EnemyType::Turret => 0,
        _ => 2,
    }
}

/// The vertical speed of a new bullet: enemy shots fall at 8, the astronaut's rise at 18.
pub fn bullet_speed(from_enemy: bool) -> (v: i32)
    ensures
        v == if from_enemy { 8i32 } else { -18i32 },
{
    if from_enemy {
        8
    } else {
        -18
    }
}

/// Score for the enemies shot down in a frame: 50 each, times the level's number.
pub open spec fn spec_kill_bonus(level: int, killed: int) -> int {
    50 * (level + 1) * killed
}

/// Score for `killed` enemies shot down in one frame on level `level` (counted from 0).
pub fn kill_bonus(level: usize, killed: i32) -> (b: i32)
    requires
        level < 10,
        0 <= killed,
        spec_kill_bonus(level as int, killed as int) <= i32::MAX,
    ensures
        b == spec_kill_bonus(level as int, killed as int),
        b == 50 * (level + 1) * killed,
{
    let l = level as i32;
    assert(0 <= 50 * (l + 1) * killed) by (nonlinear_arith)
        requires
            0 <= l < 10,
            0 <= killed,
    ;
    50 * (l + 1) * killed
}

impl EnemyStatus {
    /// The invariant every enemy reached through these operations keeps.
    pub open spec fn wf(self) -> bool {
        &&& self.hp <= spec_enemy_hp(self.enemy_type)
        &&& self.alive ==> self.hp >= 1
        &&& self.anim_t >= 0
    }

    /// A shot lands: one hit point less, and the enemy dies when none are left. The flag
    /// says whether this hit leaves it with none.
    pub open spec fn spec_take_hit(self) -> (EnemyStatus, bool) {
        let hp = (self.hp - 1) as i32;
        (EnemyStatus { hp, alive: self.alive && hp > 0, ..self }, hp <= 0)
    }

    /// A new enemy of kind `t`.
    pub fn new(t: EnemyType) -> (e: EnemyStatus)
        ensures
            e == (EnemyStatus { enemy_type: t, alive: true, hp: spec_enemy_hp(t), anim_t: 0 }),
            e.wf(),
    {
        EnemyStatus { enemy_type: t, alive: true, hp: enemy_hp(t), anim_t: 0 }
    }

    /// One frame of life.
    pub fn tick(&mut self)
        requires
            old(self).anim_t < i32::MAX,
        ensures
            *final(self) == (EnemyStatus { anim_t: (old(self).anim_t + 1) as i32, ..*old(self) }),
            old(self).wf() ==> final(self).wf(),
    {
        self.anim_t = self.anim_t + 1;
    }

    /// Takes a hit from the astronaut's gun; `true` when this hit leaves no hit points, which
    /// counts as a kill (so a second bullet in the same frame counts the kill again, just as
    /// it makes a second burst of debris).
    pub fn take_hit(&mut self) -> (killed: bool)
        requires
            old(self).hp > i32::MIN,
        ensures
            (*final(self), killed) == old(self).spec_take_hit(),
            old(self).wf() ==> final(self).wf(),
    {
        self.hp = self.hp - 1;
        if self.hp <= 0 {
            self.alive = false;
            true
        } else {
            false
        }
    }
}

/// Kill bonuses add up and grow with the level: one kill on the first level pays 50, each
/// level pays 50 more per kill than the one below, and `k` kills pay `k` times one kill.
pub proof fn lemma_kill_bonus_scales(level: int, killed: int)
    requires
        0 <= level,
        0 <= killed,
    ensures
        spec_kill_bonus(0, 1) == 50,
        spec_kill_bonus(level + 1, 1) == spec_kill_bonus(level, 1) + 50,
        spec_kill_bonus(level, killed) == killed * spec_kill_bonus(level, 1),
        spec_kill_bonus(level, killed) == 50 * (level + 1) * killed,
{
    assert(spec_kill_bonus(level, killed) == killed * spec_kill_bonus(level, 1)) by (nonlinear_arith);
}

/// Turrets take exactly two hits to destroy, wraiths and chasers exactly one.
pub proof fn lemma_hits_to_destroy(t: EnemyType)
    ensures
        ({
            let e = EnemyStatus { enemy_type: t, alive: true, hp: spec_enemy_hp(t), anim_t: 0 };
            let (e1, k1) = e.spec_take_hit();
            &&& k1 == (t != EnemyType::Turret)
            &&& e1.alive == (t == EnemyType::Turret)
            &&& t == EnemyType::Turret ==> e1.spec_take_hit().1 && !e1.spec_take_hit().0.alive
        }),
{
}

} // verus!
