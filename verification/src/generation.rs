use vstd::prelude::*;

use crate::kinds::{platform_type_at, platform_type_index, EnemyType, PlatformType, PowerupType, PLAT_TYPE_COUNT};
use crate::rng::{random_below, random_u32};

verus! {

/// The sum of the first `k` weights of a level's weight table.
pub open spec fn weight_prefix(w: Seq<i32>, k: int) -> int
    decreases k,
{
    if k <= 0 {
        0
    } else {
        weight_prefix(w, k - 1) + w[k - 1]
    }
}

/// Every running sum of the table, the whole sum included, fits in an `i32`.
pub open spec fn prefixes_fit(w: Seq<i32>) -> bool {
    forall|k: int| 0 <= k <= 10 ==> i32::MIN <= #[trigger] weight_prefix(w, k) <= i32::MAX
}

/// No weight is negative.
pub open spec fn weights_nonnegative(w: Seq<i32>) -> bool {
    forall|i: int| 0 <= i < w.len() ==> #[trigger] w[i] >= 0
}

/// Scanning from position `i`, the first position whose running sum exceeds `pick`
/// (10 when there is none).
pub open spec fn first_reached(w: Seq<i32>, pick: int, i: int) -> int
    decreases 10 - i,
{
    if i >= 10 {
        10
    } else if pick < weight_prefix(w, i + 1) {
        i
    } else {
        first_reached(w, pick, i + 1)
    }
}

/// The kind a roll of `pick` selects from the table: the first kind whose running sum
/// exceeds the roll, and `Normal` when none does.
pub open spec fn chosen_type(w: Seq<i32>, pick: int) -> PlatformType {
    let i = first_reached(w, pick, 0);
    if i < 10 {
        platform_type_at(i)
    } else {
        PlatformType::Normal
    }
}

/// The sum of all ten weights.
pub fn weight_total(weights: &[i32; 10]) -> (total: i32)
    requires
        prefixes_fit(weights@),
    ensures
        total == weight_prefix(weights@, 10),
{
    let mut total: i32 = 0;
    let mut i: usize = 0;
    while i < PLAT_TYPE_COUNT
        invariant
            0 <= i <= 10,
            total == weight_prefix(weights@, i as int),
            prefixes_fit(weights@),
        decreases 10 - i,
    {
        assert(i32::MIN <= weight_prefix(weights@, i + 1) <= i32::MAX);
        total = total + weights[i];
        i = i + 1;
    }
    total
}

/// Picks the platform kind that a roll of `pick` lands on in the weight table.
pub fn select_platform_type(weights: &[i32; 10], pick: i32) -> (t: PlatformType)
    requires
        prefixes_fit(weights@),
    ensures
        t == chosen_type(weights@, pick as int),
{
    let mut acc: i32 = 0;
    let mut i: usize = 0;
    while i < PLAT_TYPE_COUNT
        invariant
            0 <= i <= 10,
            acc == weight_prefix(weights@, i as int),
            prefixes_fit(weights@),
            first_reached(weights@, pick as int, 0) == first_reached(weights@, pick as int, i as int),
        decreases 10 - i,
    {
        assert(i32::MIN <= weight_prefix(weights@, i + 1) <= i32::MAX);
        acc = acc + weights[i];
        if pick < acc {
            return PlatformType::from_index(i);
        }
        i = i + 1;
    }
    PlatformType::Normal
}

/// The roll a draw of `r` gives against the table: the draw modulo the total weight, or 0
/// when the total is not positive.
pub open spec fn pick_for_roll(w: Seq<i32>, r: u32) -> int {
    if weight_prefix(w, 10) > 0 {
        r as int % weight_prefix(w, 10)
    } else {
        0
    }
}

/// The platform kind that a draw of `r` selects from the weight table.
pub fn platform_type_for_roll(weights: &[i32; 10], r: u32) -> (t: PlatformType)
    requires
        prefixes_fit(weights@),
    ensures
        t == chosen_type(weights@, pick_for_roll(weights@, r)),
        weights_nonnegative(weights@) && weight_prefix(weights@, 10) > 0 ==> weights@[platform_type_index(t)] > 0,
{
    let total = weight_total(weights);
    let pick: i32 = if total > 0 {
        let m = r % (total as u32);
        m as i32
    } else {
        0
    };
    let t = select_platform_type(weights, pick);
    proof {
        if weights_nonnegative(weights@) && total > 0 {
            lemma_weighted_choice(weights@, pick as int, 0);
        }
    }
    t
}

/// Rolls the kind of the next generated platform from a level's weight table: one draw,
/// taken modulo the total weight, when the total is positive; no draw (and a roll of 0)
/// otherwise.
pub fn roll_platform_type(weights: &[i32; 10]) -> (t: PlatformType)
    requires
        prefixes_fit(weights@),
    ensures
        weight_prefix(weights@, 10) <= 0 ==> t == chosen_type(weights@, 0),
        exists|r: u32| t == #[trigger] chosen_type(weights@, pick_for_roll(weights@, r)),
        weights_nonnegative(weights@) && weight_prefix(weights@, 10) > 0 ==> weights@[platform_type_index(t)] > 0,
{
    let total = weight_total(weights);
    if total > 0 {
        let r = random_u32();
        platform_type_for_roll(weights, r)
    } else {
        platform_type_for_roll(weights, 0)
    }
}

/// A platform carries a power-up when its draw is a multiple of 12.
pub open spec fn spec_has_powerup_for_roll(r: u32) -> bool {
    r % 12 == 0
}

/// The power-up a draw selects: the draw modulo 3 picks jetpack, shield or star.
pub open spec fn spec_powerup_for_roll(r: u32) -> PowerupType {
    if r % 3 == 0 {
        PowerupType::Jetpack
    } else if r % 3 == 1 {
        PowerupType::Shield
    } else {
        PowerupType::Star
    }
}

/// The enemy a draw selects: the draw modulo 3 picks wraith, turret or chaser.
pub open spec fn spec_enemy_for_roll(r: u32) -> EnemyType {
    if r % 3 == 0 {
        EnemyType::Wraith
    } else if r % 3 == 1 {
        EnemyType::Turret
    } else {
        EnemyType::Chaser
    }
}

/// The direction a conveyor pushes, from its draw: 1 (right) on an even draw, -1 otherwise.
pub open spec fn spec_conveyor_dir_for_roll(r: u32) -> i32 {
    if r % 2 == 0 {
        1i32
    } else {
        -1i32
    }
}

/// Whether an enemy comes with a new platform, and which: only on a level with enemies and
/// a positive chance, when the first draw is a multiple of the chance; the second draw
/// then picks the kind.
pub open spec fn spec_enemy_spawn(has_enemies: bool, chance: i32, spawn_roll: u32, kind_roll: u32) -> Option<EnemyType> {
    if has_enemies && chance > 0 && spawn_roll % (chance as u32) == 0 {
        Some(spec_enemy_for_roll(kind_roll))
    } else {
        None
    }
}

/// Whether a platform whose draw is `r` carries a power-up.
pub fn has_powerup_for_roll(r: u32) -> (b: bool)
    ensures
        b == spec_has_powerup_for_roll(r),
{
    r % 12 == 0
}

/// The power-up that a draw of `r` selects.
pub fn powerup_for_roll(r: u32) -> (p: PowerupType)
    ensures
        p == spec_powerup_for_roll(r),
{
    match r % 3 {
        0 => PowerupType::Jetpack,
        1 => PowerupType::Shield,
        _ => PowerupType::Star,
    }
}

/// The enemy that a draw of `r` selects.
pub fn enemy_for_roll(r: u32) -> (e: EnemyType)
    ensures
        e == spec_enemy_for_roll(r),
{
    match r % 3 {
        0 => EnemyType::Wraith,
        1 => EnemyType::Turret,
        _ => EnemyType::Chaser,
    }
}

/// The conveyor direction that a draw of `r` selects.
pub fn conveyor_dir_for_roll(r: u32) -> (d: i32)
    ensures
        d == spec_conveyor_dir_for_roll(r),
{
    if r % 2 == 0 {
        1
    } else {
        -1
    }
}

/// Whether the first draw `r` brings an enemy with a new platform.
pub fn spawns_enemy_for_roll(has_enemies: bool, chance: i32, r: u32) -> (b: bool)
    ensures
        b == spec_enemy_spawn(has_enemies, chance, r, 0) is Some,
        b == (has_enemies && chance > 0 && r as int % chance as int == 0),
{
    has_enemies && chance > 0 && r % (chance as u32) == 0
}

/// Decides, from the two draws, whether and which enemy comes with a new platform.
pub fn enemy_spawn_for_rolls(has_enemies: bool, chance: i32, spawn_roll: u32, kind_roll: u32) -> (e: Option<EnemyType>)
    ensures
        e == spec_enemy_spawn(has_enemies, chance, spawn_roll, kind_roll),
{
    if has_enemies && chance > 0 && spawn_roll % (chance as u32) == 0 {
        Some(enemy_for_roll(kind_roll))
    } else {
        None
    }
}

/// Rolls whether a newly generated platform carries a power-up (one draw in twelve).
pub fn roll_has_powerup() -> (b: bool)
    ensures
        exists|r: u32| b == #[trigger] spec_has_powerup_for_roll(r),
{
    let r = random_u32();
    has_powerup_for_roll(r)
}

/// Rolls the power-up of a new platform: a draw only when it carries one.
pub fn roll_powerup(has_pu: bool) -> (p: Option<PowerupType>)
    ensures
        !has_pu ==> p is None,
        has_pu ==> exists|r: u32| p == Some(#[trigger] spec_powerup_for_roll(r)),
{
    if has_pu {
        let r = random_u32();
        Some(powerup_for_roll(r))
    } else {
        None
    }
}

/// Rolls the push direction of a new platform's conveyor belt.
pub fn roll_conveyor_dir() -> (d: i32)
    ensures
        d == 1 || d == -1,
        exists|r: u32| d == #[trigger] spec_conveyor_dir_for_roll(r),
{
    let r = random_u32();
    conveyor_dir_for_roll(r)
}

/// Rolls whether an enemy comes with a new platform. The first draw is taken only on a
/// level with enemies and a positive chance; the second only when an enemy comes.
pub fn roll_enemy_spawn(has_enemies: bool, chance: i32) -> (e: Option<EnemyType>)
    ensures
        !(has_enemies && chance > 0) ==> e is None,
        exists|r1: u32, r2: u32| e == #[trigger] spec_enemy_spawn(has_enemies, chance, r1, r2),
{
    if has_enemies && chance > 0 {
        let r1 = random_u32();
        if spawns_enemy_for_roll(has_enemies, chance, r1) {
            let r2 = random_u32();
            enemy_spawn_for_rolls(has_enemies, chance, r1, r2)
        } else {
            enemy_spawn_for_rolls(has_enemies, chance, r1, 0)
        }
    } else {
        enemy_spawn_for_rolls(has_enemies, chance, 0, 0)
    }
}

/// A shield throws off a sparkle when its draw from `[0, 10)` is 0.
pub open spec fn spec_sparkle_for_roll(r: i32) -> bool {
    r == 0
}

/// Whether a shield sparkle comes with a draw of `r` from `[0, 10)`.
pub fn sparkle_for_roll(r: i32) -> (b: bool)
    ensures
        b == spec_sparkle_for_roll(r),
{
    r == 0
}

/// Rolls whether a shield throws off a sparkle this frame: one chance in ten.
pub fn roll_shield_sparkle() -> (b: bool)
    ensures
        exists|r: i32| 0 <= r < 10 && b == #[trigger] spec_sparkle_for_roll(r),
{
    let r = random_below(10);
    sparkle_for_roll(r)
}

/// A draw selects kind `i` exactly when the draw, taken modulo the total weight, falls in
/// kind `i`'s band `[prefix(i), prefix(i + 1))`. So the picks repeat with period `total`,
/// and in every run of `total` consecutive draws exactly `weights[i]` give kind `i`.
pub proof fn lemma_draw_bands(w: Seq<i32>, r: u32, i: int)
    requires
        w.len() == 10,
        weights_nonnegative(w),
        weight_prefix(w, 10) > 0,
        0 <= i < 10,
    ensures
        chosen_type(w, pick_for_roll(w, r)) == platform_type_at(i) <==> (weight_prefix(w, i)
            <= r as int % weight_prefix(w, 10) < weight_prefix(w, i + 1)),
{
    lemma_weighted_choice(w, r as int % weight_prefix(w, 10), i);
}

/// Every kind with weight is reachable: some draw selects it (the first draw of its band).
pub proof fn lemma_weighted_kind_reachable(w: Seq<i32>, i: int)
    requires
        w.len() == 10,
        weights_nonnegative(w),
        0 <= i < 10,
        w[i] > 0,
        weight_prefix(w, 10) <= u32::MAX,
    ensures
        exists|r: u32| chosen_type(w, pick_for_roll(w, r)) == platform_type_at(i),
{
    lemma_prefix_monotone(w, 0, i);
    lemma_prefix_monotone(w, i + 1, 10);
    let r = weight_prefix(w, i) as u32;
    assert(r as int % weight_prefix(w, 10) == weight_prefix(w, i)) by (nonlinear_arith)
        requires
            0 <= r as int == weight_prefix(w, i) < weight_prefix(w, 10),
    ;
    lemma_draw_bands(w, r, i);
}

/// An enemy comes exactly on the first draws that are multiples of the chance; with a
/// chance above 1 some draws bring none, and the second draw alone picks the kind.
pub proof fn lemma_enemy_spawn_rate(chance: i32, r1: u32, r2: u32)
    requires
        chance > 0,
    ensures
        spec_enemy_spawn(true, chance, r1, r2) is Some <==> r1 as int % chance as int == 0,
        spec_enemy_spawn(true, chance, r1, r2) is Some ==> spec_enemy_spawn(true, chance, r1, r2)
            == Some(spec_enemy_for_roll(r2)),
        chance > 1 ==> spec_enemy_spawn(true, chance, 1, r2) is None,
        spec_enemy_spawn(false, chance, r1, r2) is None,
{
    if chance > 1 {
        assert(1u32 as int % chance as int == 1) by (nonlinear_arith)
            requires
                chance > 1,
        ;
    }
}

/// With no negative weight, the running sums never fall as the scan goes on.
pub proof fn lemma_prefix_monotone(w: Seq<i32>, j: int, k: int)
    requires
        w.len() == 10,
        weights_nonnegative(w),
        0 <= j <= k <= 10,
    ensures
        weight_prefix(w, j) <= weight_prefix(w, k),
    decreases k - j,
{
    if j < k {
        lemma_prefix_monotone(w, j, k - 1);
        assert(w[k - 1] >= 0);
    }
}

proof fn lemma_first_reached_bracket(w: Seq<i32>, pick: int, i: int)
    requires
        w.len() == 10,
        weights_nonnegative(w),
        0 <= i <= 10,
        weight_prefix(w, i) <= pick < weight_prefix(w, 10),
    ensures
        i <= first_reached(w, pick, i) < 10,
        weight_prefix(w, first_reached(w, pick, i)) <= pick < weight_prefix(
            w,
            first_reached(w, pick, i) + 1,
        ),
    decreases 10 - i,
{
    if i < 10 && pick >= weight_prefix(w, i + 1) {
        lemma_first_reached_bracket(w, pick, i + 1);
    }
}

/// Weighted choice: with no negative weight and a roll in `[0, total)`, a roll selects
/// kind `i` exactly when it falls in `[prefix(i), prefix(i + 1))`. So out of the `total`
/// possible rolls, exactly `weights[i]` give kind `i`, and a kind of weight 0 is never chosen.
pub proof fn lemma_weighted_choice(w: Seq<i32>, pick: int, i: int)
    requires
        w.len() == 10,
        weights_nonnegative(w),
        0 <= pick < weight_prefix(w, 10),
        0 <= i < 10,
    ensures
        chosen_type(w, pick) == platform_type_at(i) <==> (weight_prefix(w, i) <= pick
            < weight_prefix(w, i + 1)),
        w[platform_type_index(chosen_type(w, pick))] > 0,
{
    lemma_first_reached_bracket(w, pick, 0);
    let r = first_reached(w, pick, 0);
    if weight_prefix(w, i) <= pick < weight_prefix(w, i + 1) && r != i {
        if r < i {
            lemma_prefix_monotone(w, r + 1, i);
        } else {
            lemma_prefix_monotone(w, i + 1, r);
        }
    }
    assert(platform_type_index(platform_type_at(r)) == r);
    if chosen_type(w, pick) == platform_type_at(i) {
        assert(platform_type_index(platform_type_at(i)) == i);
    }
}

} // verus!
