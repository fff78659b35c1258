use vstd::prelude::*;

use crate::generation::{chosen_type, prefixes_fit, weight_prefix, weights_nonnegative, lemma_weighted_choice};
use crate::kinds::{platform_type_index, PlatformType};
use crate::progress::NUM_LEVELS;

verus! {

/// What a level's generator produces: the platform weights (in the order of
/// `PlatformType`), the range of platform widths, and whether and how often enemies come.
#[derive(Debug, Clone, Copy, PartialEq, Eq)]
pub struct LevelRules {
    pub type_weights: [i32; 10],
    pub plat_w_min: i32,
    pub plat_w_max: i32,
    pub has_enemies: bool,
    pub enemy_chance: i32,
}

/// The platform weights of level `level` (counted from 0: Meadow, Forest, Mountain, Ocean,
/// Arctic, Volcano, Sky City, Space Station, Deep Space, Cosmic Core).
pub open spec fn level_weights(level: int) -> Seq<i32> {
    if level <= 0 {
        seq![10, 0, 0, 0, 0, 0, 0, 0, 0, 0]
    } else if level == 1 {
        seq![7, 3, 0, 0, 0, 0, 0, 0, 0, 0]
    } else if level == 2 {
        seq![6, 2, 0, 3, 0, 0, 0, 0, 0, 0]
    } else if level == 3 {
        seq![5, 2, 2, 1, 0, 1, 2, 0, 0, 0]
    } else if level == 4 {
        seq![4, 2, 1, 1, 2, 1, 1, 0, 0, 3]
    } else if level == 5 {
        seq![4, 2, 1, 2, 1, 1, 1, 2, 0, 1]
    } else if level == 6 {
        seq![3, 2, 1, 1, 1, 1, 1, 1, 4, 1]
    } else if level == 7 {
        seq![3, 3, 1, 2, 2, 1, 2, 1, 1, 1]
    } else if level == 8 {
        seq![2, 2, 1, 2, 4, 1, 1, 1, 1, 1]
    } else {
        seq![2, 2, 2, 2, 2, 2, 2, 2, 2, 2]
    }
}

/// Whether enemies come on level `level`: from Volcano on.
pub open spec fn level_has_enemies(level: int) -> bool {
    level >= 5
}

/// One platform in how many brings an enemy on level `level` (0 where none come).
pub open spec fn level_enemy_chance(level: int) -> i32 {
    if level <= 4 {
        0
    } else if level == 5 {
        10
    } else if level == 6 {
        8
    } else if level == 7 {
        7
    } else if level == 8 {
        6
    } else {
        5
    }
}

/// The narrowest platform of level `level`.
pub open spec fn level_width_min(level: int) -> i32 {
    if level <= 0 {
        110
    } else if level == 1 {
        100
    } else if level == 2 {
        95
    } else if level <= 4 {
        if level == 3 { 90 } else { 85 }
    } else if level == 5 {
        85
    } else if level <= 7 {
        80
    } else if level == 8 {
        75
    } else {
        70
    }
}

/// The widest platform of level `level`.
pub open spec fn level_width_max(level: int) -> i32 {
    if level <= 0 {
        180
    } else if level == 1 {
        170
    } else if level == 2 {
        160
    } else if level == 3 {
        150
    } else if level == 4 {
        145
    } else if level <= 6 {
        140
    } else if level == 7 {
        135
    } else if level == 8 {
        130
    } else {
        125
    }
}

/// The level that introduces each platform kind: Meadow has only normal platforms, Forest
/// brings moving ones, Mountain crumbling ones, Ocean bouncy pads, springs and conveyors,
/// Arctic ice and disappearing platforms, Volcano lava, Sky City clouds.
pub open spec fn introduced_on(kind: int) -> int {
    if kind == 0 {
        0
    } else if kind == 1 {
        1
    } else if kind == 3 {
        2
    } else if kind == 2 || kind == 5 || kind == 6 {
        3
    } else if kind == 4 || kind == 9 {
        4
    } else if kind == 7 {
        5
    } else {
        6
    }
}

/// The generator rules of level `level`.
pub fn level_rules(level: usize) -> (r: LevelRules)
    requires
        level < NUM_LEVELS,
    ensures
        r.type_weights@ == level_weights(level as int),
        r.plat_w_min == level_width_min(level as int),
        r.plat_w_max == level_width_max(level as int),
        r.has_enemies == level_has_enemies(level as int),
        r.enemy_chance == level_enemy_chance(level as int),
{
    let r = match level {
        0 => LevelRules { type_weights: [10, 0, 0, 0, 0, 0, 0, 0, 0, 0], plat_w_min: 110, plat_w_max: 180, has_enemies: false, enemy_chance: 0 },
        1 => LevelRules { type_weights: [7, 3, 0, 0, 0, 0, 0, 0, 0, 0], plat_w_min: 100, plat_w_max: 170, has_enemies: false, enemy_chance: 0 },
        2 => LevelRules { type_weights: [6, 2, 0, 3, 0, 0, 0, 0, 0, 0], plat_w_min: 95, plat_w_max: 160, has_enemies: false, enemy_chance: 0 },
        3 => LevelRules { type_weights: [5, 2, 2, 1, 0, 1, 2, 0, 0, 0], plat_w_min: 90, plat_w_max: 150, has_enemies: false, enemy_chance: 0 },
        4 => LevelRules { type_weights: [4, 2, 1, 1, 2, 1, 1, 0, 0, 3], plat_w_min: 85, plat_w_max: 145, has_enemies: false, enemy_chance: 0 },
        5 => LevelRules { type_weights: [4, 2, 1, 2, 1, 1, 1, 2, 0, 1], plat_w_min: 85, plat_w_max: 140, has_enemies: true, enemy_chance: 10 },
        6 => LevelRules { type_weights: [3, 2, 1, 1, 1, 1, 1, 1, 4, 1], plat_w_min: 80, plat_w_max: 140, has_enemies: true, enemy_chance: 8 },
        7 => LevelRules { type_weights: [3, 3, 1, 2, 2, 1, 2, 1, 1, 1], plat_w_min: 80, plat_w_max: 135, has_enemies: true, enemy_chance: 7 },
        8 => LevelRules { type_weights: [2, 2, 1, 2, 4, 1, 1, 1, 1, 1], plat_w_min: 75, plat_w_max: 130, has_enemies: true, enemy_chance: 6 },
        _ => LevelRules { type_weights: [2, 2, 2, 2, 2, 2, 2, 2, 2, 2], plat_w_min: 70, plat_w_max: 125, has_enemies: true, enemy_chance: 5 },
    };
    assert(r.type_weights@ =~= level_weights(level as int));
    r
}

/// Every level's table can be rolled from: ten weights, none negative, a positive total that
/// fits (with every running sum) in an `i32`, and a width range that is not empty.
pub proof fn lemma_level_tables_sound(level: int)
    requires
        0 <= level < NUM_LEVELS,
    ensures
        level_weights(level).len() == 10,
        weights_nonnegative(level_weights(level)),
        prefixes_fit(level_weights(level)),
        weight_prefix(level_weights(level), 10) > 0,
        0 < level_width_min(level) <= level_width_max(level),
{
    let w = level_weights(level);
    assert(w.len() == 10);
    assert(weight_prefix(w, 10) > 0 && forall|k: int| 0 <= k <= 10 ==> 0 <= #[trigger] weight_prefix(w, k) <= 20) by {
        reveal_with_fuel(weight_prefix, 11);
    }
}

/// Each platform kind appears from the level that introduces it on, and never before: a
/// kind has weight on a level exactly when the level is at or after its introduction.
/// So Meadow has only normal platforms, lava starts on Volcano, clouds on Sky City, and
/// Cosmic Core has every kind.
pub proof fn lemma_kinds_arrive_in_order(level: int, kind: int)
    requires
        0 <= level < NUM_LEVELS,
        0 <= kind < 10,
    ensures
        level_weights(level)[kind] > 0 <==> level >= introduced_on(kind),
{
}

/// A platform generated on a level is always of a kind that level has introduced: on
/// Meadow every platform is normal, and no lava comes before Volcano.
pub proof fn lemma_generated_kind_introduced(level: int, pick: int)
    requires
        0 <= level < NUM_LEVELS,
        0 <= pick < weight_prefix(level_weights(level), 10),
    ensures
        introduced_on(platform_type_index(chosen_type(level_weights(level), pick))) <= level,
        level == 0 ==> chosen_type(level_weights(level), pick) == PlatformType::Normal,
        level < 5 ==> chosen_type(level_weights(level), pick) != PlatformType::Lava,
{
    lemma_level_tables_sound(level);
    lemma_weighted_choice(level_weights(level), pick, 0);
    let t = chosen_type(level_weights(level), pick);
    lemma_kinds_arrive_in_order(level, platform_type_index(t));
}

/// Enemies come from Volcano (level 6, counted from 1) on, and never before.
pub proof fn lemma_enemies_from_volcano(level: int)
    requires
        0 <= level < NUM_LEVELS,
    ensures
        (level_has_enemies(level) && level_enemy_chance(level) > 0) <==> level >= 5,
{
}

/// Deep Space has the most disappearing platforms: its weight for them is above every other
/// level's.
pub proof fn lemma_deep_space_fades_most(level: int)
    requires
        0 <= level < NUM_LEVELS,
        level != 8,
    ensures
        level_weights(8)[4] > level_weights(level)[4],
{
}

} // verus!
