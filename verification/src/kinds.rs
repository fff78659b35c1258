use vstd::prelude::*;

verus! {

/// The phases of a session, as the frame loop sees them.
#[derive(Debug, Clone, Copy, PartialEq, Eq, Structural)]
pub enum GameState {
    Menu,
    Playing,
    Paused,
    GameOver,
    LevelTrans,
    Win,
}

impl GameState {
    /// The number by which the page's HUD script knows each phase.
    pub fn code(self) -> (c: i32)
        ensures
            c == match self {
                GameState::Menu => 0i32,
                GameState::Playing => 1i32,
                GameState::Paused => 2i32,
                GameState::GameOver => 3i32,
                GameState::LevelTrans => 4i32,
                GameState::Win => 5i32,
            },
    {
        match self {
            GameState::Menu => 0,
            GameState::Playing => 1,
            GameState::Paused => 2,
            GameState::GameOver => 3,
            GameState::LevelTrans => 4,
            GameState::Win => 5,
        }
    }
}


/// The ten kinds of platform, in the order of a level's weight table.
#[derive(Debug, Clone, Copy, PartialEq, Eq, Structural)]
pub enum PlatformType {
    Normal,
    Moving,
    Bouncy,
    Crumble,
    Disappear,
    Spring,
    Conveyor,
    Lava,
    Cloud,
    Ice,
}

/// How many platform kinds there are: the length of a level's weight table.
pub const PLAT_TYPE_COUNT: usize = 10;

/// The kind that stands at position `i` of a weight table.
pub open spec fn platform_type_at(i: int) -> PlatformType {
    if i == 0 {
        PlatformType::Normal
    } else if i == 1 {
        PlatformType::Moving
    } else if i == 2 {
        PlatformType::Bouncy
    } else if i == 3 {
        PlatformType::Crumble
    } else if i == 4 {
        PlatformType::Disappear
    } else if i == 5 {
        PlatformType::Spring
    } else if i == 6 {
        PlatformType::Conveyor
    } else if i == 7 {
        PlatformType::Lava
    } else if i == 8 {
        PlatformType::Cloud
    } else {
        PlatformType::Ice
    }
}

/// The position of a kind in a weight table.
pub open spec fn platform_type_index(t: PlatformType) -> int {
    match t {
        PlatformType::Normal => 0,
        PlatformType::Moving => 1,
        PlatformType::Bouncy => 2,
        PlatformType::Crumble => 3,
        PlatformType::Disappear => 4,
        PlatformType::Spring => 5,
        PlatformType::Conveyor => 6,
        PlatformType::Lava => 7,
        PlatformType::Cloud => 8,
        PlatformType::Ice => 9,
    }
}

impl PlatformType {
    /// The kind at position `i` of a weight table.
    pub fn from_index(i: usize) -> (t: PlatformType)
        requires
            i < PLAT_TYPE_COUNT,
        ensures
            t == platform_type_at(i as int),
            platform_type_index(t) == i,
    {
        if i == 0 {
            PlatformType::Normal
        } else if i == 1 {
            PlatformType::Moving
        } else if i == 2 {
            PlatformType::Bouncy
        } else if i == 3 {
            PlatformType::Crumble
        } else if i == 4 {
            PlatformType::Disappear
        } else if i == 5 {
            PlatformType::Spring
        } else if i == 6 {
            PlatformType::Conveyor
        } else if i == 7 {
            PlatformType::Lava
        } else if i == 8 {
            PlatformType::Cloud
        } else {
            PlatformType::Ice
        }
    }

    /// The position of this kind in a weight table (and in the colour table).
    pub fn index(self) -> (i: usize)
        ensures
            i == platform_type_index(self),
            i < PLAT_TYPE_COUNT,
            platform_type_at(i as int) == self,
    {
        match self {
            PlatformType::Normal => 0,
            PlatformType::Moving => 1,
            PlatformType::Bouncy => 2,
            PlatformType::Crumble => 3,
            PlatformType::Disappear => 4,
            PlatformType::Spring => 5,
            PlatformType::Conveyor => 6,
            PlatformType::Lava => 7,
            PlatformType::Cloud => 8,
            PlatformType::Ice => 9,
        }
    }
}

/// The three kinds of enemy: a floating wraith that sways on a fixed path, a turret that
/// fires downward, and a chaser that homes in on the player.
#[derive(Debug, Clone, Copy, PartialEq, Eq, Structural)]
pub enum EnemyType {
    Wraith,
    Turret,
    Chaser,
}

/// The three kinds of power-up a platform may carry.
#[derive(Debug, Clone, Copy, PartialEq, Eq, Structural)]
pub enum PowerupType {
    Jetpack,
    Shield,
    Star,
}

} // verus!
