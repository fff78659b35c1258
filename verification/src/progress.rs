use vstd::prelude::*;

use crate::combat::{kill_bonus, spec_kill_bonus};
use crate::kinds::{GameState, PlatformType};
use crate::platform::PlatformStatus;
use crate::player::FallOutcome;

verus! {

/// How many levels there are.
pub const NUM_LEVELS: usize = 10;

/// The height, in world units, at which each level begins.
pub const LEVEL_THRESHOLDS: [i64; 10] = [0, 800, 2000, 3500, 5000, 7500, 9800, 12400, 15400, 19000];

/// The threshold of level `i`.
pub open spec fn threshold(i: int) -> int {
    if i <= 0 {
        0
    } else if i == 1 {
        800
    } else if i == 2 {
        2000
    } else if i == 3 {
        3500
    } else if i == 4 {
        5000
    } else if i == 5 {
        7500
    } else if i == 6 {
        9800
    } else if i == 7 {
        12400
    } else if i == 8 {
        15400
    } else {
        19000
    }
}

/// The level for a climbed height: the highest level whose threshold the height has
/// reached, and level 0 below every threshold.
pub open spec fn spec_level_for_height(h: int) -> int {
    if h >= threshold(9) {
        9
    } else if h >= threshold(8) {
        8
    } else if h >= threshold(7) {
        7
    } else if h >= threshold(6) {
        6
    } else if h >= threshold(5) {
        5
    } else if h >= threshold(4) {
        4
    } else if h >= threshold(3) {
        3
    } else if h >= threshold(2) {
        2
    } else if h >= threshold(1) {
        1
    } else {
        0
    }
}

/// The level for the highest point climbed, given in whole world units (the height
/// rounded down: every threshold is whole, so a height reaches a threshold exactly when
/// its whole part does).
pub fn level_for_height(h: i64) -> (lv: usize)
    ensures
        lv == spec_level_for_height(h as int),
        lv < NUM_LEVELS,
{
    let thresholds = LEVEL_THRESHOLDS;
    assert(forall|i: int| 0 <= i < 10 ==> thresholds[i] == threshold(i));
    let mut i: usize = NUM_LEVELS;
    while i > 0
        invariant
            0 <= i <= 10,
            forall|j: int| 0 <= j < 10 ==> thresholds[j] == threshold(j),
            forall|j: int| i <= j < 10 ==> h < threshold(j),
        decreases i,
    {
        i = i - 1;
        if h >= thresholds[i] {
            return i;
        }
    }
    0
}

/// What a frame does, decided from the phase and the menu keys.
#[derive(Debug, Clone, Copy, PartialEq, Eq, Structural)]
pub enum FrameStep {
    /// Start a new run from level 0 and do nothing else this frame.
    NewRun,
    /// Leave the world as it is this frame.
    Hold,
    /// Run the world for one frame.
    Simulate,
}

/// The phase after the menu keys, and what the frame does: on the menu or the game-over
/// screen Enter starts a run; while paused, Enter or Escape resumes (the world stays still
/// that frame); while playing, Escape pauses, yet that frame still runs; the other phases
/// run the world.
pub open spec fn spec_frame_control(state: GameState, enter: bool, escape: bool) -> (GameState, FrameStep) {
    match state {
        GameState::Menu | GameState::GameOver => if enter {
            (GameState::Playing, FrameStep::NewRun)
        } else {
            (state, FrameStep::Hold)
        },
        GameState::Paused => if enter || escape {
            (GameState::Playing, FrameStep::Hold)
        } else {
            (state, FrameStep::Hold)
        },
        GameState::Playing => if escape {
            (GameState::Paused, FrameStep::Simulate)
        } else {
            (state, FrameStep::Simulate)
        },
        _ => (state, FrameStep::Simulate),
    }
}

/// The run-wide bookkeeping: the phase, the level, the scores and whether the checkpoint
/// (whose position the caller keeps) can be used.
#[derive(Debug, Clone, Copy, PartialEq, Eq, Structural)]
pub struct Progress {
    pub state: GameState,
    pub level: usize,
    pub score: i32,
    pub high_score: i32,
    pub cp_valid: bool,
    pub cp_level: usize,
}

impl Progress {
    /// The invariant every value reached through these operations keeps.
    pub open spec fn wf(self) -> bool {
        &&& self.level < NUM_LEVELS
        &&& self.cp_level < NUM_LEVELS
    }

    /// The bookkeeping when the game starts: on the menu, level 0, no score yet, the best
    /// score `high_score` remembered from earlier sessions.
    pub fn new(high_score: i32) -> (p: Progress)
        ensures
            p == (Progress {
                state: GameState::Menu,
                level: 0,
                score: 0,
                high_score,
                cp_valid: false,
                cp_level: 0,
            }),
            p.wf(),
    {
        Progress { state: GameState::Menu, level: 0, score: 0, high_score, cp_valid: false, cp_level: 0 }
    }

    /// Starts a run at level `from_level`: score cleared, no checkpoint, playing.
    pub fn reset(&mut self, from_level: usize)
        requires
            from_level < NUM_LEVELS,
        ensures
            *final(self) == (Progress {
                state: GameState::Playing,
                level: from_level,
                score: 0,
                cp_valid: false,
                cp_level: from_level,
                ..*old(self)
            }),
            final(self).wf(),
    {
        self.score = 0;
        self.level = from_level;
        self.cp_valid = false;
        self.cp_level = from_level;
        self.state = GameState::Playing;
    }

    /// Sets up a run at level `from_level` behind the menu: as `reset`, but the phase stays
    /// on the menu until Enter starts play.
    pub fn reset_on_menu(&mut self, from_level: usize)
        requires
            from_level < NUM_LEVELS,
        ensures
            *final(self) == (Progress {
                state: GameState::Menu,
                level: from_level,
                score: 0,
                cp_valid: false,
                cp_level: from_level,
                ..*old(self)
            }),
            final(self).wf(),
    {
        self.reset(from_level);
        self.state = GameState::Menu;
    }

    /// Reads the menu keys for this frame (see `spec_frame_control`). The phase becomes
    /// `Playing` for a new run too; the caller then starts the run.
    pub fn frame_control(&mut self, enter: bool, escape: bool) -> (step: FrameStep)
        ensures
            (final(self).state, step) == spec_frame_control(old(self).state, enter, escape),
            old(self).state == GameState::Menu || old(self).state == GameState::GameOver ==> (step
                == FrameStep::NewRun) == enter && (!enter ==> step == FrameStep::Hold && final(self).state
                == old(self).state) && (enter ==> final(self).state == GameState::Playing),
            *final(self) == (Progress { state: final(self).state, ..*old(self) }),
    {
        match self.state {
            GameState::Menu | GameState::GameOver => {
                if enter {
                    self.state = GameState::Playing;
                    FrameStep::NewRun
                } else {
                    FrameStep::Hold
                }
            },
            GameState::Paused => {
                if enter || escape {
                    self.state = GameState::Playing;
                }
                FrameStep::Hold
            },
            GameState::Playing => {
                if escape {
                    self.state = GameState::Paused;
                }
                FrameStep::Simulate
            },
            _ => FrameStep::Simulate,
        }
    }

    /// Adds the bonus for `killed` enemies shot down this frame, when there are any.
    pub fn add_kill_bonus(&mut self, killed: i32)
        requires
            old(self).level < NUM_LEVELS,
            0 <= killed,
            spec_kill_bonus(old(self).level as int, killed as int) <= i32::MAX,
            old(self).score + spec_kill_bonus(old(self).level as int, killed as int) <= i32::MAX,
        ensures
            *final(self) == (Progress {
                score: (old(self).score + spec_kill_bonus(old(self).level as int, killed as int)) as i32,
                ..*old(self)
            }),
            final(self).score == old(self).score + 50 * (old(self).level + 1) * killed,
    {
        if killed > 0 {
            let b = kill_bonus(self.level, killed);
            self.score = self.score + b;
        } else {
            assert(spec_kill_bonus(self.level as int, 0) == 0) by (nonlinear_arith);
        }
    }

    /// Takes in the score the climbed height is worth: the score rises to it if it is
    /// higher, and the best score rises to the score. `true` when the best score rose, so
    /// that the caller saves it.
    pub fn refresh_score(&mut self, height_score: i32) -> (new_best: bool)
        ensures
            final(self).score == if height_score > old(self).score { height_score } else { old(self).score },
            final(self).high_score == if final(self).score > old(self).high_score {
                final(self).score
            } else {
                old(self).high_score
            },
            new_best == (final(self).high_score > old(self).high_score),
            *final(self) == (Progress {
                score: final(self).score,
                high_score: final(self).high_score,
                ..*old(self)
            }),
            final(self).score >= old(self).score,
            final(self).high_score >= final(self).score,
            final(self).high_score >= old(self).high_score,
    {
        if height_score > self.score {
            self.score = height_score;
        }
        if self.score > self.high_score {
            self.high_score = self.score;
            true
        } else {
            false
        }
    }

    /// Moves to the level `new_level` if it differs from the current one, which also drops
    /// the checkpoint; `true` when the level changed.
    pub fn enter_level(&mut self, new_level: usize) -> (changed: bool)
        requires
            new_level < NUM_LEVELS,
        ensures
            changed == (new_level != old(self).level),
            changed ==> *final(self) == (Progress {
                level: new_level,
                cp_valid: false,
                cp_level: new_level,
                ..*old(self)
            }),
            !changed ==> *final(self) == *old(self),
            old(self).wf() ==> final(self).wf(),
    {
        if new_level != self.level {
            self.level = new_level;
            self.cp_valid = false;
            self.cp_level = new_level;
            true
        } else {
            false
        }
    }

    /// After a landing on `plat`, makes it the checkpoint: the respawn point is the last
    /// platform landed on, unless the platform may vanish (crumbling or disappearing);
    /// `true` when it moved (the caller then records the position).
    pub fn checkpoint_landing(&mut self, plat: &PlatformStatus) -> (moved: bool)
        ensures
            moved == (plat.plat_type != PlatformType::Disappear && plat.plat_type != PlatformType::Crumble),
            moved ==> *final(self) == (Progress { cp_valid: true, cp_level: old(self).level, ..*old(self) }),
            !moved ==> *final(self) == *old(self),
            old(self).wf() ==> final(self).wf(),
    {
        if plat.allows_checkpoint() {
            self.set_checkpoint();
            true
        } else {
            false
        }
    }

    /// Records that the checkpoint was just set on the current level.
    pub fn set_checkpoint(&mut self)
        ensures
            *final(self) == (Progress { cp_valid: true, cp_level: old(self).level, ..*old(self) }),
            old(self).wf() ==> final(self).wf(),
    {
        self.cp_valid = true;
        self.cp_level = self.level;
    }

    /// Whether a respawn should first look near the checkpoint: it is set, and on this level.
    pub fn checkpoint_usable(&self) -> (b: bool)
        ensures
            b == (self.cp_valid && self.cp_level == self.level),
    {
        self.cp_valid && self.cp_level == self.level
    }

    /// Records what a fall cost: the run ends on the last life, and a respawn makes the
    /// respawn point the checkpoint of this level.
    pub fn record_fall(&mut self, outcome: FallOutcome)
        ensures
            outcome == FallOutcome::GameOver ==> *final(self) == (Progress { state: GameState::GameOver, ..*old(self) }),
            outcome == FallOutcome::Respawn ==> *final(self) == (Progress {
                cp_valid: true,
                cp_level: old(self).level,
                ..*old(self)
            }),
            outcome == FallOutcome::Unharmed ==> *final(self) == *old(self),
            old(self).wf() ==> final(self).wf(),
    {
        match outcome {
            FallOutcome::GameOver => {
                self.state = GameState::GameOver;
            },
            FallOutcome::Respawn => {
                self.set_checkpoint();
            },
            FallOutcome::Unharmed => {},
        }
    }
}

/// Climbing higher never lowers the level: the level is monotone in the height.
pub proof fn lemma_level_monotone(h1: int, h2: int)
    requires
        h1 <= h2,
    ensures
        spec_level_for_height(h1) <= spec_level_for_height(h2),
{
}

/// The level of a height is the one whose band holds it: its threshold is reached, and the
/// next level's is not (there is none above the last level).
pub proof fn lemma_level_band(h: int)
    requires
        h >= 0,
    ensures
        0 <= spec_level_for_height(h) < NUM_LEVELS,
        threshold(spec_level_for_height(h)) <= h,
        spec_level_for_height(h) < 9 ==> h < threshold(spec_level_for_height(h) + 1),
{
}

/// On the menu and on the game-over screen, a new run starts exactly when Enter is
/// pressed; without Enter the screen stays and the world holds, whatever else is pressed.
pub proof fn lemma_menu_waits_for_enter(state: GameState, enter: bool, escape: bool)
    requires
        state == GameState::Menu || state == GameState::GameOver,
    ensures
        (spec_frame_control(state, enter, escape).1 == FrameStep::NewRun) == enter,
        !enter ==> spec_frame_control(state, enter, escape) == (state, FrameStep::Hold),
        enter ==> spec_frame_control(state, enter, escape).0 == GameState::Playing,
{
}

/// A new run starts only from the menu or the game-over screen, and only on Enter.
pub proof fn lemma_new_run_needs_enter(state: GameState, enter: bool, escape: bool)
    requires
        spec_frame_control(state, enter, escape).1 == FrameStep::NewRun,
    ensures
        enter,
        state == GameState::Menu || state == GameState::GameOver,
{
}

/// The pause: while paused, on the menu or after the game is over, the world never moves;
/// Escape during play pauses; a pause lasts until Enter or Escape, and the frame that
/// resumes keeps the world still too.
pub proof fn lemma_pause_holds_the_world(enter: bool, escape: bool)
    ensures
        spec_frame_control(GameState::Paused, enter, escape).1 == FrameStep::Hold,
        spec_frame_control(GameState::Paused, enter, escape).0 == if enter || escape {
            GameState::Playing
        } else {
            GameState::Paused
        },
        spec_frame_control(GameState::Menu, enter, escape).1 != FrameStep::Simulate,
        spec_frame_control(GameState::GameOver, enter, escape).1 != FrameStep::Simulate,
        spec_frame_control(GameState::Playing, enter, true).0 == GameState::Paused,
        spec_frame_control(GameState::Playing, enter, escape).1 == FrameStep::Simulate,
{
}

} // verus!
