//! Goal tiles and what bumping into one does.
//!
//! When a living player touches a goal, the goal is consumed and the console
//! opens with a question — unless every question has already been asked, in
//! which case the game is over. A dead player's collisions are ignored.

use crate::player::SpriteSheetAnimation;
use crate::player::Vitality;
use crate::quiz::{all_questions_used, spec_all_used, Question};
use crate::{GameState, LevelState};
use vstd::prelude::*;

verus! {

/// Marker for a goal tile of the first map.
#[derive(Clone, Copy, Debug, PartialEq, Eq, Structural, Default)]
pub struct Goal;

impl From<Goal> for SpriteSheetAnimation {
    /// A goal tile's slow two-frame shimmer.
    fn from(_goal: Goal) -> (r: Self) {
        SpriteSheetAnimation { first_frame: 66, end_frame: 68, frame_ms: 500, repeat: true }
    }
}

impl vstd::std_specs::convert::FromSpecImpl<Goal> for SpriteSheetAnimation {
    open spec fn obeys_from_spec() -> bool {
        true
    }

    open spec fn from_spec(_goal: Goal) -> Self {
        SpriteSheetAnimation { first_frame: 66, end_frame: 68, frame_ms: 500, repeat: true }
    }
}

/// Marker for a decorative eye tile.
#[derive(Clone, Copy, Debug, PartialEq, Eq, Structural, Default)]
pub struct Eye;

impl From<Eye> for SpriteSheetAnimation {
    /// An eye tile's slow two-frame blink.
    fn from(_eye: Eye) -> (r: Self) {
        SpriteSheetAnimation { first_frame: 7, end_frame: 9, frame_ms: 500, repeat: true }
    }
}

impl vstd::std_specs::convert::FromSpecImpl<Eye> for SpriteSheetAnimation {
    open spec fn obeys_from_spec() -> bool {
        true
    }

    open spec fn from_spec(_eye: Eye) -> Self {
        SpriteSheetAnimation { first_frame: 7, end_frame: 9, frame_ms: 500, repeat: true }
    }
}

/// Marker for a goal tile of the alternate map.
#[derive(Clone, Copy, Debug, PartialEq, Eq, Structural, Default)]
pub struct AltGoal;

impl From<AltGoal> for SpriteSheetAnimation {
    /// An alternate goal tile's four-frame sparkle.
    fn from(_goal: AltGoal) -> (r: Self) {
        SpriteSheetAnimation { first_frame: 192, end_frame: 196, frame_ms: 100, repeat: true }
    }
}

impl vstd::std_specs::convert::FromSpecImpl<AltGoal> for SpriteSheetAnimation {
    open spec fn obeys_from_spec() -> bool {
        true
    }

    open spec fn from_spec(_goal: AltGoal) -> Self {
        SpriteSheetAnimation { first_frame: 192, end_frame: 196, frame_ms: 100, repeat: true }
    }
}

/// Reacts to a player touching a goal of the first map: a living player
/// consumes the goal and the console opens; a dead player's touch is ignored.
pub fn player_goal_collision(vitality: Vitality) -> (r: Option<LevelState>)
    ensures
        r == if vitality == Vitality::Alive {
            Some(LevelState::Console)
        } else {
            None::<LevelState>
        },
{
    if vitality == Vitality::Alive {
        Some(LevelState::Console)
    } else {
        None
    }
}

/// What touching a goal of the alternate map did.
#[derive(Clone, Copy, Debug, PartialEq, Eq, Structural)]
pub enum GoalCollisionOutcome {
    /// The player is dead: the goal stays and nothing happens.
    Ignored,
    /// The goal is consumed, but every question has been asked: the game is
    /// over.
    OutOfQuestions(GameState),
    /// The goal is consumed and the console opens with a question.
    EnterConsole(LevelState),
}

/// Reacts to a player touching a goal of the alternate map. A living player
/// consumes the goal; the console then opens, unless every question has been
/// asked already, which ends the game. A dead player's touch is ignored.
pub fn player_alt_goal_collision(vitality: Vitality, questions: &Vec<Question>) -> (r:
    GoalCollisionOutcome)
    ensures
        vitality != Vitality::Alive ==> r == GoalCollisionOutcome::Ignored,
        vitality == Vitality::Alive && spec_all_used(questions@) ==> r
            == GoalCollisionOutcome::OutOfQuestions(GameState::GameOver),
        vitality == Vitality::Alive && !spec_all_used(questions@) ==> r
            == GoalCollisionOutcome::EnterConsole(LevelState::Console),
{
    if vitality == Vitality::Alive {
        if all_questions_used(questions) {
            GoalCollisionOutcome::OutOfQuestions(GameState::GameOver)
        } else {
            GoalCollisionOutcome::EnterConsole(LevelState::Console)
        }
    } else {
        GoalCollisionOutcome::Ignored
    }
}

} // verus!
