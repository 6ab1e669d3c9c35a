//! The game-over screen and the restart it offers.
//!
//! Losing shows a black screen with a restart prompt. Pressing the restart
//! key clears the score and begins a fresh level: the game returns to its
//! playing phase, the level to the overworld, and a level start is announced.

use crate::menu::LevelStart;
use crate::ui::Score;
use crate::{GameState, LevelState};
use vstd::prelude::*;

verus! {

/// Marker for the game-over screen's root node.
#[derive(Clone, Copy, Debug, PartialEq, Eq, Structural, Hash, Default)]
pub struct GameOverScreen;

/// The text shown on the game-over screen.
pub fn game_over_text() -> (r: String)
    ensures
        r@ == "GAME OVER\n\n[Press Space to Restart]"@,
{
    String::from_str("GAME OVER\n\n[Press Space to Restart]")
}

/// Clears the score when the game-over screen is left.
pub fn reset_score(score: &mut Score)
    ensures
        final(score).0 == 0,
{
    score.0 = 0;
}

/// Reacts to input on the game-over screen: pressing the restart key begins a
/// fresh level in the overworld and announces a level start; anything else
/// changes nothing.
pub fn game_over_start_new_game(restart_pressed: bool) -> (r: Option<
    (GameState, LevelState, LevelStart),
>)
    ensures
        r == if restart_pressed {
            Some((GameState::Playing, LevelState::OverWorld, LevelStart))
        } else {
            None::<(GameState, LevelState, LevelStart)>
        },
{
    if restart_pressed {
        Some((GameState::Playing, LevelState::OverWorld, LevelStart))
    } else {
        None
    }
}

} // verus!
