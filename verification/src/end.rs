//! The winning and losing end screens, and the reset they offer.
//!
//! Both end screens show a title in a color of their own; the winning one
//! adds a small aside. Pressing start on either screen resets the run: the
//! score returns to zero, every question becomes askable again, the level
//! phase goes idle, and the game returns to the controls screen.

use crate::quiz::{reset_questions, Question};
use crate::ui::{Score, UiColor};
use crate::{GameState, LevelState};
use vstd::prelude::*;

verus! {

/// Marker for an end screen's root node.
#[derive(Clone, Copy, Debug, PartialEq, Eq, Structural, Default)]
pub struct EndScreen;

/// Marker for the end screen's reset button.
#[derive(Clone, Copy, Debug, PartialEq, Eq, Structural, Default)]
pub struct ResetButton;

/// The title shown on an end screen.
pub fn end_screen_title(win: bool) -> (r: String)
    ensures
        win ==> r@ == "YOU WIN!\nCOLLECT A PATH TAG!"@,
        !win ==> r@ == "GAME OVER!"@,
{
    if win {
        String::from_str("YOU WIN!\nCOLLECT A PATH TAG!")
    } else {
        String::from_str("GAME OVER!")
    }
}

/// The color an end screen's title is drawn in.
pub fn end_screen_title_color(win: bool) -> (r: UiColor)
    ensures
        r == if win {
            UiColor::Pink
        } else {
            UiColor::Red
        },
{
    if win {
        UiColor::Pink
    } else {
        UiColor::Red
    }
}

/// The aside shown under the title, on the winning screen only.
pub fn end_screen_subtitle(win: bool) -> (r: Option<String>)
    ensures
        win ==> (r matches Some(s) && s@ == "(Limit of 1 path tag per family please)"@),
        !win ==> r is None,
{
    if win {
        Some(String::from_str("(Limit of 1 path tag per family please)"))
    } else {
        None
    }
}

/// Reacts to input on an end screen: pressing start resets the run — score to
/// zero, every question askable again, level phase idle, game back on the
/// controls screen. Anything else changes nothing.
pub fn reset_state(start_pressed: bool, score: &mut Score, questions: &mut Vec<Question>) -> (r:
    Option<(GameState, LevelState)>)
    ensures
        !start_pressed ==> {
            &&& r is None
            &&& *final(score) == *old(score)
            &&& final(questions)@ == old(questions)@
        },
        start_pressed ==> {
            &&& r == Some((GameState::Controls, LevelState::Idle))
            &&& final(score).0 == 0
            &&& final(questions)@.len() == old(questions)@.len()
            &&& forall|i: int|
                0 <= i < final(questions)@.len() ==> {
                    &&& !(#[trigger] final(questions)@[i]).used
                    &&& final(questions)@[i].description == old(questions)@[i].description
                    &&& final(questions)@[i].options@ == old(questions)@[i].options@
                    &&& final(questions)@[i].answer == old(questions)@[i].answer
                }
        },
{
    if start_pressed {
        score.0 = 0;
        reset_questions(questions);
        Some((GameState::Controls, LevelState::Idle))
    } else {
        None
    }
}

} // verus!
