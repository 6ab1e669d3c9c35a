//! The main menu and the controls screen.
//!
//! Pressing start on the main menu opens the controls screen; pressing start
//! there begins play: the game enters its playing phase, the level enters the
//! overworld, and a level start is announced so the clock resets.

use crate::{GameState, LevelState};
use vstd::prelude::*;

verus! {

/// Announcement that a level has just started; the clock resets on it.
#[derive(Clone, Copy, Debug, PartialEq, Eq, Structural, Default)]
pub struct LevelStart;

/// A color by its three eight-bit channels.
#[derive(Clone, Copy, Debug, PartialEq, Eq, Structural)]
pub struct Rgb {
    pub red: u8,
    pub green: u8,
    pub blue: u8,
}

/// The colors menu buttons are drawn in.
#[derive(Clone, Copy, Debug, PartialEq, Eq, Structural)]
pub struct ButtonColors {
    pub normal: Rgb,
}

impl Default for ButtonColors {
    /// Menu buttons are drawn in the game's purple.
    fn default() -> (r: Self)
        ensures
            r.normal == (Rgb { red: 148u8, green: 32u8, blue: 106u8 }),
    {
        ButtonColors { normal: Rgb { red: 148, green: 32, blue: 106 } }
    }
}

/// Reacts to input on the main menu: pressing start opens the controls
/// screen, anything else changes nothing.
pub fn click_play_button(start_pressed: bool) -> (r: Option<GameState>)
    ensures
        r == if start_pressed {
            Some(GameState::Controls)
        } else {
            None::<GameState>
        },
{
    if start_pressed {
        Some(GameState::Controls)
    } else {
        None
    }
}

/// Reacts to input on the controls screen: pressing start begins play in the
/// overworld and announces a level start; anything else changes nothing.
pub fn click_control_play_button(start_pressed: bool) -> (r: Option<
    (GameState, LevelState, LevelStart),
>)
    ensures
        r == if start_pressed {
            Some((GameState::Playing, LevelState::OverWorld, LevelStart))
        } else {
            None::<(GameState, LevelState, LevelStart)>
        },
{
    if start_pressed {
        Some((GameState::Playing, LevelState::OverWorld, LevelStart))
    } else {
        None
    }
}

} // verus!
