//! Rules of a small arcade/trivia hybrid game, stated and verified over plain
//! values.
//!
//! The game alternates between an overworld phase, where a player runs into
//! goal tiles, and a console phase, where a multiple-choice trivia question is
//! asked. Answering five questions correctly wins the game; letting the level
//! clock run out loses it. This crate holds the game's decision rules: the
//! top-level and in-level state machines, the countdown clock with its win and
//! lose thresholds, the question bank with random selection and scoring, menu
//! and console input handling, and the plain-value tables (animations,
//! colliders, display text) that the engine-facing code reads from.

pub mod actions;
pub mod clock;
pub mod collider;
pub mod console;
pub mod end;
pub mod game_over;
pub mod goal;
pub mod levels;
pub mod menu;
pub mod player;
pub mod quiz;
mod rng;
pub mod text;
pub mod trigger;
pub mod ui;

use vstd::prelude::*;

verus! {

/// Top-level phase of the game.
#[derive(Clone, Copy, Debug, PartialEq, Eq, Structural, Hash)]
pub enum GameState {
    /// Assets are being loaded; the game starts here.
    Loading,
    /// The main menu is shown.
    Menu,
    /// The controls screen is shown before play begins.
    Controls,
    /// The game is being played.
    Playing,
    /// The losing end screen is shown.
    GameOver,
    /// The winning end screen is shown.
    WinScreen,
}

impl Default for GameState {
    /// The game starts in the loading phase.
    fn default() -> (r: Self)
        ensures
            r == GameState::Loading,
    {
        GameState::Loading
    }
}

/// Sub-phase while the game is in `GameState::Playing`.
#[derive(Clone, Copy, Debug, PartialEq, Eq, Structural, Hash)]
pub enum LevelState {
    /// No level phase is active.
    Idle,
    /// The player moves around the level.
    OverWorld,
    /// The console asks a trivia question.
    Console,
    /// A wrong answer was given; a splash screen is shown.
    Wrong,
}

impl Default for LevelState {
    /// Before play begins no level phase is active.
    fn default() -> (r: Self)
        ensures
            r == LevelState::Idle,
    {
        LevelState::Idle
    }
}

} // verus!
