//! The abstract input actions the menus and the console react to.
//!
//! The engine maps keys and gamepad buttons onto these actions; the game's
//! rules only ever see the action.

use vstd::prelude::*;

verus! {

/// An action pressed while a menu or the console is shown.
#[derive(Clone, Copy, Debug, PartialEq, Eq, Structural, Hash)]
pub enum UiAction {
    /// Move the selection up.
    Up,
    /// Move the selection down.
    Down,
    /// Confirm the selected choice.
    Select,
    /// Start or restart the game.
    Start,
}

} // verus!
