//! In-game overlay: the countdown readout and the score readout.
//!
//! The countdown shows how much of the two-minute display window is left,
//! as `MM:SS`, and blinks red on even seconds once thirty-one seconds or less
//! remain. The score shows how many questions have been answered correctly
//! out of the five needed to win.

use crate::text::{spec_decimal, spec_two_digits, two_digit_text, u32_text};
use vstd::prelude::*;

verus! {

/// Milliseconds the countdown readout counts down from.
pub const COUNTDOWN_WINDOW_MS: u32 = 120_000;

/// Once the remaining display time is at or below this many milliseconds the
/// readout blinks.
pub const BLINK_THRESHOLD_MS: u32 = 31_000;

/// Marker for the countdown text node.
#[derive(Clone, Copy, Debug, PartialEq, Eq, Structural, Hash, Default)]
pub struct Counter;

/// Marker for the countdown box of the overlay.
#[derive(Clone, Copy, Debug, PartialEq, Eq, Structural, Default)]
pub struct GameUiClock;

/// Marker for the score box of the overlay.
#[derive(Clone, Copy, Debug, PartialEq, Eq, Structural, Default)]
pub struct GameUiScore;

/// How many questions have been answered correctly this run.
#[derive(Clone, Copy, Debug, PartialEq, Eq, Structural)]
pub struct Score(pub u32);

impl Default for Score {
    /// A new run starts with no correct answers.
    fn default() -> (r: Self)
        ensures
            r == Score(0u32),
    {
        Score(0)
    }
}

/// The colors the overlay and menus draw text and buttons in.
#[derive(Clone, Copy, Debug, PartialEq, Eq, Structural)]
pub enum UiColor {
    White,
    Red,
    Pink,
    Blue,
    DimGray,
}

/// Milliseconds of the countdown display window left at the given elapsed
/// time; zero once the window has passed.
pub open spec fn spec_remaining_ms(elapsed_ms: u32) -> int {
    if elapsed_ms >= COUNTDOWN_WINDOW_MS {
        0
    } else {
        COUNTDOWN_WINDOW_MS - elapsed_ms
    }
}

/// The minutes field of the countdown readout.
pub open spec fn spec_counter_minutes(elapsed_ms: u32) -> int {
    spec_remaining_ms(elapsed_ms) / 60_000
}

/// The seconds field of the countdown readout.
pub open spec fn spec_counter_seconds(elapsed_ms: u32) -> int {
    (spec_remaining_ms(elapsed_ms) / 1_000) % 60
}

/// The countdown readout blinks red on even seconds once thirty-one seconds
/// or less of the display window remain; otherwise it stays white.
pub open spec fn spec_counter_color(elapsed_ms: u32) -> UiColor {
    if spec_remaining_ms(elapsed_ms) <= BLINK_THRESHOLD_MS
        && spec_counter_seconds(elapsed_ms) % 2 == 0 {
        UiColor::Red
    } else {
        UiColor::White
    }
}

/// The countdown readout for the given elapsed level time: its `MM:SS` text
/// and the color it is drawn in.
pub fn update_counter(elapsed_ms: u32) -> (r: (String, UiColor))
    ensures
        r.0@ == spec_two_digits(spec_counter_minutes(elapsed_ms)) + seq![':'] + spec_two_digits(
            spec_counter_seconds(elapsed_ms),
        ),
        r.1 == spec_counter_color(elapsed_ms),
{
    let remaining_ms: u32 = if elapsed_ms >= COUNTDOWN_WINDOW_MS {
        0
    } else {
        COUNTDOWN_WINDOW_MS - elapsed_ms
    };
    let minutes: u32 = remaining_ms / 60_000;
    let seconds: u32 = (remaining_ms / 1_000) % 60;

    let color = if remaining_ms <= BLINK_THRESHOLD_MS && seconds % 2 == 0 {
        UiColor::Red
    } else {
        UiColor::White
    };

    let mut readout = two_digit_text(minutes);
    proof {
        reveal_strlit(":");
    }
    readout.append(":");
    let seconds_text = two_digit_text(seconds);
    readout.append(seconds_text.as_str());
    proof {
        assert(readout@ =~= spec_two_digits(spec_counter_minutes(elapsed_ms)) + seq![':']
            + spec_two_digits(spec_counter_seconds(elapsed_ms)));
    }
    (readout, color)
}

/// The score readout: the number of correct answers over the five needed to
/// win, as `N/5`.
pub fn update_score_text(score: &Score) -> (r: String)
    ensures
        r@ == spec_decimal(score.0 as nat) + seq!['/', '5'],
{
    let mut readout = u32_text(score.0);
    proof {
        reveal_strlit("/5");
    }
    readout.append("/5");
    proof {
        assert(readout@ =~= spec_decimal(score.0 as nat) + seq!['/', '5']);
    }
    readout
}

} // verus!
