//! The level clock: elapsed time, its scale, and the lose threshold.
//!
//! Time is kept in whole milliseconds. Each engine tick the elapsed time
//! advances by the tick's delta multiplied by the current scale. A level
//! start resets the clock, sets the scale back to one, and revives every
//! player. Once the elapsed time passes the level time limit it is pinned to
//! the limit, the scale drops to zero, every player dies, and the game moves
//! to its game-over phase.

use crate::player::Vitality;
use vstd::prelude::*;

verus! {

/// Elapsed time after which the level is lost, in milliseconds.
pub const LEVEL_TIME_LIMIT_MS: u32 = 180_000;

/// Multiplier applied to each tick's delta before it is added to the clock.
/// The game only ever uses zero (frozen) and one (running).
#[derive(Clone, Copy, Debug, PartialEq, Eq, Structural)]
pub struct TimeScale(pub u32);

impl Default for TimeScale {
    /// A fresh clock runs at full speed.
    fn default() -> (r: Self)
        ensures
            r == TimeScale(1u32),
    {
        TimeScale(1)
    }
}

/// Milliseconds of scaled time since the current level started.
#[derive(Clone, Copy, Debug, PartialEq, Eq, Structural)]
pub struct TimeSinceLevelStart(pub u32);

impl Default for TimeSinceLevelStart {
    /// A fresh clock reads zero.
    fn default() -> (r: Self)
        ensures
            r == TimeSinceLevelStart(0u32),
    {
        TimeSinceLevelStart(0)
    }
}

/// A value stamped with the clock time (in milliseconds) it was recorded at.
#[derive(Clone, Copy, Debug, PartialEq, Eq, Structural, Default)]
pub struct Moment<T> {
    pub timestamp: u32,
    pub data: T,
}

/// A record of stamped values, oldest first.
#[derive(Clone, Debug, Default)]
pub struct History<T> {
    pub moments: Vec<Moment<T>>,
}

/// Events the clock announces to the rest of the game.
#[derive(Clone, Copy, Debug, PartialEq, Eq, Structural)]
pub enum TimeEvent {
    /// Time runs normally again, announced when a level starts.
    Normal,
}

/// What a clock tick asked the rest of the game to do.
#[derive(Clone, Copy, Debug, PartialEq, Eq, Structural)]
pub struct ClockTickOutcome {
    /// A `TimeEvent::Normal` is to be announced (a level just started).
    pub time_event_sent: bool,
    /// The level is lost: the game moves to its game-over phase.
    pub game_over: bool,
}

/// The elapsed time (in milliseconds) after one tick, before clamping:
/// the time at the tick's start plus the scaled delta.
pub open spec fn spec_advanced_ms(start_ms: u32, delta_ms: u32, scale: u32) -> int {
    start_ms + delta_ms * scale
}

/// Advances the level clock by one engine tick.
///
/// When a level start is signalled, the clock first resets to zero at full
/// speed and every player is revived. The scaled delta is then added. If the
/// result passes the level time limit, the clock is pinned to the limit and
/// frozen, every player dies, and — as long as there is a player to kill —
/// the tick asks for the game-over phase.
pub fn update_time(
    time_scale: &mut TimeScale,
    time_since_level_start: &mut TimeSinceLevelStart,
    delta_ms: u32,
    level_started: bool,
    vitals: &mut Vec<Vitality>,
) -> (r: ClockTickOutcome)
    ensures
        ({
            let start_ms = if level_started {
                0u32
            } else {
                old(time_since_level_start).0
            };
            let scale = if level_started {
                1u32
            } else {
                old(time_scale).0
            };
            let advanced = spec_advanced_ms(start_ms, delta_ms, scale);
            let expired = advanced > LEVEL_TIME_LIMIT_MS;
            &&& final(time_since_level_start).0 == if expired {
                LEVEL_TIME_LIMIT_MS as int
            } else {
                advanced
            }
            &&& final(time_scale).0 == if expired {
                0u32
            } else {
                scale
            }
            &&& r.time_event_sent == level_started
            &&& r.game_over == (expired && old(vitals).len() > 0)
            &&& final(vitals).len() == old(vitals).len()
            &&& forall|i: int|
                0 <= i < final(vitals).len() ==> final(vitals)[i] == if expired {
                    Vitality::Dead
                } else if level_started {
                    Vitality::Alive
                } else {
                    old(vitals)[i]
                }
        }),
{
    let mut time_event_sent = false;
    if level_started {
        time_scale.0 = 1;
        time_since_level_start.0 = 0;
        time_event_sent = true;
        set_all_vitals(vitals, Vitality::Alive);
    }

    let delta_wide: u64 = delta_ms as u64;
    let scale_wide: u64 = time_scale.0 as u64;
    assert(delta_wide * scale_wide <= 0xFFFF_FFFFu64 * 0xFFFF_FFFFu64) by (nonlinear_arith)
        requires
            delta_wide <= 0xFFFF_FFFFu64,
            scale_wide <= 0xFFFF_FFFFu64,
    ;
    let advanced: u64 = time_since_level_start.0 as u64 + delta_wide * scale_wide;

    let mut game_over = false;
    if advanced > LEVEL_TIME_LIMIT_MS as u64 {
        time_since_level_start.0 = LEVEL_TIME_LIMIT_MS;
        time_scale.0 = 0;
        if vitals.len() > 0 {
            game_over = true;
        }
        set_all_vitals(vitals, Vitality::Dead);
    } else {
        time_since_level_start.0 = advanced as u32;
    }

    ClockTickOutcome { time_event_sent, game_over }
}

/// Overwrites every player's vitality with the given value.
fn set_all_vitals(vitals: &mut Vec<Vitality>, value: Vitality)
    ensures
        final(vitals).len() == old(vitals).len(),
        forall|i: int| 0 <= i < final(vitals).len() ==> final(vitals)[i] == value,
{
    let n = vitals.len();
    let mut idx: usize = 0;
    while idx < n
        invariant
            n == vitals.len(),
            idx <= n,
            forall|i: int| 0 <= i < idx ==> vitals[i] == value,
        decreases n - idx,
    {
        vitals.set(idx, value);
        idx = idx + 1;
    }
}

} // verus!
