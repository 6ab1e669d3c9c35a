//! Level triggers: tiles that move the game to a target phase when a
//! player's vitality comes to match theirs.
//!
//! Each trigger carries a vitality and a target phase. When some player's
//! vitality just changed, every trigger whose vitality equals the changed one
//! fires; when several fire in one tick, the last one seen decides.

use crate::player::Vitality;
use crate::GameState;
use vstd::prelude::*;

verus! {

/// Marker for a level-trigger entity.
#[derive(Clone, Copy, Debug, PartialEq, Eq, Structural, Default)]
pub struct Trigger;

/// The phase a trigger moves the game to when it fires.
#[derive(Clone, Copy, Debug, PartialEq, Eq, Structural)]
pub struct TriggerTargetLevel(pub GameState);

/// A trigger as placed in a level: the marker and its target phase.
#[derive(Clone, Copy, Debug, PartialEq, Eq, Structural)]
pub struct LevelTriggerBundle {
    pub tag: Trigger,
    pub target: TriggerTargetLevel,
}

impl LevelTriggerBundle {
    /// A trigger that moves the game to the given phase.
    pub fn new(target: GameState) -> (r: Self)
        ensures
            r.target == TriggerTargetLevel(target),
    {
        LevelTriggerBundle { tag: Trigger, target: TriggerTargetLevel(target) }
    }
}

/// The phase the triggers move the game to for the given changed vitality:
/// the target of the last trigger whose vitality matches, if any matches.
pub open spec fn spec_trigger_target(
    changed: Vitality,
    triggers: Seq<(Vitality, TriggerTargetLevel)>,
) -> Option<GameState>
    decreases triggers.len(),
{
    if triggers.len() == 0 {
        None
    } else if triggers.last().0 == changed {
        Some(triggers.last().1.0)
    } else {
        spec_trigger_target(changed, triggers.drop_last())
    }
}

/// Fires the triggers matching a just-changed vitality: the game moves to the
/// target of the last matching trigger, or stays put when none matches.
pub fn activate_trigger(
    changed: Vitality,
    triggers: &Vec<(Vitality, TriggerTargetLevel)>,
) -> (r: Option<GameState>)
    ensures
        r == spec_trigger_target(changed, triggers@),
{
    let n = triggers.len();
    let mut target: Option<GameState> = None;
    let mut idx: usize = 0;
    while idx < n
        invariant
            n == triggers.len(),
            idx <= n,
            target == spec_trigger_target(changed, triggers@.subrange(0, idx as int)),
        decreases n - idx,
    {
        if triggers[idx].0 == changed {
            target = Some(triggers[idx].1.0);
        }
        proof {
            assert(triggers@.subrange(0, idx + 1).drop_last() =~= triggers@.subrange(
                0,
                idx as int,
            ));
        }
        idx = idx + 1;
    }
    proof {
        assert(triggers@.subrange(0, n as int) =~= triggers@);
    }
    target
}

} // verus!
