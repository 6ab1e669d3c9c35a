//! The player: vitality, movement input, and sprite animation selection.
//!
//! The engine reads raw input devices and applies physics; this module holds
//! the decisions in between. Movement input becomes a unit direction on each
//! axis, the direction picks the next animation state and whether the sprite
//! is mirrored, and each animation state maps to a fixed range of sprite-sheet
//! frames.

use vstd::prelude::*;

verus! {

/// Whether the player is alive or dead; level triggers and end screens key on
/// this.
#[derive(Clone, Copy, Debug, PartialEq, Eq, Structural, Hash)]
pub enum Vitality {
    /// The player can move and reach goals.
    Alive,
    /// The player is dead; goal collisions are ignored.
    Dead,
}

impl Default for Vitality {
    /// A freshly spawned player is alive.
    fn default() -> (r: Self)
        ensures
            r == Vitality::Alive,
    {
        Vitality::Alive
    }
}

/// Marker for the playable character of the first map.
#[derive(Clone, Copy, Debug, PartialEq, Eq, Structural, Default)]
pub struct Player;

/// The direction the player sprite is facing while it moves.
#[derive(Clone, Copy, Debug, PartialEq, Eq, Structural, Hash)]
pub enum MovementDirection {
    Up,
    Down,
    Left,
}

/// Which animation the player sprite plays.
#[derive(Clone, Copy, Debug, PartialEq, Eq, Structural, Hash)]
pub enum PlayerAnimationState {
    /// Standing still.
    Idle,
    /// Walking in the given direction.
    Moving(MovementDirection),
}

impl Default for PlayerAnimationState {
    /// A freshly spawned player stands still.
    fn default() -> (r: Self)
        ensures
            r == PlayerAnimationState::Idle,
    {
        PlayerAnimationState::Idle
    }
}

/// The movement actions a player can hold down or press.
#[derive(Clone, Copy, Debug, PartialEq, Eq, Structural, Hash)]
pub enum PlayerAction {
    Up,
    Down,
    Left,
    Right,
}

/// A unit direction on each axis, as chosen from movement input.
/// Each component is -1, 0 or 1.
#[derive(Clone, Copy, Debug, PartialEq, Eq, Structural)]
pub struct Direction {
    pub x: i8,
    pub y: i8,
}

/// The vertical component chosen from movement input: up wins over down.
pub open spec fn spec_axis_y(up: bool, down: bool) -> i8 {
    if up {
        1i8
    } else if down {
        -1i8
    } else {
        0i8
    }
}

/// The horizontal component chosen from movement input: right wins over left.
pub open spec fn spec_axis_x(left: bool, right: bool) -> i8 {
    if right {
        1i8
    } else if left {
        -1i8
    } else {
        0i8
    }
}

/// Turns the four movement actions into a unit direction on each axis.
/// When opposite actions are held together, up wins over down and right wins
/// over left.
pub fn movement_direction(up: bool, down: bool, left: bool, right: bool) -> (d: Direction)
    ensures
        d.x == spec_axis_x(left, right),
        d.y == spec_axis_y(up, down),
{
    let x: i8 = if right {
        1
    } else if left {
        -1
    } else {
        0
    };
    let y: i8 = if up {
        1
    } else if down {
        -1
    } else {
        0
    };
    Direction { x, y }
}

/// The animation state after a physics step with the given velocity signs:
/// vertical movement wins, then horizontal, else the state is kept.
pub open spec fn spec_animation_after_move(
    current: PlayerAnimationState,
    dx: i8,
    dy: i8,
) -> PlayerAnimationState {
    if dy > 0 {
        PlayerAnimationState::Moving(MovementDirection::Up)
    } else if dy < 0 {
        PlayerAnimationState::Moving(MovementDirection::Down)
    } else if dx != 0 {
        PlayerAnimationState::Moving(MovementDirection::Left)
    } else {
        current
    }
}

/// Picks the next animation state from the direction the player moves in.
/// Horizontal movement shows the sideways walk (the sprite mirror handles
/// left against right), and vertical movement overrides it.
pub fn animation_after_move(current: PlayerAnimationState, dx: i8, dy: i8) -> (r:
    PlayerAnimationState)
    ensures
        r == spec_animation_after_move(current, dx, dy),
{
    let mut state = current;
    if dx != 0 && state != PlayerAnimationState::Moving(MovementDirection::Left) {
        state = PlayerAnimationState::Moving(MovementDirection::Left);
    }
    if dy > 0 && state != PlayerAnimationState::Moving(MovementDirection::Up) {
        state = PlayerAnimationState::Moving(MovementDirection::Up);
    }
    if dy < 0 && state != PlayerAnimationState::Moving(MovementDirection::Down) {
        state = PlayerAnimationState::Moving(MovementDirection::Down);
    }
    state
}

/// Whether the sprite is mirrored after moving with the given horizontal
/// sign: moving left mirrors it, moving right unmirrors it, standing still
/// keeps the current mirror.
pub fn sprite_flip(dx: i8, current_flip: bool) -> (r: bool)
    ensures
        dx != 0 ==> r == (dx < 0),
        dx == 0 ==> r == current_flip,
{
    if dx != 0 {
        dx < 0
    } else {
        current_flip
    }
}

/// A sprite-sheet animation: a half-open range of frame indices, how long
/// each frame is shown (in milliseconds), and whether it loops.
#[derive(Clone, Copy, Debug, PartialEq, Eq, Structural)]
pub struct SpriteSheetAnimation {
    pub first_frame: usize,
    pub end_frame: usize,
    pub frame_ms: u32,
    pub repeat: bool,
}

/// The frame range played for each player animation state.
pub open spec fn spec_player_animation(state: PlayerAnimationState) -> SpriteSheetAnimation {
    match state {
        PlayerAnimationState::Idle => SpriteSheetAnimation {
            first_frame: 15,
            end_frame: 23,
            frame_ms: 100,
            repeat: true,
        },
        PlayerAnimationState::Moving(direction) => match direction {
            MovementDirection::Up => SpriteSheetAnimation {
                first_frame: 60,
                end_frame: 66,
                frame_ms: 100,
                repeat: true,
            },
            MovementDirection::Down => SpriteSheetAnimation {
                first_frame: 30,
                end_frame: 36,
                frame_ms: 100,
                repeat: true,
            },
            MovementDirection::Left => SpriteSheetAnimation {
                first_frame: 45,
                end_frame: 51,
                frame_ms: 100,
                repeat: true,
            },
        },
    }
}

impl From<PlayerAnimationState> for SpriteSheetAnimation {
    /// The looping walk or idle cycle for the given animation state.
    fn from(state: PlayerAnimationState) -> (r: Self) {
        match state {
            PlayerAnimationState::Idle => SpriteSheetAnimation {
                first_frame: 15,
                end_frame: 23,
                frame_ms: 100,
                repeat: true,
            },
            PlayerAnimationState::Moving(direction) => match direction {
                MovementDirection::Up => SpriteSheetAnimation {
                    first_frame: 60,
                    end_frame: 66,
                    frame_ms: 100,
                    repeat: true,
                },
                MovementDirection::Down => SpriteSheetAnimation {
                    first_frame: 30,
                    end_frame: 36,
                    frame_ms: 100,
                    repeat: true,
                },
                MovementDirection::Left => SpriteSheetAnimation {
                    first_frame: 45,
                    end_frame: 51,
                    frame_ms: 100,
                    repeat: true,
                },
            },
        }
    }
}

impl vstd::std_specs::convert::FromSpecImpl<PlayerAnimationState> for SpriteSheetAnimation {
    open spec fn obeys_from_spec() -> bool {
        true
    }

    open spec fn from_spec(state: PlayerAnimationState) -> Self {
        spec_player_animation(state)
    }
}

/// Marker for the alternate playable character.
#[derive(Clone, Copy, Debug, PartialEq, Eq, Structural, Default)]
pub struct PlayerAlt;

impl From<PlayerAlt> for SpriteSheetAnimation {
    /// The alternate character's single looping run cycle.
    fn from(_player: PlayerAlt) -> (r: Self) {
        SpriteSheetAnimation { first_frame: 65, end_frame: 71, frame_ms: 100, repeat: true }
    }
}

impl vstd::std_specs::convert::FromSpecImpl<PlayerAlt> for SpriteSheetAnimation {
    open spec fn obeys_from_spec() -> bool {
        true
    }

    open spec fn from_spec(_player: PlayerAlt) -> Self {
        SpriteSheetAnimation { first_frame: 65, end_frame: 71, frame_ms: 100, repeat: true }
    }
}

} // verus!
