//! The physics colliders given to entities spawned from the level map.
//!
//! Each named entity of the map gets a fixed collider: its shape, whether its
//! body is driven by physics or fixed in place, its friction, whether it
//! reports collision events, and that its rotation is locked. Entities the
//! table does not name are left to the engine's defaults.

use vstd::prelude::*;

verus! {

/// A collider's shape, in pixels.
#[derive(Clone, Copy, Debug, PartialEq, Eq, Structural)]
pub enum ColliderShape {
    /// An axis-aligned box by its half-extents.
    Cuboid { half_x: u32, half_y: u32 },
    /// A circle by its radius.
    Ball { radius: u32 },
}

/// How a body takes part in the physics step.
#[derive(Clone, Copy, Debug, PartialEq, Eq, Structural)]
pub enum RigidBodyKind {
    /// Moved by forces and velocities.
    Dynamic,
    /// Fixed in place.
    Fixed,
}

/// A surface's friction: its coefficient in tenths, and whether the smaller
/// of two touching coefficients wins.
#[derive(Clone, Copy, Debug, PartialEq, Eq, Structural)]
pub struct FrictionSpec {
    pub coefficient_tenths: u32,
    pub combine_min: bool,
}

/// The collider an entity of the map is spawned with.
#[derive(Clone, Copy, Debug, PartialEq, Eq, Structural)]
pub struct ColliderBundle {
    pub shape: ColliderShape,
    pub body: RigidBodyKind,
    /// The surface's friction, or the engine's default when absent.
    pub friction: Option<FrictionSpec>,
    /// Whether the collider reports collision events.
    pub collision_events: bool,
    /// Whether the body's rotation is locked.
    pub rotation_locked: bool,
}

/// The slippery friction the playable characters move with.
pub open spec fn spec_player_friction() -> FrictionSpec {
    FrictionSpec { coefficient_tenths: 1, combine_min: true }
}

/// The collider table: what each named entity of the map is spawned with,
/// and nothing for names the table does not know.
pub open spec fn spec_collider_for(identifier: Seq<char>) -> Option<ColliderBundle> {
    if identifier == "Player"@ {
        Some(
            ColliderBundle {
                shape: ColliderShape::Cuboid { half_x: 8, half_y: 8 },
                body: RigidBodyKind::Dynamic,
                friction: Some(spec_player_friction()),
                collision_events: false,
                rotation_locked: true,
            },
        )
    } else if identifier == "Goal"@ {
        Some(
            ColliderBundle {
                shape: ColliderShape::Cuboid { half_x: 4, half_y: 4 },
                body: RigidBodyKind::Fixed,
                friction: None,
                collision_events: true,
                rotation_locked: true,
            },
        )
    } else if identifier == "Crab"@ {
        Some(
            ColliderBundle {
                shape: ColliderShape::Ball { radius: 8 },
                body: RigidBodyKind::Dynamic,
                friction: Some(spec_player_friction()),
                collision_events: false,
                rotation_locked: true,
            },
        )
    } else if identifier == "Runner"@ {
        Some(
            ColliderBundle {
                shape: ColliderShape::Ball { radius: 4 },
                body: RigidBodyKind::Dynamic,
                friction: Some(spec_player_friction()),
                collision_events: false,
                rotation_locked: true,
            },
        )
    } else if identifier == "Goal_Alt"@ {
        Some(
            ColliderBundle {
                shape: ColliderShape::Cuboid { half_x: 8, half_y: 8 },
                body: RigidBodyKind::Fixed,
                friction: None,
                collision_events: true,
                rotation_locked: true,
            },
        )
    } else if identifier == "Jumper"@ {
        Some(
            ColliderBundle {
                shape: ColliderShape::Cuboid { half_x: 4, half_y: 4 },
                body: RigidBodyKind::Fixed,
                friction: None,
                collision_events: true,
                rotation_locked: true,
            },
        )
    } else {
        None
    }
}

/// Looks an entity up in the collider table by the identifier it carries in
/// the map; nothing comes back for names the table does not know, and the
/// engine's defaults apply.
pub fn collider_for(identifier: &String) -> (r: Option<ColliderBundle>)
    ensures
        r == spec_collider_for(identifier@),
{
    if *identifier == String::from_str("Player") {
        Some(
            ColliderBundle {
                shape: ColliderShape::Cuboid { half_x: 8, half_y: 8 },
                body: RigidBodyKind::Dynamic,
                friction: Some(FrictionSpec { coefficient_tenths: 1, combine_min: true }),
                collision_events: false,
                rotation_locked: true,
            },
        )
    } else if *identifier == String::from_str("Goal") {
        Some(
            ColliderBundle {
                shape: ColliderShape::Cuboid { half_x: 4, half_y: 4 },
                body: RigidBodyKind::Fixed,
                friction: None,
                collision_events: true,
                rotation_locked: true,
            },
        )
    } else if *identifier == String::from_str("Crab") {
        Some(
            ColliderBundle {
                shape: ColliderShape::Ball { radius: 8 },
                body: RigidBodyKind::Dynamic,
                friction: Some(FrictionSpec { coefficient_tenths: 1, combine_min: true }),
                collision_events: false,
                rotation_locked: true,
            },
        )
    } else if *identifier == String::from_str("Runner") {
        Some(
            ColliderBundle {
                shape: ColliderShape::Ball { radius: 4 },
                body: RigidBodyKind::Dynamic,
                friction: Some(FrictionSpec { coefficient_tenths: 1, combine_min: true }),
                collision_events: false,
                rotation_locked: true,
            },
        )
    } else if *identifier == String::from_str("Goal_Alt") {
        Some(
            ColliderBundle {
                shape: ColliderShape::Cuboid { half_x: 8, half_y: 8 },
                body: RigidBodyKind::Fixed,
                friction: None,
                collision_events: true,
                rotation_locked: true,
            },
        )
    } else if *identifier == String::from_str("Jumper") {
        Some(
            ColliderBundle {
                shape: ColliderShape::Cuboid { half_x: 4, half_y: 4 },
                body: RigidBodyKind::Fixed,
                friction: None,
                collision_events: true,
                rotation_locked: true,
            },
        )
    } else {
        None
    }
}

} // verus!
