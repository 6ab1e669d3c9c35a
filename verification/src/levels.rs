//! Markers for the level world and its wall tiles.

use vstd::prelude::*;

verus! {

/// Marker for a solid wall tile of the map.
#[derive(Clone, Copy, Debug, PartialEq, Eq, Structural, Default)]
pub struct Wall;

/// A wall tile as placed in a level.
#[derive(Clone, Copy, Debug, PartialEq, Eq, Structural, Default)]
pub struct WallBundle {
    pub wall: Wall,
}

/// Marker for the root of the spawned level world.
#[derive(Clone, Copy, Debug, PartialEq, Eq, Structural, Default)]
pub struct World;

} // verus!
