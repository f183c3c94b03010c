//! What it takes to place a wall: its translation and scale.
use vstd::prelude::*;
use crate::game_layout::initial_layout;
use crate::geometry::IVec3;
use crate::wall_location::{wall_position, wall_size, WallLocation};

verus! {

/// A wall's placement, in units: its center at depth zero, and its size as a
/// scale whose third component is one, so that drawing order is not affected.
#[derive(Clone, Copy, Debug, PartialEq, Eq, Structural)]
pub struct WallBundle {
    pub translation: IVec3,
    pub scale: IVec3,
}

impl WallBundle {
    /// The placement of the wall at `location` in the initial layout.
    pub fn new(location: WallLocation) -> (r: WallBundle)
        ensures
            r.translation == wall_position(location, initial_layout()).extend_spec(0),
            r.scale == wall_size(location, initial_layout()).extend_spec(1),
    {
        WallBundle { translation: location.position().extend(0), scale: location.size().extend(1) }
    }
}

} // verus!
