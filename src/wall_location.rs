//! The four walls of the arena and where they stand.
use vstd::prelude::*;
use crate::game_layout::{create_initial_layout, initial_layout, GameLayout};
use crate::geometry::IVec2;

verus! {

/// Which side of the arena a wall is located on.
#[derive(Clone, Copy, Debug, PartialEq, Eq, Structural)]
pub enum WallLocation {
    Left,
    Right,
    Bottom,
    Top,
}

/// The center of the wall at `loc`, in units.
pub open spec fn wall_position(loc: WallLocation, l: GameLayout) -> IVec2 {
    match loc {
        WallLocation::Left => IVec2 { x: l.left_wall_x as i64, y: 0 },
        WallLocation::Right => IVec2 { x: l.right_wall_x as i64, y: 0 },
        WallLocation::Bottom => IVec2 { x: 0, y: l.bottom_wall_y as i64 },
        WallLocation::Top => IVec2 { x: 0, y: l.top_wall_y as i64 },
    }
}

/// The width and height of the wall at `loc`, in units: the side walls span
/// the arena's height and the others its width, each extended by one wall
/// thickness so that the corners are closed.
pub open spec fn wall_size(loc: WallLocation, l: GameLayout) -> IVec2 {
    match loc {
        WallLocation::Left | WallLocation::Right => IVec2 {
            x: l.wall_thickness as i64,
            y: (l.arena_height() + l.wall_thickness) as i64,
        },
        WallLocation::Bottom | WallLocation::Top => IVec2 {
            x: (l.arena_width() + l.wall_thickness) as i64,
            y: l.wall_thickness as i64,
        },
    }
}

impl WallLocation {
    /// The wall's center in `layout`, in units.
    pub fn position_in(&self, layout: &GameLayout) -> (r: IVec2)
        ensures
            r == wall_position(*self, *layout),
    {
        match self {
            WallLocation::Left => IVec2::new(layout.left_wall_x as i64, 0),
            WallLocation::Right => IVec2::new(layout.right_wall_x as i64, 0),
            WallLocation::Bottom => IVec2::new(0, layout.bottom_wall_y as i64),
            WallLocation::Top => IVec2::new(0, layout.top_wall_y as i64),
        }
    }

    /// The wall's width and height in `layout`, in units.
    pub fn size_in(&self, layout: &GameLayout) -> (r: IVec2)
        ensures
            r == wall_size(*self, *layout),
    {
        let thickness = layout.wall_thickness as i64;
        match self {
            WallLocation::Left | WallLocation::Right => {
                IVec2::new(thickness, layout.get_arena_height() + thickness)
            },
            WallLocation::Bottom | WallLocation::Top => {
                IVec2::new(layout.get_arena_width() + thickness, thickness)
            },
        }
    }

    /// The wall's center in the initial layout, in units.
    pub fn position(&self) -> (r: IVec2)
        ensures
            r == wall_position(*self, initial_layout()),
    {
        self.position_in(&create_initial_layout())
    }

    /// The wall's width and height in the initial layout, in units.
    pub fn size(&self) -> (r: IVec2)
        ensures
            r == wall_size(*self, initial_layout()),
    {
        self.size_in(&create_initial_layout())
    }
}

} // verus!
