//! A reduced layout that holds only the floor and the paddle's resting
//! height, in whole units.
use vstd::prelude::*;

verus! {

const BOTTOM_WALL: i32 = -300;
const GAP_BETWEEN_PADDLE_AND_FLOOR: i32 = 60;

pub struct InitialLayout {
    pub paddle_y: i32,
    pub bottom_wall_y: i32,
}

/// The floor at y = -300 and the paddle resting 60 units above it.
pub fn create_initial_layout() -> (r: InitialLayout)
    ensures
        r.bottom_wall_y == -300,
        r.paddle_y == r.bottom_wall_y + 60,
{
    InitialLayout {
        paddle_y: BOTTOM_WALL + GAP_BETWEEN_PADDLE_AND_FLOOR,
        bottom_wall_y: BOTTOM_WALL,
    }
}

/// The paddle's resting height.
pub fn get_init_paddle_y() -> (r: i32)
    ensures
        r == -240,
{
    create_initial_layout().paddle_y
}

/// The floor's height.
pub fn get_init_bottom_wall_y() -> (r: i32)
    ensures
        r == -300,
{
    create_initial_layout().bottom_wall_y
}

} // verus!
