//! The arena's geometry: wall positions, wall thickness and the paddle's
//! resting height, in whole units. The y axis points up: a positive y lies
//! above the center.
use vstd::prelude::*;

verus! {

const LEFT_WALL: i32 = -450;
const RIGHT_WALL: i32 = 450;
const BOTTOM_WALL: i32 = -300;
const TOP_WALL: i32 = 300;
const WALL_THICKNESS: i32 = 10;
const GAP_BETWEEN_PADDLE_AND_FLOOR: i32 = 60;

pub struct GameLayout {
    pub paddle_y: i32,
    pub left_wall_x: i32,
    pub right_wall_x: i32,
    pub top_wall_y: i32,
    pub bottom_wall_y: i32,
    pub wall_thickness: i32,
}

impl GameLayout {
    /// The invariants of a usable arena.
    pub open spec fn wf(&self) -> bool {
        &&& self.left_wall_x < self.right_wall_x
        &&& self.bottom_wall_y < self.top_wall_y
        &&& self.bottom_wall_y < self.paddle_y < self.top_wall_y
        &&& self.wall_thickness > 0
    }

    pub open spec fn arena_height(&self) -> int {
        self.top_wall_y - self.bottom_wall_y
    }

    pub open spec fn arena_width(&self) -> int {
        self.right_wall_x - self.left_wall_x
    }

    /// Builds a layout from wall bounds, wall thickness and the gap between
    /// the floor and the paddle; `None` when they break the arena invariants.
    pub fn from_bounds(
        left_wall_x: i32,
        right_wall_x: i32,
        bottom_wall_y: i32,
        top_wall_y: i32,
        wall_thickness: i32,
        floor_gap: i32,
    ) -> (r: Option<GameLayout>)
        ensures
            r is Some <==> (left_wall_x < right_wall_x && bottom_wall_y < top_wall_y
                && wall_thickness > 0 && 0 < floor_gap < top_wall_y - bottom_wall_y),
            r matches Some(l) ==> {
                &&& l.wf()
                &&& l.left_wall_x == left_wall_x
                &&& l.right_wall_x == right_wall_x
                &&& l.bottom_wall_y == bottom_wall_y
                &&& l.top_wall_y == top_wall_y
                &&& l.wall_thickness == wall_thickness
                &&& l.paddle_y == bottom_wall_y + floor_gap
            },
    {
        if left_wall_x >= right_wall_x || bottom_wall_y >= top_wall_y || wall_thickness <= 0
            || floor_gap <= 0 || floor_gap as i64 >= top_wall_y as i64 - bottom_wall_y as i64 {
            return None;
        }
        Some(
            GameLayout {
                paddle_y: bottom_wall_y + floor_gap,
                left_wall_x,
                right_wall_x,
                top_wall_y,
                bottom_wall_y,
                wall_thickness,
            },
        )
    }

    /// Distance between the top and bottom walls.
    pub fn get_arena_height(&self) -> (r: i64)
        ensures
            r == self.arena_height(),
    {
        self.top_wall_y as i64 - self.bottom_wall_y as i64
    }

    /// Distance between the left and right walls.
    pub fn get_arena_width(&self) -> (r: i64)
        ensures
            r == self.arena_width(),
    {
        self.right_wall_x as i64 - self.left_wall_x as i64
    }
}

/// The arena of the game: walls at x = -450 and 450 and at y = -300 and 300,
/// 10 units thick, and the paddle resting 60 units above the floor.
pub open spec fn initial_layout() -> GameLayout {
    GameLayout {
        paddle_y: -240i32,
        left_wall_x: -450i32,
        right_wall_x: 450,
        top_wall_y: 300,
        bottom_wall_y: -300i32,
        wall_thickness: 10,
    }
}

/// Builds the arena of the game, `initial_layout()`.
pub fn create_initial_layout() -> (r: GameLayout)
    ensures
        r == initial_layout(),
        r.wf(),
{
    let layout = GameLayout::from_bounds(
        LEFT_WALL,
        RIGHT_WALL,
        BOTTOM_WALL,
        TOP_WALL,
        WALL_THICKNESS,
        GAP_BETWEEN_PADDLE_AND_FLOOR,
    );
    layout.unwrap()
}

/// The paddle's resting height in the initial layout.
pub fn get_init_paddle_y() -> (r: i32)
    ensures
        r == -240,
{
    create_initial_layout().paddle_y
}

/// The bottom wall's height in the initial layout.
pub fn get_init_bottom_wall_y() -> (r: i32)
    ensures
        r == -300,
{
    create_initial_layout().bottom_wall_y
}

/// In every valid layout the paddle rests strictly between the floor and the
/// ceiling, and the arena's interior has a positive width and height.
pub proof fn lemma_layout_interior(l: GameLayout)
    requires
        l.wf(),
    ensures
        l.bottom_wall_y < l.paddle_y < l.top_wall_y,
        l.arena_width() > 0,
        l.arena_height() > 0,
{
}

} // verus!
