//! The paddle: its constants, its state, and how input moves it.
use vstd::prelude::*;
use crate::game_layout::GameLayout;
use crate::geometry::{clamp_i128, clamp_int, IVec3, SUBUNITS};

verus! {

pub const PADDLE_WIDTH: i64 = 120;
pub const PADDLE_HEIGHT: i64 = 20;
pub const PADDLE_PADDING: i64 = 10;
pub const PADDLE_SPEED: i64 = 500;

/// The state of the paddle: the x coordinate of its center, in sub-units.
/// Its height is the layout's resting height at all times.
#[derive(Clone, Copy, Debug, PartialEq, Eq, Structural)]
pub struct Paddle {
    pub x: i64,
}

/// How close the paddle can get to a wall, in units.
pub fn get_paddle_padding() -> (r: i64)
    ensures
        r == 10,
{
    PADDLE_PADDING
}

/// Width and height of the paddle, in units; the third component is zero.
pub fn get_paddle_size() -> (r: IVec3)
    ensures
        r == (IVec3 { x: 120, y: 20, z: 0 }),
{
    IVec3::new(PADDLE_WIDTH, PADDLE_HEIGHT, 0)
}

/// The paddle's speed, in units per second.
pub fn get_paddle_speed() -> (r: i64)
    ensures
        r == 500,
{
    PADDLE_SPEED
}

/// The leftmost center of the paddle, in sub-units: half a wall, half a
/// paddle and the padding to the right of the left wall's center.
pub open spec fn paddle_min_x(l: GameLayout) -> int {
    SUBUNITS * l.left_wall_x + SUBUNITS * l.wall_thickness / 2 + SUBUNITS * PADDLE_WIDTH / 2
        + SUBUNITS * PADDLE_PADDING
}

/// The rightmost center of the paddle, in sub-units.
pub open spec fn paddle_max_x(l: GameLayout) -> int {
    SUBUNITS * l.right_wall_x - SUBUNITS * l.wall_thickness / 2 - SUBUNITS * PADDLE_WIDTH / 2
        - SUBUNITS * PADDLE_PADDING
}

/// The arena is wide enough for the paddle to stand between the walls.
pub open spec fn paddle_fits(l: GameLayout) -> bool {
    paddle_min_x(l) <= paddle_max_x(l)
}

/// Where the paddle ends up: moved by `direction` times its speed for
/// `ticks` ticks, then kept between the bounds.
pub open spec fn moved_paddle_x(x: int, direction: int, ticks: int, l: GameLayout) -> int {
    clamp_int(x + direction * PADDLE_SPEED * ticks, paddle_min_x(l), paddle_max_x(l))
}

/// Leftmost and rightmost paddle centers in `layout`, in sub-units.
pub fn paddle_bounds(layout: &GameLayout) -> (r: (i64, i64))
    ensures
        r.0 == paddle_min_x(*layout),
        r.1 == paddle_max_x(*layout),
{
    let half_wall = SUBUNITS / 2 * layout.wall_thickness as i64;
    let inset = half_wall + SUBUNITS * PADDLE_WIDTH / 2 + SUBUNITS * PADDLE_PADDING;
    (SUBUNITS * layout.left_wall_x as i64 + inset, SUBUNITS * layout.right_wall_x as i64 - inset)
}

/// The paddle's new x coordinate, in sub-units, after `direction` was held
/// for `ticks` ticks: one tick moves it by `direction` times its speed, and
/// the result is kept between the bounds of `paddle_bounds`, however large
/// the move.
pub fn move_paddle(current_x: i64, direction: i32, ticks: u32, layout: &GameLayout) -> (r: i64)
    requires
        paddle_fits(*layout),
    ensures
        r == moved_paddle_x(current_x as int, direction as int, ticks as int, *layout),
        paddle_min_x(*layout) <= r <= paddle_max_x(*layout),
        ticks == 0 && paddle_min_x(*layout) <= current_x <= paddle_max_x(*layout) ==> r
            == current_x,
{
    let (lo, hi) = paddle_bounds(layout);
    let d = direction as i128;
    let t = ticks as i128;
    assert(-0x1_0000_0000_0000_0000_0000 <= d * 500 * t <= 0x1_0000_0000_0000_0000_0000)
        by (nonlinear_arith)
        requires
            -0x8000_0000 <= d <= 0x8000_0000,
            0 <= t <= 0x1_0000_0000,
    ;
    let target = current_x as i128 + d * (PADDLE_SPEED as i128) * t;
    if ticks == 0 {
        assert(d * 500 * t == 0) by (nonlinear_arith)
            requires
                t == 0,
        ;
    }
    clamp_i128(target, lo as i128, hi as i128) as i64
}

impl Paddle {
    /// The paddle as it enters play, centered horizontally.
    pub fn new() -> (r: Paddle)
        ensures
            r.x == 0,
    {
        Paddle { x: 0 }
    }
}

} // verus!
