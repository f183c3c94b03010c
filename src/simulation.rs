//! The fixed-timestep simulation: one tick integrates the ball's motion,
//! moves the paddle from the input, then bounces the ball off every obstacle
//! it touches.
use vstd::prelude::*;
use crate::ball::{Ball, BALL_DIAMETER};
use crate::collision::{collision, detect, negatable, reflect, resolve};
use crate::game_layout::GameLayout;
use crate::geometry::{IVec2, SUBUNITS};
use crate::paddle::{
    move_paddle, moved_paddle_x, paddle_bounds, paddle_fits, Paddle, PADDLE_HEIGHT,
    PADDLE_WIDTH,
};
use crate::wall_location::{wall_position, wall_size, WallLocation};

verus! {

/// An axis-aligned rectangle: its center and half extents, in sub-units.
#[derive(Clone, Copy, Debug, PartialEq, Eq, Structural)]
pub struct Rect {
    pub center: IVec2,
    pub half: IVec2,
}

/// Everything that changes while the game runs, with the layout it runs in.
pub struct Simulation {
    pub layout: GameLayout,
    pub ball: Ball,
    pub paddle: Paddle,
}

/// The ball's radius, in sub-units.
pub open spec fn ball_radius() -> int {
    BALL_DIAMETER * SUBUNITS / 2
}

/// The collision shape of a wall, in sub-units.
pub open spec fn wall_rect(loc: WallLocation, l: GameLayout) -> Rect {
    let p = wall_position(loc, l);
    let s = wall_size(loc, l);
    Rect {
        center: IVec2 { x: (p.x * SUBUNITS) as i64, y: (p.y * SUBUNITS) as i64 },
        half: IVec2 { x: (s.x * (SUBUNITS / 2)) as i64, y: (s.y * (SUBUNITS / 2)) as i64 },
    }
}

/// The collision shape of the paddle centered at `x`, in sub-units.
pub open spec fn paddle_rect(x: i64, l: GameLayout) -> Rect {
    Rect {
        center: IVec2 { x, y: (l.paddle_y * SUBUNITS) as i64 },
        half: IVec2 {
            x: (PADDLE_WIDTH * (SUBUNITS / 2)) as i64,
            y: (PADDLE_HEIGHT * (SUBUNITS / 2)) as i64,
        },
    }
}

/// The obstacles in the order in which the ball is tested against them: the
/// left, right, bottom and top walls, then the paddle.
pub open spec fn obstacles(l: GameLayout, paddle_x: i64) -> Seq<Rect> {
    seq![
        wall_rect(WallLocation::Left, l),
        wall_rect(WallLocation::Right, l),
        wall_rect(WallLocation::Bottom, l),
        wall_rect(WallLocation::Top, l),
        paddle_rect(paddle_x, l),
    ]
}

/// The velocity `v` after the ball centered at `center` was tested against
/// each obstacle of `obs` in turn, reflected on each hit.
pub open spec fn bounce_through(center: IVec2, v: IVec2, obs: Seq<Rect>) -> IVec2
    decreases obs.len(),
{
    if obs.len() == 0 {
        v
    } else {
        let before = bounce_through(center, v, obs.drop_last());
        match collision(center, ball_radius(), obs.last().center, obs.last().half) {
            Some(side) => reflect(side, before),
            None => before,
        }
    }
}

/// How many obstacles of `obs` the ball centered at `center` touches.
pub open spec fn hit_count(center: IVec2, obs: Seq<Rect>) -> nat
    decreases obs.len(),
{
    if obs.len() == 0 {
        0
    } else {
        hit_count(center, obs.drop_last()) + if collision(
            center,
            ball_radius(),
            obs.last().center,
            obs.last().half,
        ) is Some {
            1nat
        } else {
            0nat
        }
    }
}

/// The ball moved by its velocity for one tick.
pub open spec fn integrate(b: Ball) -> Ball {
    Ball {
        position: IVec2 {
            x: (b.position.x + b.velocity.x) as i64,
            y: (b.position.y + b.velocity.y) as i64,
        },
        velocity: b.velocity,
    }
}

/// The state after one tick with the paddle input `direction`.
pub open spec fn tick(s: Simulation, direction: i32) -> Simulation {
    let moved = integrate(s.ball);
    let paddle_x = moved_paddle_x(s.paddle.x as int, direction as int, 1, s.layout) as i64;
    Simulation {
        layout: s.layout,
        ball: Ball {
            position: moved.position,
            velocity: bounce_through(
                moved.position,
                moved.velocity,
                obstacles(s.layout, paddle_x),
            ),
        },
        paddle: Paddle { x: paddle_x },
    }
}

/// The number of collisions in the tick from `s` with the input `direction`.
pub open spec fn tick_hits(s: Simulation, direction: i32) -> nat {
    let t = tick(s, direction);
    hit_count(t.ball.position, obstacles(t.layout, t.paddle.x))
}

/// The state after `n` ticks with the same input held.
pub open spec fn after_ticks(s: Simulation, direction: i32, n: nat) -> Simulation
    decreases n,
{
    if n == 0 {
        s
    } else {
        tick(after_ticks(s, direction, (n - 1) as nat), direction)
    }
}

/// A tick can run from `s` within the integer range: the layout is sound, and
/// neither moving the ball nor reflecting its velocity leaves `i64`.
pub open spec fn steppable(s: Simulation) -> bool {
    &&& s.wf()
    &&& negatable(s.ball.velocity)
    &&& i64::MIN <= s.ball.position.x + s.ball.velocity.x <= i64::MAX
    &&& i64::MIN <= s.ball.position.y + s.ball.velocity.y <= i64::MAX
}

/// `n` ticks can run from `s`.
pub open spec fn runnable(s: Simulation, direction: i32, n: nat) -> bool {
    forall|i: nat| i < n ==> #[trigger] steppable(after_ticks(s, direction, i))
}

/// The collision shape of the wall at `loc` in `layout`.
pub fn wall_rect_of(loc: WallLocation, layout: &GameLayout) -> (r: Rect)
    requires
        layout.wf(),
    ensures
        r == wall_rect(loc, *layout),
{
    let p = loc.position_in(layout);
    let s = loc.size_in(layout);
    Rect {
        center: IVec2::new(p.x * SUBUNITS, p.y * SUBUNITS),
        half: IVec2::new(s.x * (SUBUNITS / 2), s.y * (SUBUNITS / 2)),
    }
}

/// The collision shape of the paddle centered at `x` in `layout`.
pub fn paddle_rect_of(x: i64, layout: &GameLayout) -> (r: Rect)
    ensures
        r == paddle_rect(x, *layout),
{
    Rect {
        center: IVec2::new(x, layout.paddle_y as i64 * SUBUNITS),
        half: IVec2::new(PADDLE_WIDTH * (SUBUNITS / 2), PADDLE_HEIGHT * (SUBUNITS / 2)),
    }
}

/// The obstacles of `layout` with the paddle at `paddle_x`, in test order.
pub fn obstacles_of(layout: &GameLayout, paddle_x: i64) -> (r: Vec<Rect>)
    requires
        layout.wf(),
    ensures
        r@ == obstacles(*layout, paddle_x),
{
    let mut v: Vec<Rect> = Vec::new();
    v.push(wall_rect_of(WallLocation::Left, layout));
    v.push(wall_rect_of(WallLocation::Right, layout));
    v.push(wall_rect_of(WallLocation::Bottom, layout));
    v.push(wall_rect_of(WallLocation::Top, layout));
    v.push(paddle_rect_of(paddle_x, layout));
    assert(v@ =~= obstacles(*layout, paddle_x));
    v
}

impl Simulation {
    /// The layout is sound and leaves the paddle room between the walls.
    pub open spec fn wf(&self) -> bool {
        self.layout.wf() && paddle_fits(self.layout)
    }

    /// A game in `layout`, with the ball and the paddle as they enter play;
    /// `None` when the layout is unsound or too narrow for the paddle.
    pub fn new(layout: GameLayout) -> (r: Option<Simulation>)
        ensures
            r is Some <==> layout.wf() && paddle_fits(layout),
            r matches Some(s) ==> {
                &&& s.wf()
                &&& s.layout == layout
                &&& s.ball == Ball::initial()
                &&& s.paddle.x == 0
            },
    {
        if layout.left_wall_x >= layout.right_wall_x || layout.bottom_wall_y >= layout.top_wall_y
            || layout.paddle_y <= layout.bottom_wall_y || layout.paddle_y >= layout.top_wall_y
            || layout.wall_thickness <= 0 {
            return None;
        }
        let (lo, hi) = paddle_bounds(&layout);
        if lo > hi {
            return None;
        }
        Some(Simulation { layout, ball: Ball::new(), paddle: Paddle::new() })
    }

    /// Runs one tick with the paddle input `direction` (negative to the left,
    /// positive to the right): the ball moves by its velocity, the paddle
    /// moves and is kept between the walls, and the ball is tested against
    /// each wall and then the paddle, its velocity reflected on every hit.
    /// Returns the number of hits.
    pub fn step(&mut self, direction: i32) -> (r: u32)
        requires
            steppable(*old(self)),
        ensures
            *final(self) == tick(*old(self), direction),
            r == tick_hits(*old(self), direction),
    {
        let position = IVec2::new(
            self.ball.position.x + self.ball.velocity.x,
            self.ball.position.y + self.ball.velocity.y,
        );
        self.ball.position = position;
        self.paddle.x = move_paddle(self.paddle.x, direction, 1, &self.layout);
        let obs = obstacles_of(&self.layout, self.paddle.x);
        let radius = Ball::radius();
        let ghost v0 = self.ball.velocity;
        let mut velocity = self.ball.velocity;
        let mut hits: u32 = 0;
        let mut i: usize = 0;
        while i < obs.len()
            invariant
                obs@ == obstacles(self.layout, self.paddle.x),
                self.layout.wf(),
                radius == ball_radius(),
                0 <= i <= obs.len(),
                negatable(velocity),
                velocity == bounce_through(position, v0, obs@.subrange(0, i as int)),
                hits == hit_count(position, obs@.subrange(0, i as int)),
                hits <= i,
            decreases obs.len() - i,
        {
            let rect = obs[i];
            assert(obs@.subrange(0, i + 1).drop_last() =~= obs@.subrange(0, i as int));
            assert(rect.half.x >= 0 && rect.half.y >= 0);
            match detect(position, radius, rect.center, rect.half) {
                Some(side) => {
                    velocity = resolve(side, velocity);
                    hits = hits + 1;
                },
                None => {},
            }
            i = i + 1;
        }
        assert(obs@.subrange(0, obs@.len() as int) =~= obs@);
        self.ball.velocity = velocity;
        hits
    }

    /// Runs `n` ticks with the same paddle input held throughout. With
    /// `n == 0` nothing changes.
    pub fn run(&mut self, direction: i32, n: u32)
        requires
            runnable(*old(self), direction, n as nat),
        ensures
            *final(self) == after_ticks(*old(self), direction, n as nat),
            n == 0 ==> *final(self) == *old(self),
    {
        let ghost start = *self;
        let mut i: u32 = 0;
        while i < n
            invariant
                0 <= i <= n,
                runnable(start, direction, n as nat),
                *self == after_ticks(start, direction, i as nat),
            decreases n - i,
        {
            assert(steppable(after_ticks(start, direction, i as nat)));
            self.step(direction);
            i = i + 1;
        }
    }
}

/// Running zero ticks leaves every part of the state as it was.
pub proof fn lemma_zero_ticks_unchanged(s: Simulation, direction: i32)
    ensures
        after_ticks(s, direction, 0) == s,
{
}

} // verus!
