//! The ball: its constants and its state in the simulation.
use vstd::prelude::*;
use crate::geometry::{abs_int, IVec2, IVec3, SUBUNITS};
use vstd::arithmetic::div_mod::{lemma_div_by_multiple, lemma_div_is_ordered};

verus! {

pub const BALL_DIAMETER: i64 = 30;
pub const BALL_SPEED: i64 = 400;

/// The state of the ball: its center in sub-units and its velocity in units
/// per second.
#[derive(Clone, Copy, Debug, PartialEq, Eq, Structural)]
pub struct Ball {
    pub position: IVec2,
    pub velocity: IVec2,
}

/// The ball's diameter, in units.
pub fn get_ball_diameter() -> (r: i64)
    ensures
        r == 30,
{
    BALL_DIAMETER
}

/// Where the ball starts, in units; the third component is its drawing order.
pub fn get_ball_starting_position() -> (r: IVec3)
    ensures
        r == (IVec3 { x: 0, y: -50i64, z: 1 }),
{
    IVec3::new(0, -50, 1)
}

/// The ball's speed, in units per second.
pub fn get_ball_speed() -> (r: i64)
    ensures
        r == 400,
{
    BALL_SPEED
}

/// The direction in which the ball starts: right and down, at equal rates.
pub fn get_initial_ball_direction() -> (r: IVec2)
    ensures
        r == (IVec2 { x: 1, y: -1i64 }),
{
    IVec2::new(1, -1)
}

/// `r` is the integer square root of `n`, rounded down.
pub open spec fn is_floor_sqrt(r: int, n: int) -> bool {
    0 <= r && r * r <= n < (r + 1) * (r + 1)
}

/// The square root of `n`, rounded down.
pub fn floor_sqrt(n: u128) -> (r: u64)
    ensures
        is_floor_sqrt(r as int, n as int),
{
    let mut lo: u128 = 0;
    let mut hi: u128 = 0x1_0000_0000_0000_0000;
    assert(n < hi * hi) by (nonlinear_arith)
        requires
            hi == 0x1_0000_0000_0000_0000u128,
            n <= u128::MAX,
    ;
    while hi - lo > 1
        invariant
            lo < hi <= 0x1_0000_0000_0000_0000u128,
            lo * lo <= n,
            n < hi * hi,
        decreases hi - lo,
    {
        let mid = lo + (hi - lo) / 2;
        assert(mid * mid <= 0xffff_ffff_ffff_fffe_0000_0000_0000_0001u128) by (nonlinear_arith)
            requires
                mid < 0x1_0000_0000_0000_0000u128,
        ;
        if mid * mid <= n {
            lo = mid;
        } else {
            hi = mid;
        }
    }
    lo as u64
}

proof fn lemma_square_lt(a: int, b: int)
    requires
        0 <= a < b,
    ensures
        a * a < b * b,
{
    assert(a * a < b * b) by (nonlinear_arith)
        requires
            0 <= a < b,
    ;
}

proof fn lemma_abs_square(v: int)
    ensures
        abs_int(v) * abs_int(v) == v * v,
{
    if v < 0 {
        assert((-v) * (-v) == v * v) by (nonlinear_arith);
    }
}

/// Along one axis: the component of direction `d` scaled to length `speed`,
/// rounded toward zero. `c` is the component along that axis, `o` the other.
pub open spec fn scaled_component(r: int, c: int, o: int, speed: int) -> bool {
    &&& is_floor_sqrt(abs_int(r), (c * c * speed * speed) / (c * c + o * o))
    &&& (c < 0 ==> r <= 0)
    &&& (c >= 0 ==> r >= 0)
}

fn scale_component(c: i64, o: i64, speed: i64) -> (r: i64)
    requires
        -0x8000_0000 <= c <= 0x8000_0000,
        -0x8000_0000 <= o <= 0x8000_0000,
        c != 0 || o != 0,
        0 <= speed <= 0x8000_0000,
    ensures
        scaled_component(r as int, c as int, o as int, speed as int),
        abs_int(r as int) <= speed,
{
    let ac: u128 = if c < 0 { (-c) as u128 } else { c as u128 };
    let ao: u128 = if o < 0 { (-o) as u128 } else { o as u128 };
    let s = speed as u128;
    assert(ac * ac <= 0x4000_0000_0000_0000) by (nonlinear_arith)
        requires
            ac <= 0x8000_0000,
    ;
    assert(ao * ao <= 0x4000_0000_0000_0000) by (nonlinear_arith)
        requires
            ao <= 0x8000_0000,
    ;
    assert(s * s <= 0x4000_0000_0000_0000) by (nonlinear_arith)
        requires
            s <= 0x8000_0000,
    ;
    let c2 = ac * ac;
    let s2 = s * s;
    assert(c2 * s2 <= 0x1000_0000_0000_0000_0000_0000_0000_0000) by (nonlinear_arith)
        requires
            c2 <= 0x4000_0000_0000_0000,
            s2 <= 0x4000_0000_0000_0000,
    ;
    let num = c2 * s2;
    let den = c2 + ao * ao;
    assert(den > 0) by (nonlinear_arith)
        requires
            ac > 0 || ao > 0,
            den == ac * ac + ao * ao,
    ;
    let q = num / den;
    let m = floor_sqrt(q);
    proof {
        let (si, c2i, s2i, deni) = (s as int, c2 as int, s2 as int, den as int);
        lemma_abs_square(c as int);
        lemma_abs_square(o as int);
        assert(c2i * s2i <= s2i * deni) by (nonlinear_arith)
            requires
                0 <= c2i <= deni,
                s2i >= 0,
        ;
        lemma_div_is_ordered(c2i * s2i, s2i * deni, deni);
        lemma_div_by_multiple(s2i, deni);
        if m > s {
            lemma_square_lt(si, m as int);
        }
        assert(c2i * s2i == (c as int) * (c as int) * (speed as int) * (speed as int))
            by (nonlinear_arith)
            requires
                c2i == (c as int) * (c as int),
                s2i == (speed as int) * (speed as int),
        ;
    }
    if c < 0 {
        -(m as i64)
    } else {
        m as i64
    }
}

/// Direction `d` scaled to length `speed`, each component rounded toward zero.
pub fn scale_to_speed(d: IVec2, speed: i64) -> (r: IVec2)
    requires
        -0x8000_0000 <= d.x <= 0x8000_0000,
        -0x8000_0000 <= d.y <= 0x8000_0000,
        d.x != 0 || d.y != 0,
        0 <= speed <= 0x8000_0000,
    ensures
        scaled_component(r.x as int, d.x as int, d.y as int, speed as int),
        scaled_component(r.y as int, d.y as int, d.x as int, speed as int),
{
    IVec2 { x: scale_component(d.x, d.y, speed), y: scale_component(d.y, d.x, speed) }
}

/// The ball's initial velocity: its initial direction scaled to its speed.
pub fn initial_ball_velocity() -> (r: IVec2)
    ensures
        r == (IVec2 { x: 282, y: -282i64 }),
{
    let v = scale_to_speed(get_initial_ball_direction(), get_ball_speed());
    proof {
        lemma_div_by_multiple(80000, 2);
        assert(1int * 1 * 400 * 400 == 80000int * 2);
        assert(1int * 1 + (-1int) * (-1) == 2);
        assert((1int * 1 * 400 * 400) / (1int * 1 + (-1int) * (-1)) == 80000);
        assert(scaled_component(v.x as int, 1, -1, 400));
        let ax = abs_int(v.x as int);
        let ay = abs_int(v.y as int);
        assert(ax == 282) by (nonlinear_arith)
            requires
                0 <= ax,
                ax * ax <= 80000,
                80000 < (ax + 1) * (ax + 1),
        ;
        assert(ay == 282) by (nonlinear_arith)
            requires
                0 <= ay,
                ay * ay <= 80000,
                80000 < (ay + 1) * (ay + 1),
        ;
    }
    v
}

impl Ball {
    /// The ball as it enters play: at its starting position, converted to
    /// sub-units, and moving at its initial velocity.
    pub open spec fn initial() -> Ball {
        Ball { position: IVec2 { x: 0, y: -3200i64 }, velocity: IVec2 { x: 282, y: -282i64 } }
    }

    /// Builds `Ball::initial()`.
    pub fn new() -> (r: Ball)
        ensures
            r == Ball::initial(),
    {
        let start = get_ball_starting_position();
        Ball {
            position: IVec2 { x: start.x * SUBUNITS, y: start.y * SUBUNITS },
            velocity: initial_ball_velocity(),
        }
    }

    /// The ball's radius, in sub-units.
    pub fn radius() -> (r: i64)
        ensures
            r == 15 * SUBUNITS,
    {
        get_ball_diameter() * SUBUNITS / 2
    }
}

} // verus!
