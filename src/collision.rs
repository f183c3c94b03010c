//! Collision of a circular body with an axis-aligned rectangle, and the
//! velocity reflection that a collision causes.
use vstd::prelude::*;
use crate::geometry::{abs_int, clamp_int, clamp_i128, IVec2};

verus! {

/// The face of a rectangular obstacle that was struck.
#[derive(Clone, Copy, Debug, PartialEq, Eq, Structural)]
pub enum Side {
    Left,
    Right,
    Top,
    Bottom,
}

/// Along one axis: the circle's center minus the rectangle's point closest to it.
pub open spec fn axis_gap(center: int, rect_center: int, half: int) -> int {
    (center - rect_center) - clamp_int(center - rect_center, -half, half)
}

/// The side reported for a gap `(dx, dy)` between the circle's center and the
/// closest point of the rectangle. Equal magnitudes fall to the vertical sides.
pub open spec fn side_of(dx: int, dy: int) -> Side {
    if abs_int(dx) > abs_int(dy) {
        if dx < 0 {
            Side::Left
        } else {
            Side::Right
        }
    } else if dy > 0 {
        Side::Top
    } else {
        Side::Bottom
    }
}

/// Whether the circle reaches the rectangle: the squared distance from its
/// center to the closest point of the rectangle is at most its squared radius.
pub open spec fn touches(center: IVec2, radius: int, rect_center: IVec2, half: IVec2) -> bool {
    let dx = axis_gap(center.x as int, rect_center.x as int, half.x as int);
    let dy = axis_gap(center.y as int, rect_center.y as int, half.y as int);
    dx * dx + dy * dy <= radius * radius
}

/// The outcome of a collision test.
pub open spec fn collision(center: IVec2, radius: int, rect_center: IVec2, half: IVec2) -> Option<Side> {
    if touches(center, radius, rect_center, half) {
        Some(
            side_of(
                axis_gap(center.x as int, rect_center.x as int, half.x as int),
                axis_gap(center.y as int, rect_center.y as int, half.y as int),
            ),
        )
    } else {
        None
    }
}

/// Whether a body with velocity `v` moves into the face `side`.
pub open spec fn moving_into(side: Side, v: IVec2) -> bool {
    match side {
        Side::Left => v.x > 0,
        Side::Right => v.x < 0,
        Side::Top => v.y < 0,
        Side::Bottom => v.y > 0,
    }
}

/// The velocity after striking `side`: the axis of that side is negated when
/// the body moves into it, and nothing changes otherwise.
pub open spec fn reflect(side: Side, v: IVec2) -> IVec2 {
    if moving_into(side, v) {
        match side {
            Side::Left | Side::Right => IVec2 { x: (-v.x) as i64, y: v.y },
            Side::Top | Side::Bottom => IVec2 { x: v.x, y: (-v.y) as i64 },
        }
    } else {
        v
    }
}

/// Both components can be negated in an `i64`.
pub open spec fn negatable(v: IVec2) -> bool {
    v.x > i64::MIN && v.y > i64::MIN
}

fn axis_gap_exec(center: i64, rect_center: i64, half: i64) -> (r: i128)
    requires
        half >= 0,
    ensures
        r == axis_gap(center as int, rect_center as int, half as int),
{
    let offset = center as i128 - rect_center as i128;
    let h = half as i128;
    offset - clamp_i128(offset, -h, h)
}

proof fn lemma_square_nonneg(a: int)
    ensures
        a * a >= 0,
{
    assert(a * a >= 0) by (nonlinear_arith);
}

proof fn lemma_square_le(a: int, c: int)
    requires
        abs_int(a) <= c,
    ensures
        a * a <= c * c,
{
    assert(a * a <= c * c) by (nonlinear_arith)
        requires
            -c <= a <= c,
    ;
}

proof fn lemma_square_gt(a: int, c: int)
    requires
        abs_int(a) > c,
        c >= 0,
    ensures
        a * a > c * c,
{
    assert(a * a > c * c) by (nonlinear_arith)
        requires
            a > c || a < -c,
            c >= 0,
    ;
}

fn abs_i128(v: i128) -> (r: i128)
    requires
        v > i128::MIN,
    ensures
        r == abs_int(v as int),
{
    if v < 0 {
        -v
    } else {
        v
    }
}

/// Tests a circle of center `center` and radius `radius` against the
/// rectangle of center `rect_center` and half extents `half`.
///
/// There is no hit when the distance from the circle's center to the closest
/// point of the rectangle exceeds the radius. Otherwise the side struck is the
/// one along whose axis that gap is larger; equal gaps count as vertical.
pub fn detect(center: IVec2, radius: i64, rect_center: IVec2, half: IVec2) -> (r: Option<Side>)
    requires
        radius >= 0,
        half.x >= 0,
        half.y >= 0,
    ensures
        r == collision(center, radius as int, rect_center, half),
{
    let dx = axis_gap_exec(center.x, rect_center.x, half.x);
    let dy = axis_gap_exec(center.y, rect_center.y, half.y);
    let ax = abs_i128(dx);
    let ay = abs_i128(dy);
    let rad = radius as i128;
    if ax > rad || ay > rad {
        proof {
            if ax > rad {
                lemma_square_gt(dx as int, rad as int);
                lemma_square_nonneg(dy as int);
            } else {
                lemma_square_gt(dy as int, rad as int);
                lemma_square_nonneg(dx as int);
            }
        }
        return None;
    }
    proof {
        lemma_square_le(dx as int, rad as int);
        lemma_square_le(dy as int, rad as int);
        assert(rad * rad <= 0x7fff_ffff_ffff_ffff * 0x7fff_ffff_ffff_ffff) by (nonlinear_arith)
            requires
                0 <= rad <= 0x7fff_ffff_ffff_ffff,
        ;
        lemma_square_nonneg(dx as int);
        lemma_square_nonneg(dy as int);
    }
    let dist2 = dx * dx + dy * dy;
    if dist2 > rad * rad {
        None
    } else if ax > ay {
        if dx < 0 {
            Some(Side::Left)
        } else {
            Some(Side::Right)
        }
    } else if dy > 0 {
        Some(Side::Top)
    } else {
        Some(Side::Bottom)
    }
}

/// The velocity `v` after striking `side`. An axis is reflected only when the
/// body moves into the obstacle along it; the speed is kept.
pub fn resolve(side: Side, v: IVec2) -> (r: IVec2)
    requires
        negatable(v),
    ensures
        r == reflect(side, v),
{
    match side {
        Side::Left => if v.x > 0 { IVec2 { x: -v.x, y: v.y } } else { v },
        Side::Right => if v.x < 0 { IVec2 { x: -v.x, y: v.y } } else { v },
        Side::Top => if v.y < 0 { IVec2 { x: v.x, y: -v.y } } else { v },
        Side::Bottom => if v.y > 0 { IVec2 { x: v.x, y: -v.y } } else { v },
    }
}

/// When the circle is farther from the rectangle than its radius, no side is
/// reported.
pub proof fn lemma_apart_means_no_hit(center: IVec2, radius: int, rect_center: IVec2, half: IVec2)
    requires
        !touches(center, radius, rect_center, half),
    ensures
        collision(center, radius, rect_center, half) is None,
{
}

/// When the gap between the circle's center and the rectangle's closest point
/// is as long along x as along y, the side reported is the top or the bottom.
pub proof fn lemma_tie_is_vertical(center: IVec2, radius: int, rect_center: IVec2, half: IVec2)
    requires
        abs_int(axis_gap(center.x as int, rect_center.x as int, half.x as int)) == abs_int(
            axis_gap(center.y as int, rect_center.y as int, half.y as int),
        ),
        touches(center, radius, rect_center, half),
    ensures
        collision(center, radius, rect_center, half) == Some(Side::Top) || collision(
            center,
            radius,
            rect_center,
            half,
        ) == Some(Side::Bottom),
{
}

/// A body that already moves away from the struck face keeps its velocity, so
/// resolving the same side again changes nothing.
pub proof fn lemma_reflect_receding(side: Side, v: IVec2)
    requires
        negatable(v),
    ensures
        !moving_into(side, v) ==> reflect(side, v) == v,
        !moving_into(side, reflect(side, v)),
        reflect(side, reflect(side, v)) == reflect(side, v),
{
}

} // verus!
