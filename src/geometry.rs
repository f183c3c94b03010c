//! Integer vectors and the fixed-point length scale used by the simulation.
//!
//! Layout and size constants are given in whole units. Positions of bodies
//! in the running simulation are held in sub-units, `SUBUNITS` to a unit.
//! Velocities are held in whole units per second, and the simulation advances
//! at `TICKS_PER_SECOND`; as the two numbers agree, one tick moves a body by
//! exactly its velocity, counted in sub-units.
use vstd::prelude::*;

verus! {

/// Sub-units in one whole unit of length.
pub const SUBUNITS: i64 = 64;

/// Simulation ticks in one second.
pub const TICKS_PER_SECOND: i64 = 64;

/// A vector of two integer components.
#[derive(Clone, Copy, Debug, PartialEq, Eq, Structural)]
pub struct IVec2 {
    pub x: i64,
    pub y: i64,
}

/// A vector of three integer components.
#[derive(Clone, Copy, Debug, PartialEq, Eq, Structural)]
pub struct IVec3 {
    pub x: i64,
    pub y: i64,
    pub z: i64,
}

impl IVec2 {
    pub fn new(x: i64, y: i64) -> (r: IVec2)
        ensures
            r.x == x,
            r.y == y,
    {
        IVec2 { x, y }
    }

    pub open spec fn extend_spec(&self, z: i64) -> IVec3 {
        IVec3 { x: self.x, y: self.y, z }
    }

    /// Adds a third component.
    pub fn extend(&self, z: i64) -> (r: IVec3)
        ensures
            r == self.extend_spec(z),
    {
        IVec3 { x: self.x, y: self.y, z }
    }
}

impl IVec3 {
    pub fn new(x: i64, y: i64, z: i64) -> (r: IVec3)
        ensures
            r.x == x,
            r.y == y,
            r.z == z,
    {
        IVec3 { x, y, z }
    }
}

pub open spec fn abs_int(v: int) -> int {
    if v < 0 {
        -v
    } else {
        v
    }
}

pub open spec fn clamp_int(v: int, lo: int, hi: int) -> int {
    if v < lo {
        lo
    } else if v > hi {
        hi
    } else {
        v
    }
}

/// `v` limited to `[lo, hi]`.
pub fn clamp_i128(v: i128, lo: i128, hi: i128) -> (r: i128)
    requires
        lo <= hi,
    ensures
        r == clamp_int(v as int, lo as int, hi as int),
        lo <= r <= hi,
{
    if v < lo {
        lo
    } else if v > hi {
        hi
    } else {
        v
    }
}

} // verus!
